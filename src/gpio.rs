use vstd::prelude::*;

verus! {

/// Mode marker: the pin's direction has not been set to output.
#[derive(Debug)]
pub struct Input;

/// Mode marker: the pin drives its level.
#[derive(Debug)]
pub struct Output;

/// Number of GPIO ports on the chip.
pub const NUM_PORTS: usize = 5;

/// Number of pins in one port register.
pub const PINS_PER_PORT: u32 = 32;

/// The state of one GPIO port: its direction register (a set bit makes the
/// pin an output) and its output latch.
#[derive(Clone, Copy, Debug, PartialEq, Eq, Structural)]
pub struct PortRegisters {
    pub dir: u32,
    pub out: u32,
}

/// Bit `j` of `x`, as 0 or 1.
pub open spec fn bit_of(x: u32, j: u32) -> u32 {
    (x >> j) & 1
}

pub open spec fn pin_mask(bit: u32) -> u32
    recommends
        bit < 32,
{
    1u32 << bit
}

/// Port `port` after a write of `value` to its direction register.
pub open spec fn with_dir(regs: Seq<PortRegisters>, port: int, value: u32) -> Seq<PortRegisters> {
    regs.update(port, PortRegisters { dir: value, out: regs[port].out })
}

/// Port `port` after a write of `mask` to its write-1-to-set register.
pub open spec fn after_set(regs: Seq<PortRegisters>, port: int, mask: u32) -> Seq<PortRegisters> {
    regs.update(port, PortRegisters { dir: regs[port].dir, out: regs[port].out | mask })
}

/// Port `port` after a write of `mask` to its write-1-to-clear register.
pub open spec fn after_clear(regs: Seq<PortRegisters>, port: int, mask: u32) -> Seq<
    PortRegisters,
> {
    regs.update(port, PortRegisters { dir: regs[port].dir, out: regs[port].out & !mask })
}

/// The GPIO register block: one direction register and output latch per
/// port, reached through the set and clear registers.
pub struct GpioRegisters {
    ports: Vec<PortRegisters>,
}

impl View for GpioRegisters {
    type V = Seq<PortRegisters>;

    closed spec fn view(&self) -> Seq<PortRegisters> {
        self.ports@
    }
}

impl GpioRegisters {
    /// One register pair for each port.
    pub open spec fn wf(&self) -> bool {
        self@.len() == NUM_PORTS
    }

    /// The register block in its reset state: every pin an input, every
    /// latch low.
    pub fn new() -> (r: Self)
        ensures
            r.wf(),
            r@ == Seq::new(NUM_PORTS as nat, |i: int| PortRegisters { dir: 0, out: 0 }),
    {
        let mut ports: Vec<PortRegisters> = Vec::new();
        let mut i: usize = 0;
        while i < NUM_PORTS
            invariant
                i <= NUM_PORTS,
                ports@ == Seq::new(i as nat, |k: int| PortRegisters { dir: 0, out: 0 }),
            decreases NUM_PORTS - i,
        {
            ports.push(PortRegisters { dir: 0, out: 0 });
            i = i + 1;
            assert(ports@ =~= Seq::new(i as nat, |k: int| PortRegisters { dir: 0, out: 0 }));
        }
        GpioRegisters { ports }
    }

    /// The state of port `port`, or `None` past the last port.
    pub fn port(&self, port: usize) -> (r: Option<PortRegisters>)
        requires
            self.wf(),
        ensures
            r == (if port < NUM_PORTS {
                Some(self@[port as int])
            } else {
                None
            }),
    {
        if port < self.ports.len() {
            Some(self.ports[port])
        } else {
            None
        }
    }

    /// Write `value` to the direction register of `port`.
    pub(crate) fn write_dir(&mut self, port: usize, value: u32)
        requires
            old(self).wf(),
            port < NUM_PORTS,
        ensures
            final(self)@ == with_dir(old(self)@, port as int, value),
    {
        let out = self.ports[port].out;
        self.ports.set(port, PortRegisters { dir: value, out });
    }

    /// Write `mask` to the set register of `port`: each 1 bit drives its pin
    /// high, each 0 bit leaves its pin alone.
    pub(crate) fn write_set(&mut self, port: usize, mask: u32)
        requires
            old(self).wf(),
            port < NUM_PORTS,
        ensures
            final(self)@ == after_set(old(self)@, port as int, mask),
    {
        let p = self.ports[port];
        self.ports.set(port, PortRegisters { dir: p.dir, out: p.out | mask });
    }

    /// Write `mask` to the clear register of `port`: each 1 bit drives its pin
    /// low, each 0 bit leaves its pin alone.
    pub(crate) fn write_clear(&mut self, port: usize, mask: u32)
        requires
            old(self).wf(),
            port < NUM_PORTS,
        ensures
            final(self)@ == after_clear(old(self)@, port as int, mask),
    {
        let p = self.ports[port];
        self.ports.set(port, PortRegisters { dir: p.dir, out: p.out & !mask });
    }
}

/// Exclusive handle on one physical pin, in mode `MODE`.
pub struct Pin<MODE> {
    port: usize,
    bit: u32,
    mode: MODE,
}

impl<MODE> Pin<MODE> {
    #[verifier::type_invariant]
    spec fn inv(self) -> bool {
        self.port < NUM_PORTS && self.bit < PINS_PER_PORT
    }

    pub closed spec fn spec_port(self) -> nat {
        self.port as nat
    }

    pub closed spec fn spec_bit(self) -> u32 {
        self.bit
    }

    /// The port the pin belongs to.
    pub fn port(&self) -> (r: usize)
        ensures
            r == self.spec_port(),
            r < NUM_PORTS,
    {
        proof {
            use_type_invariant(self);
        }
        self.port
    }

    /// The pin's bit within its port.
    pub fn bit(&self) -> (r: u32)
        ensures
            r == self.spec_bit(),
            r < PINS_PER_PORT,
    {
        proof {
            use_type_invariant(self);
        }
        self.bit
    }

    /// The pin's one-bit mask within its port's registers.
    pub fn mask(&self) -> (r: u32)
        ensures
            r == pin_mask(self.spec_bit()),
            self.spec_bit() < PINS_PER_PORT,
    {
        proof {
            use_type_invariant(self);
        }
        1u32 << self.bit
    }

    /// Make the pin an output: set its bit in the port's direction register,
    /// keeping the other bits.
    pub fn into_output(self, regs: &mut GpioRegisters) -> (r: Pin<Output>)
        requires
            old(regs).wf(),
        ensures
            r.spec_port() == self.spec_port(),
            r.spec_bit() == self.spec_bit(),
            self.spec_port() < NUM_PORTS,
            self.spec_bit() < PINS_PER_PORT,
            final(regs)@ == with_dir(
                old(regs)@,
                self.spec_port() as int,
                old(regs)@[self.spec_port() as int].dir | pin_mask(self.spec_bit()),
            ),
    {
        proof {
            use_type_invariant(&self);
        }
        let current = regs.ports[self.port].dir;
        regs.write_dir(self.port, current | (1u32 << self.bit));
        Pin { port: self.port, bit: self.bit, mode: Output }
    }
}

impl Pin<Output> {
    /// Drive the pin high through the port's set register.
    pub fn set_high(&mut self, regs: &mut GpioRegisters)
        requires
            old(regs).wf(),
        ensures
            *final(self) == *old(self),
            old(self).spec_port() < NUM_PORTS,
            old(self).spec_bit() < PINS_PER_PORT,
            final(regs)@ == after_set(
                old(regs)@,
                old(self).spec_port() as int,
                pin_mask(old(self).spec_bit()),
            ),
    {
        proof {
            use_type_invariant(&*self);
        }
        regs.write_set(self.port, 1u32 << self.bit);
    }

    /// Drive the pin low through the port's clear register.
    pub fn set_low(&mut self, regs: &mut GpioRegisters)
        requires
            old(regs).wf(),
        ensures
            *final(self) == *old(self),
            old(self).spec_port() < NUM_PORTS,
            old(self).spec_bit() < PINS_PER_PORT,
            final(regs)@ == after_clear(
                old(regs)@,
                old(self).spec_port() as int,
                pin_mask(old(self).spec_bit()),
            ),
    {
        proof {
            use_type_invariant(&*self);
        }
        regs.write_clear(self.port, 1u32 << self.bit);
    }
}

/// The pin handles that splitting the GPIO block hands out, all inputs,
/// with the register block they act on.
pub struct Parts {
    pub p0_0: Pin<Input>,
    pub p0_1: Pin<Input>,
    pub p0_2: Pin<Input>,
    pub p0_3: Pin<Input>,
    pub p1_1: Pin<Input>,
    pub p1_4: Pin<Input>,
    pub p1_8: Pin<Input>,
    pub p1_9: Pin<Input>,
    pub p1_18: Pin<Input>,
    pub p1_20: Pin<Input>,
    pub p1_21: Pin<Input>,
    pub p1_22: Pin<Input>,
    pub p1_23: Pin<Input>,
    pub p1_25: Pin<Input>,
    pub registers: GpioRegisters,
}

/// Each handle of `parts` stands at the pin its name gives: `p<port>_<bit>`.
/// The positions are pairwise distinct, so no two handles share a pin.
pub open spec fn pins_in_place(parts: Parts) -> bool {
        &&& parts.p0_0.spec_port() == 0 && parts.p0_0.spec_bit() == 0
        &&& parts.p0_1.spec_port() == 0 && parts.p0_1.spec_bit() == 1
        &&& parts.p0_2.spec_port() == 0 && parts.p0_2.spec_bit() == 2
        &&& parts.p0_3.spec_port() == 0 && parts.p0_3.spec_bit() == 3
        &&& parts.p1_1.spec_port() == 1 && parts.p1_1.spec_bit() == 1
        &&& parts.p1_4.spec_port() == 1 && parts.p1_4.spec_bit() == 4
        &&& parts.p1_8.spec_port() == 1 && parts.p1_8.spec_bit() == 8
        &&& parts.p1_9.spec_port() == 1 && parts.p1_9.spec_bit() == 9
        &&& parts.p1_18.spec_port() == 1 && parts.p1_18.spec_bit() == 18
        &&& parts.p1_20.spec_port() == 1 && parts.p1_20.spec_bit() == 20
        &&& parts.p1_21.spec_port() == 1 && parts.p1_21.spec_bit() == 21
        &&& parts.p1_22.spec_port() == 1 && parts.p1_22.spec_bit() == 22
        &&& parts.p1_23.spec_port() == 1 && parts.p1_23.spec_bit() == 23
        &&& parts.p1_25.spec_port() == 1 && parts.p1_25.spec_bit() == 25
}

/// Splitting the GPIO peripheral into one input handle per pin.
pub trait GpioExt {
    fn split(self) -> (r: Parts)
        ensures
            pins_in_place(r),
    ;
}

impl GpioRegisters {
    /// Hand out one input handle per pin, together with this block.
    pub fn split(self) -> (r: Parts)
        ensures
            pins_in_place(r),
            r.registers@ == self@,
    {
        Parts {
            p0_0: Pin { port: 0, bit: 0, mode: Input },
            p0_1: Pin { port: 0, bit: 1, mode: Input },
            p0_2: Pin { port: 0, bit: 2, mode: Input },
            p0_3: Pin { port: 0, bit: 3, mode: Input },
            p1_1: Pin { port: 1, bit: 1, mode: Input },
            p1_4: Pin { port: 1, bit: 4, mode: Input },
            p1_8: Pin { port: 1, bit: 8, mode: Input },
            p1_9: Pin { port: 1, bit: 9, mode: Input },
            p1_18: Pin { port: 1, bit: 18, mode: Input },
            p1_20: Pin { port: 1, bit: 20, mode: Input },
            p1_21: Pin { port: 1, bit: 21, mode: Input },
            p1_22: Pin { port: 1, bit: 22, mode: Input },
            p1_23: Pin { port: 1, bit: 23, mode: Input },
            p1_25: Pin { port: 1, bit: 25, mode: Input },
            registers: self,
        }
    }
}

impl GpioExt for GpioRegisters {
    fn split(self) -> (r: Parts) {
        GpioRegisters::split(self)
    }
}

proof fn lemma_set_bit(out: u32, bit: u32, j: u32)
    requires
        bit < 32,
        j < 32,
    ensures
        j != bit ==> bit_of(out | pin_mask(bit), j) == bit_of(out, j),
        bit_of(out | pin_mask(bit), bit) == 1,
{
    assert(j != bit ==> ((out | (1u32 << bit)) >> j) & 1 == (out >> j) & 1) by (bit_vector)
        requires
            bit < 32,
            j < 32,
    ;
    assert(((out | (1u32 << bit)) >> bit) & 1 == 1) by (bit_vector)
        requires
            bit < 32,
    ;
}

/// Driving one pin high sets its own latch bit, leaves every other bit of its
/// port's latch and its port's direction register as they were, and leaves
/// every other port untouched.
pub proof fn lemma_set_high_isolated(regs: Seq<PortRegisters>, port: int, bit: u32)
    requires
        regs.len() == NUM_PORTS,
        0 <= port < NUM_PORTS,
        bit < PINS_PER_PORT,
    ensures
        ({
            let after = after_set(regs, port, pin_mask(bit));
            &&& after.len() == regs.len()
            &&& forall|q: int| 0 <= q < regs.len() && q != port ==> after[q] == regs[q]
            &&& after[port].dir == regs[port].dir
            &&& bit_of(after[port].out, bit) == 1
            &&& forall|j: u32|
                j < PINS_PER_PORT && j != bit ==> #[trigger] bit_of(after[port].out, j)
                    == bit_of(regs[port].out, j)
        }),
{
    let after = after_set(regs, port, pin_mask(bit));
    lemma_set_bit(regs[port].out, bit, bit);
    assert forall|j: u32| j < PINS_PER_PORT && j != bit implies #[trigger] bit_of(
        after[port].out,
        j,
    ) == bit_of(regs[port].out, j) by {
        lemma_set_bit(regs[port].out, bit, j);
    }
}

} // verus!
