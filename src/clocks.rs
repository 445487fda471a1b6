use vstd::prelude::*;

verus! {

/// A frequency, in cycles per second.
#[derive(Clone, Copy, Debug, PartialEq, Eq, Structural)]
pub struct Hertz(pub u32);

/// Frequency of the external crystal that feeds the PLL.
pub const MAIN_OSCILLATOR_HZ: u32 = 12_000_000;

/// The only CPU frequency this sequence produces.
pub const CPU_HZ: u32 = 72_000_000;

/// USB full-speed clock frequency.
pub const USB_HZ: u32 = 48_000_000;

/// The frequencies in effect once the clock sequence has completed.
#[derive(Clone, Copy, Debug, PartialEq, Eq, Structural)]
pub struct Clocks {
    pub cpu_frequency: Hertz,
    pub main_oscillator_frequency: Hertz,
    pub usb_frequency: Option<Hertz>,
}

/// A request for a clock configuration, consumed by the freeze sequence.
#[derive(Debug, PartialEq, Eq, Structural)]
pub struct ClockConfig {
    cpu_frequency: Hertz,
    enable_usb: bool,
}

impl ClockConfig {
    /// The one operating point this sequence supports.
    #[verifier::type_invariant]
    spec fn inv(self) -> bool {
        self.cpu_frequency.0 == CPU_HZ
    }

    pub closed spec fn spec_cpu_frequency(self) -> u32 {
        self.cpu_frequency.0
    }

    pub closed spec fn spec_usb_enabled(self) -> bool {
        self.enable_usb
    }

    /// The record that a completed freeze sequence yields for this request.
    pub open spec fn resolved(self) -> Clocks {
        Clocks {
            cpu_frequency: Hertz(self.spec_cpu_frequency()),
            main_oscillator_frequency: Hertz(MAIN_OSCILLATOR_HZ),
            usb_frequency: if self.spec_usb_enabled() { Some(Hertz(USB_HZ)) } else { None },
        }
    }

    /// Create a new `ClockConfig`: 72 MHz CPU, USB off.
    pub fn new() -> (r: Self)
        ensures
            r.spec_cpu_frequency() == CPU_HZ,
            !r.spec_usb_enabled(),
    {
        Self { cpu_frequency: Hertz(CPU_HZ), enable_usb: false }
    }

    /// Enable USB. Must be done before the freeze sequence starts.
    pub fn enable_usb(self) -> (r: Self)
        ensures
            r.spec_cpu_frequency() == CPU_HZ,
            r.spec_usb_enabled(),
    {
        proof {
            use_type_invariant(&self);
        }
        ClockConfig { cpu_frequency: self.cpu_frequency, enable_usb: true }
    }

    /// Whether the USB clock will be derived.
    pub fn usb_enabled(&self) -> (r: bool)
        ensures
            r == self.spec_usb_enabled(),
    {
        self.enable_usb
    }

    /// The requested CPU frequency.
    pub fn cpu_frequency(&self) -> (r: Hertz)
        ensures
            r.0 == self.spec_cpu_frequency(),
            r.0 == CPU_HZ,
    {
        proof {
            use_type_invariant(self);
        }
        self.cpu_frequency
    }

    /// Consume the request and start the freeze sequence that applies it.
    pub fn start_freeze(self) -> (r: FreezeSequence)
        ensures
            r.wf(),
            r.spec_config() == self,
            r.spec_position() == 0,
    {
        proof {
            use_type_invariant(&self);
        }
        let accesses = freeze_accesses(self.enable_usb);
        FreezeSequence { config: self, accesses, position: 0 }
    }
}

/// PLL multiplier (M).
pub const PLL_MULTIPLIER: u16 = 12;

/// PLL pre-divider (N).
pub const PLL_PRE_DIVIDER: u8 = 1;

/// Divider from the PLL output to the CPU clock.
pub const CPU_DIVIDER: u8 = 4;

/// Divider from the PLL output to the USB clock.
pub const USB_DIVIDER: u8 = 6;

/// Flash access time, in CPU cycles.
pub const FLASH_ACCESS_CYCLES: u8 = 4;

/// First byte of the PLL feed handshake.
pub const FEED_FIRST: u8 = 0xAA;

/// Second byte of the PLL feed handshake.
pub const FEED_SECOND: u8 = 0x55;

/// One access to the system-control register block. Numeric fields hold
/// the zero-based encoding that the registers use (value minus one).
#[derive(Clone, Copy, Debug, PartialEq, Eq, Structural)]
pub enum SysconAccess {
    /// Write the oscillator control: 1-20 MHz range, crystal enabled.
    EnableMainOscillator,
    /// Read the oscillator status; repeated until it reports ready.
    PollOscillatorReady,
    /// Write the clock source select: the main oscillator.
    SelectMainOscillator,
    /// Write the PLL configuration: multiplier and pre-divider fields.
    ConfigurePll { msel: u16, nsel: u8 },
    /// Write one byte to the PLL feed register.
    FeedPll(u8),
    /// Write the PLL control register; unlisted bits are cleared.
    ControlPll { enable: bool, connect: bool },
    /// Write the CPU clock divider select.
    SetCpuDivider(u8),
    /// Write the USB clock divider select.
    SetUsbDivider(u8),
    /// Modify the flash access time field, keeping the other bits.
    SetFlashWaitStates(u8),
    /// Read the PLL status; repeated until it reports locked.
    PollPllLock,
}

impl SysconAccess {
    /// A read that is repeated until the hardware reports the awaited state.
    pub open spec fn is_poll(self) -> bool {
        self is PollOscillatorReady || self is PollPllLock
    }

    /// A write that the PLL only applies after a feed handshake.
    pub open spec fn is_pll_write(self) -> bool {
        self is ConfigurePll || self is ControlPll
    }

    pub fn is_poll_access(&self) -> (r: bool)
        ensures
            r == self.is_poll(),
    {
        match self {
            SysconAccess::PollOscillatorReady => true,
            SysconAccess::PollPllLock => true,
            _ => false,
        }
    }
}

/// The feed handshake that commits a PLL write.
pub open spec fn feed_pair() -> Seq<SysconAccess> {
    seq![SysconAccess::FeedPll(0xAA), SysconAccess::FeedPll(0x55)]
}

/// Every register access of the freeze sequence, in order, each poll listed once.
pub open spec fn freeze_program(usb: bool) -> Seq<SysconAccess> {
    seq![
        SysconAccess::EnableMainOscillator,
        SysconAccess::PollOscillatorReady,
        SysconAccess::SelectMainOscillator,
        SysconAccess::ConfigurePll { msel: 11, nsel: 0 },
    ] + feed_pair() + seq![SysconAccess::ControlPll { enable: true, connect: false }]
        + feed_pair() + seq![SysconAccess::SetCpuDivider(3)] + (if usb {
        seq![SysconAccess::SetUsbDivider(5)]
    } else {
        Seq::empty()
    }) + seq![
        SysconAccess::SetFlashWaitStates(3),
        SysconAccess::PollPllLock,
        SysconAccess::ControlPll { enable: true, connect: true },
    ] + feed_pair()
}

/// The accesses that commit a PLL write: 0xAA then 0x55 to the feed
/// register, and nothing else.
pub fn feed_pll0() -> (r: Vec<SysconAccess>)
    ensures
        r@ == feed_pair(),
{
    let mut v: Vec<SysconAccess> = Vec::new();
    v.push(SysconAccess::FeedPll(FEED_FIRST));
    v.push(SysconAccess::FeedPll(FEED_SECOND));
    assert(v@ =~= feed_pair());
    v
}

fn push_feed(v: &mut Vec<SysconAccess>)
    ensures
        final(v)@ == old(v)@ + feed_pair(),
{
    let mut feed = feed_pll0();
    v.append(&mut feed);
}

fn freeze_accesses(usb: bool) -> (r: Vec<SysconAccess>)
    ensures
        r@ == freeze_program(usb),
{
    let mut v: Vec<SysconAccess> = Vec::new();
    v.push(SysconAccess::EnableMainOscillator);
    v.push(SysconAccess::PollOscillatorReady);
    v.push(SysconAccess::SelectMainOscillator);
    v.push(SysconAccess::ConfigurePll { msel: PLL_MULTIPLIER - 1, nsel: PLL_PRE_DIVIDER - 1 });
    push_feed(&mut v);
    v.push(SysconAccess::ControlPll { enable: true, connect: false });
    push_feed(&mut v);
    v.push(SysconAccess::SetCpuDivider(CPU_DIVIDER - 1));
    if usb {
        v.push(SysconAccess::SetUsbDivider(USB_DIVIDER - 1));
    }
    v.push(SysconAccess::SetFlashWaitStates(FLASH_ACCESS_CYCLES - 1));
    v.push(SysconAccess::PollPllLock);
    v.push(SysconAccess::ControlPll { enable: true, connect: true });
    push_feed(&mut v);
    assert(v@ =~= freeze_program(usb));
    v
}

/// The freeze sequence in progress: which register access comes next.
///
/// The caller performs `next_access`, then calls `advance` with what a poll
/// read back (ignored for writes), until `clocks` returns the result.
pub struct FreezeSequence {
    config: ClockConfig,
    accesses: Vec<SysconAccess>,
    position: usize,
}

impl FreezeSequence {
    pub closed spec fn spec_config(self) -> ClockConfig {
        self.config
    }

    /// How many accesses of the program have completed.
    pub closed spec fn spec_position(self) -> nat {
        self.position as nat
    }

    pub open spec fn program(self) -> Seq<SysconAccess> {
        freeze_program(self.spec_config().spec_usb_enabled())
    }

    pub closed spec fn wf(self) -> bool {
        &&& self.config.spec_cpu_frequency() == CPU_HZ
        &&& self.accesses@ == freeze_program(self.config.spec_usb_enabled())
        &&& self.position <= self.accesses@.len()
    }

    pub open spec fn is_complete(self) -> bool {
        self.spec_position() == self.program().len()
    }

    /// The result the sequence yields: present once every access is done.
    pub open spec fn result(self) -> Option<Clocks> {
        if self.is_complete() {
            Some(self.spec_config().resolved())
        } else {
            None
        }
    }

    /// The register access to perform now, or `None` once the sequence is done.
    pub fn next_access(&self) -> (r: Option<SysconAccess>)
        requires
            self.wf(),
        ensures
            self.spec_position() <= self.program().len(),
            r == (if self.spec_position() < self.program().len() {
                Some(self.program()[self.spec_position() as int])
            } else {
                None
            }),
    {
        if self.position < self.accesses.len() {
            Some(self.accesses[self.position])
        } else {
            None
        }
    }

    /// Record that the current access was performed. For a poll, `ready` is
    /// what the status read reported; the poll is repeated until it is true.
    pub fn advance(&mut self, ready: bool)
        requires
            old(self).wf(),
        ensures
            final(self).wf(),
            final(self).spec_config() == old(self).spec_config(),
            final(self).spec_position() == (if old(self).spec_position() < old(self).program().len()
                && (!old(self).program()[old(self).spec_position() as int].is_poll() || ready) {
                old(self).spec_position() + 1
            } else {
                old(self).spec_position()
            }),
    {
        if self.position < self.accesses.len() {
            let access = self.accesses[self.position];
            if !access.is_poll_access() || ready {
                self.position = self.position + 1;
            }
        }
    }

    /// The resolved configuration, once every access has been performed.
    pub fn clocks(&self) -> (r: Option<Clocks>)
        requires
            self.wf(),
        ensures
            r == self.result(),
    {
        if self.position == self.accesses.len() {
            let usb_frequency = if self.config.enable_usb {
                Some(Hertz(USB_HZ))
            } else {
                None
            };
            Some(
                Clocks {
                    cpu_frequency: self.config.cpu_frequency,
                    main_oscillator_frequency: Hertz(MAIN_OSCILLATOR_HZ),
                    usb_frequency,
                },
            )
        } else {
            None
        }
    }
}

/// Frequency of the PLL's current-controlled oscillator for the zero-based
/// multiplier and pre-divider fields: 2 * M * input / N.
pub open spec fn pll_output_hz(msel: u16, nsel: u8, input_hz: int) -> int {
    2 * (msel + 1) * input_hz / (nsel + 1)
}

/// Frequency after a divider programmed with the zero-based field `sel`.
pub open spec fn divided_hz(source_hz: int, sel: u8) -> int {
    source_hz / (sel + 1)
}

/// The program written out access by access.
proof fn lemma_program_expanded(usb: bool)
    ensures
        freeze_program(usb) =~= (if usb {
            seq![
                SysconAccess::EnableMainOscillator,
                SysconAccess::PollOscillatorReady,
                SysconAccess::SelectMainOscillator,
                SysconAccess::ConfigurePll { msel: 11, nsel: 0 },
                SysconAccess::FeedPll(0xAA),
                SysconAccess::FeedPll(0x55),
                SysconAccess::ControlPll { enable: true, connect: false },
                SysconAccess::FeedPll(0xAA),
                SysconAccess::FeedPll(0x55),
                SysconAccess::SetCpuDivider(3),
                SysconAccess::SetUsbDivider(5),
                SysconAccess::SetFlashWaitStates(3),
                SysconAccess::PollPllLock,
                SysconAccess::ControlPll { enable: true, connect: true },
                SysconAccess::FeedPll(0xAA),
                SysconAccess::FeedPll(0x55),
            ]
        } else {
            seq![
                SysconAccess::EnableMainOscillator,
                SysconAccess::PollOscillatorReady,
                SysconAccess::SelectMainOscillator,
                SysconAccess::ConfigurePll { msel: 11, nsel: 0 },
                SysconAccess::FeedPll(0xAA),
                SysconAccess::FeedPll(0x55),
                SysconAccess::ControlPll { enable: true, connect: false },
                SysconAccess::FeedPll(0xAA),
                SysconAccess::FeedPll(0x55),
                SysconAccess::SetCpuDivider(3),
                SysconAccess::SetFlashWaitStates(3),
                SysconAccess::PollPllLock,
                SysconAccess::ControlPll { enable: true, connect: true },
                SysconAccess::FeedPll(0xAA),
                SysconAccess::FeedPll(0x55),
            ]
        }),
{
}

/// Every PLL configuration or control write is followed at once by the feed
/// pair 0xAA then 0x55, and every feed byte belongs to such a pair.
pub proof fn lemma_pll_writes_are_fed(usb: bool)
    ensures
        ({
            let p = freeze_program(usb);
            &&& forall|i: int|
                0 <= i < p.len() && (#[trigger] p[i]).is_pll_write() ==> i + 2 < p.len()
                    && p[i + 1] == SysconAccess::FeedPll(FEED_FIRST) && p[i + 2]
                    == SysconAccess::FeedPll(FEED_SECOND)
            &&& forall|i: int|
                0 <= i < p.len() && (#[trigger] p[i]) is FeedPll ==> (i >= 1 && p[i
                    - 1].is_pll_write() && p[i] == SysconAccess::FeedPll(FEED_FIRST)) || (i
                    >= 2 && p[i - 2].is_pll_write() && p[i] == SysconAccess::FeedPll(
                    FEED_SECOND,
                ))
        }),
{
    lemma_program_expanded(usb);
}

/// A completed freeze sequence yields 72 MHz CPU, 12 MHz oscillator, and
/// 48 MHz USB exactly when USB was requested, however many polls it took.
pub proof fn lemma_resolved_output(seq: FreezeSequence)
    requires
        seq.wf(),
        seq.is_complete(),
    ensures
        seq.result() == Some(
            Clocks {
                cpu_frequency: Hertz(72_000_000),
                main_oscillator_frequency: Hertz(12_000_000),
                usb_frequency: if seq.spec_config().spec_usb_enabled() {
                    Some(Hertz(48_000_000))
                } else {
                    None
                },
            },
        ),
{
}

/// The PLL runs at 288 MHz from the 12 MHz crystal; the CPU divider field
/// written is 3, giving 72 MHz; the USB divider field written is 5, giving
/// 48 MHz, and it is written exactly when USB is requested.
pub proof fn lemma_divider_arithmetic(usb: bool)
    ensures
        ({
            let p = freeze_program(usb);
            &&& p.contains(SysconAccess::ConfigurePll { msel: 11, nsel: 0 })
            &&& pll_output_hz(11, 0, MAIN_OSCILLATOR_HZ as int) == 288_000_000
            &&& forall|i: int| 0 <= i < p.len() && p[i] is SetCpuDivider ==> p[i]
                == SysconAccess::SetCpuDivider(3)
            &&& p.contains(SysconAccess::SetCpuDivider(3))
            &&& divided_hz(288_000_000, 3) == CPU_HZ
            &&& forall|i: int| 0 <= i < p.len() && p[i] is SetUsbDivider ==> usb && p[i]
                == SysconAccess::SetUsbDivider(5)
            &&& usb ==> p.contains(SysconAccess::SetUsbDivider(5))
            &&& divided_hz(288_000_000, 5) == USB_HZ
        }),
{
    lemma_program_expanded(usb);
    let p = freeze_program(usb);
    assert(p[3] == SysconAccess::ConfigurePll { msel: 11, nsel: 0 });
    assert(p[9] == SysconAccess::SetCpuDivider(3));
    if usb {
        assert(p[10] == SysconAccess::SetUsbDivider(5));
    }
}

} // verus!
