use lpc176x5x_hal::clocks::{feed_pll0, FreezeSequence, SysconAccess};
use lpc176x5x_hal::{ClockConfig, Clocks, Hertz};

/// A simulated system-control block: the oscillator reports ready on the
/// `osc_ready_on`-th status read, the PLL reports lock on the
/// `pll_lock_on`-th status read. Every access is logged.
struct SimSyscon {
    osc_ready_on: u32,
    pll_lock_on: u32,
    osc_reads: u32,
    pll_reads: u32,
    log: Vec<SysconAccess>,
}

impl SimSyscon {
    fn new(osc_ready_on: u32, pll_lock_on: u32) -> Self {
        SimSyscon { osc_ready_on, pll_lock_on, osc_reads: 0, pll_reads: 0, log: Vec::new() }
    }

    fn perform(&mut self, access: SysconAccess) -> bool {
        self.log.push(access);
        match access {
            SysconAccess::PollOscillatorReady => {
                self.osc_reads += 1;
                self.osc_reads >= self.osc_ready_on
            }
            SysconAccess::PollPllLock => {
                self.pll_reads += 1;
                self.pll_reads >= self.pll_lock_on
            }
            _ => false,
        }
    }
}

fn run(config: ClockConfig, sim: &mut SimSyscon) -> Clocks {
    let mut seq: FreezeSequence = config.start_freeze();
    assert_eq!(seq.clocks(), None);
    while let Some(access) = seq.next_access() {
        let ready = sim.perform(access);
        seq.advance(ready);
    }
    seq.clocks().unwrap()
}

fn feed_pairs(log: &[SysconAccess]) -> usize {
    log.windows(2)
        .filter(|w| w[0] == SysconAccess::FeedPll(0xAA) && w[1] == SysconAccess::FeedPll(0x55))
        .count()
}

#[test]
fn new_config_is_72_mhz_without_usb() {
    let c = ClockConfig::new();
    assert_eq!(c.cpu_frequency(), Hertz(72_000_000));
    assert!(!c.usb_enabled());
    let c = c.enable_usb();
    assert!(c.usb_enabled());
    assert_eq!(c.cpu_frequency(), Hertz(72_000_000));
}

#[test]
fn freeze_cpu_only_scenario() {
    let mut sim = SimSyscon::new(3, 5);
    let clocks = run(ClockConfig::new(), &mut sim);
    assert_eq!(
        clocks,
        Clocks {
            cpu_frequency: Hertz(72_000_000),
            main_oscillator_frequency: Hertz(12_000_000),
            usb_frequency: None,
        }
    );
    assert_eq!(sim.osc_reads, 3);
    assert_eq!(sim.pll_reads, 5);
    assert_eq!(feed_pairs(&sim.log), 3);
    let feeds = sim.log.iter().filter(|a| matches!(a, SysconAccess::FeedPll(_))).count();
    assert_eq!(feeds, 6);
    assert!(!sim.log.iter().any(|a| matches!(a, SysconAccess::SetUsbDivider(_))));
}

#[test]
fn freeze_with_usb_reports_48_mhz() {
    let mut sim = SimSyscon::new(1, 1);
    let clocks = run(ClockConfig::new().enable_usb(), &mut sim);
    assert_eq!(clocks.cpu_frequency, Hertz(72_000_000));
    assert_eq!(clocks.main_oscillator_frequency, Hertz(12_000_000));
    assert_eq!(clocks.usb_frequency, Some(Hertz(48_000_000)));
    assert_eq!(feed_pairs(&sim.log), 3);
}

#[test]
fn resolved_output_does_not_depend_on_poll_counts() {
    for usb in [false, true] {
        let mut results = Vec::new();
        for (osc, pll) in [(1, 1), (3, 5), (10, 2), (40, 70)] {
            let mut config = ClockConfig::new();
            if usb {
                config = config.enable_usb();
            }
            let mut sim = SimSyscon::new(osc, pll);
            results.push(run(config, &mut sim));
        }
        for r in &results {
            assert_eq!(*r, results[0]);
        }
        assert_eq!(results[0].usb_frequency.is_some(), usb);
    }
}

#[test]
fn every_pll_write_is_followed_by_feed_pair() {
    for usb in [false, true] {
        let mut config = ClockConfig::new();
        if usb {
            config = config.enable_usb();
        }
        let mut sim = SimSyscon::new(2, 4);
        run(config, &mut sim);
        let log = &sim.log;
        let mut pll_writes = 0;
        for (i, a) in log.iter().enumerate() {
            if matches!(a, SysconAccess::ConfigurePll { .. } | SysconAccess::ControlPll { .. }) {
                pll_writes += 1;
                assert_eq!(log[i + 1], SysconAccess::FeedPll(0xAA));
                assert_eq!(log[i + 2], SysconAccess::FeedPll(0x55));
            }
        }
        assert_eq!(pll_writes, 3);
    }
}

#[test]
fn register_values_written() {
    let mut sim = SimSyscon::new(1, 1);
    run(ClockConfig::new().enable_usb(), &mut sim);
    let log = &sim.log;
    assert!(log.contains(&SysconAccess::ConfigurePll { msel: 11, nsel: 0 }));
    assert!(log.contains(&SysconAccess::SetCpuDivider(3)));
    assert!(log.contains(&SysconAccess::SetUsbDivider(5)));
    assert!(log.contains(&SysconAccess::SetFlashWaitStates(3)));
    let connect = log
        .iter()
        .position(|a| *a == SysconAccess::ControlPll { enable: true, connect: true })
        .unwrap();
    let lock = log.iter().rposition(|a| *a == SysconAccess::PollPllLock).unwrap();
    assert!(lock < connect);
    let first = log.iter().position(|a| *a == SysconAccess::ConfigurePll { msel: 11, nsel: 0 });
    let select = log.iter().position(|a| *a == SysconAccess::SelectMainOscillator);
    assert!(select < first);
    assert_eq!(log[0], SysconAccess::EnableMainOscillator);
}

#[test]
fn clocks_absent_until_complete() {
    let mut seq = ClockConfig::new().start_freeze();
    assert_eq!(seq.next_access(), Some(SysconAccess::EnableMainOscillator));
    seq.advance(false);
    assert_eq!(seq.next_access(), Some(SysconAccess::PollOscillatorReady));
    seq.advance(false);
    assert_eq!(seq.next_access(), Some(SysconAccess::PollOscillatorReady));
    assert_eq!(seq.clocks(), None);
    seq.advance(true);
    assert_eq!(seq.next_access(), Some(SysconAccess::SelectMainOscillator));
}

#[test]
fn feed_pll0_writes_aa_then_55_only() {
    assert_eq!(feed_pll0(), vec![SysconAccess::FeedPll(0xAA), SysconAccess::FeedPll(0x55)]);
}
