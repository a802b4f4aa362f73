use bootsel::action::{Action, Override, Reply, DMA_CHANNEL_COUNT, SETTLE_CYCLES, SRAM_BASE};
use bootsel::poll::BootselPoll;

/// A simulated register set: each DMA channel reports a list of
/// (address, busy) pairs, one per read, repeating the last one; the stream
/// counter and the controller status likewise.
struct Sim {
    dma: Vec<Vec<(u32, bool)>>,
    dma_reads: Vec<usize>,
    stream: Vec<u32>,
    stream_reads: usize,
    xip: Vec<(bool, bool)>,
    xip_reads: usize,
    pad_high: bool,
    pad_reads: usize,
    floating: bool,
}

impl Sim {
    fn quiet(pad_high: bool) -> Sim {
        Sim {
            dma: vec![vec![(SRAM_BASE, false)]; DMA_CHANNEL_COUNT as usize],
            dma_reads: vec![0; DMA_CHANNEL_COUNT as usize],
            stream: vec![0],
            stream_reads: 0,
            xip: vec![(true, true)],
            xip_reads: 0,
            pad_high,
            pad_reads: 0,
            floating: false,
        }
    }

    fn reply(&mut self, action: Action) -> Reply {
        match action {
            Action::ReadDmaChannel { channel } => {
                let c = channel as usize;
                let script = &self.dma[c];
                let (read_addr, busy) = script[self.dma_reads[c].min(script.len() - 1)];
                self.dma_reads[c] += 1;
                Reply::DmaChannel { read_addr, busy }
            }
            Action::ReadStreamCount => {
                let outstanding = self.stream[self.stream_reads.min(self.stream.len() - 1)];
                self.stream_reads += 1;
                Reply::StreamCount { outstanding }
            }
            Action::ReadXipStatus => {
                let (fifo_empty, flush_ready) = self.xip[self.xip_reads.min(self.xip.len() - 1)];
                self.xip_reads += 1;
                Reply::XipStatus { fifo_empty, flush_ready }
            }
            Action::ReadPad => {
                assert!(self.floating, "pad read while the line is driven");
                self.pad_reads += 1;
                Reply::PadLevel { high: self.pad_high }
            }
            Action::SetOverride { mode } => {
                self.floating = mode == Override::Disabled;
                Reply::Performed
            }
            _ => Reply::Performed,
        }
    }
}

/// Runs the protocol on `core` against `sim`; returns every action issued.
fn drive(home: u32, core: u32, sim: &mut Sim) -> (BootselPoll, Vec<Action>) {
    let mut run = BootselPoll::new(home);
    let mut action = run.start(core);
    let mut log = vec![action];
    while !matches!(action, Action::Fault | Action::Finish { .. }) {
        let reply = sim.reply(action);
        assert!(run.accepts(&reply));
        action = run.step(reply);
        log.push(action);
        assert!(log.len() < 10_000, "run does not end");
    }
    (run, log)
}

fn count(log: &[Action], a: Action) -> usize {
    log.iter().filter(|x| **x == a).count()
}

fn position(log: &[Action], a: Action) -> usize {
    log.iter().position(|x| *x == a).unwrap()
}

#[test]
fn pad_low_reads_pressed() {
    let mut sim = Sim::quiet(false);
    let (run, log) = drive(0, 0, &mut sim);
    assert_eq!(log.last(), Some(&Action::Finish { pressed: true }));
    assert_eq!(run.outcome(), Some(true));
    assert_eq!(sim.pad_reads, 1);
}

#[test]
fn pad_high_reads_released() {
    let mut sim = Sim::quiet(true);
    let (run, log) = drive(0, 0, &mut sim);
    assert_eq!(log.last(), Some(&Action::Finish { pressed: false }));
    assert_eq!(run.outcome(), Some(false));
}

#[test]
fn other_core_paused_and_resumed_once() {
    for high in [false, true] {
        let mut sim = Sim::quiet(high);
        let (_, log) = drive(0, 0, &mut sim);
        assert_eq!(count(&log, Action::PauseOtherCore), 1);
        assert_eq!(count(&log, Action::ResumeOtherCore), 1);
        assert_eq!(log[0], Action::PauseOtherCore);
        assert_eq!(log[log.len() - 2], Action::ResumeOtherCore);
        assert!(position(&log, Action::ExitExclusive) < position(&log, Action::ResumeOtherCore));
    }
}

#[test]
fn override_ends_normal() {
    for high in [false, true] {
        let mut sim = Sim::quiet(high);
        let (_, log) = drive(0, 0, &mut sim);
        let off = Action::SetOverride { mode: Override::Disabled };
        let on = Action::SetOverride { mode: Override::Normal };
        assert_eq!(count(&log, off), 1);
        assert_eq!(count(&log, on), 1);
        assert!(position(&log, off) < position(&log, Action::ReadPad));
        assert!(position(&log, Action::ReadPad) < position(&log, on));
        assert!(position(&log, on) < position(&log, Action::ExitExclusive));
        assert!(!sim.floating);
    }
}

#[test]
fn full_protocol_order() {
    let mut sim = Sim::quiet(false);
    let (_, log) = drive(0, 0, &mut sim);
    let mut expected = vec![Action::PauseOtherCore, Action::EnterExclusive];
    for channel in 0..DMA_CHANNEL_COUNT {
        expected.push(Action::ReadDmaChannel { channel });
    }
    expected.extend([
        Action::ReadStreamCount,
        Action::ReadXipStatus,
        Action::SetOverride { mode: Override::Disabled },
        Action::Delay { cycles: SETTLE_CYCLES },
        Action::ReadPad,
        Action::SetOverride { mode: Override::Normal },
        Action::ExitExclusive,
        Action::ResumeOtherCore,
        Action::Finish { pressed: true },
    ]);
    assert_eq!(log, expected);
}

#[test]
fn settle_delay_is_two_thousand_cycles() {
    let mut sim = Sim::quiet(true);
    let (_, log) = drive(0, 0, &mut sim);
    assert!(log.contains(&Action::Delay { cycles: 2000 }));
}

#[test]
fn busy_dma_in_flash_holds_channel_until_busy_clears() {
    let mut sim = Sim::quiet(false);
    sim.dma[3] = vec![(0x1000_0100, true), (0x1000_0200, true), (0x1000_0300, true), (0x1000_0300, false)];
    let (_, log) = drive(0, 0, &mut sim);
    assert_eq!(count(&log, Action::ReadDmaChannel { channel: 3 }), 4);
    assert_eq!(sim.dma_reads[3], 4);
    let last3 = log.iter().rposition(|a| *a == Action::ReadDmaChannel { channel: 3 }).unwrap();
    assert!(position(&log, Action::ReadDmaChannel { channel: 4 }) > last3);
    assert_eq!(log.last(), Some(&Action::Finish { pressed: true }));
}

#[test]
fn busy_dma_leaving_flash_releases_channel() {
    let mut sim = Sim::quiet(false);
    sim.dma[0] = vec![(0x1000_0000, true), (0x2000_0040, true)];
    let (_, log) = drive(0, 0, &mut sim);
    assert_eq!(count(&log, Action::ReadDmaChannel { channel: 0 }), 2);
    assert_eq!(log.last(), Some(&Action::Finish { pressed: true }));
}

#[test]
fn single_step_dma_decisions() {
    let fresh = || {
        let mut run = BootselPoll::new(0);
        run.start(0);
        run.step(Reply::Performed);
        assert_eq!(run.step(Reply::Performed), Action::ReadDmaChannel { channel: 0 });
        run
    };
    let mut run = fresh();
    assert_eq!(run.step(Reply::DmaChannel { read_addr: SRAM_BASE - 1, busy: true }), Action::ReadDmaChannel { channel: 0 });
    let mut run = fresh();
    assert_eq!(run.step(Reply::DmaChannel { read_addr: SRAM_BASE, busy: true }), Action::ReadDmaChannel { channel: 1 });
    let mut run = fresh();
    assert_eq!(run.step(Reply::DmaChannel { read_addr: 0, busy: false }), Action::ReadDmaChannel { channel: 1 });
}

#[test]
fn last_channel_leads_to_stream_count() {
    let mut sim = Sim::quiet(false);
    let (_, log) = drive(0, 0, &mut sim);
    let last = position(&log, Action::ReadDmaChannel { channel: DMA_CHANNEL_COUNT - 1 });
    assert_eq!(log[last + 1], Action::ReadStreamCount);
    assert!(!log.contains(&Action::ReadDmaChannel { channel: DMA_CHANNEL_COUNT }));
}

#[test]
fn stream_reads_waited_out() {
    let mut sim = Sim::quiet(true);
    sim.stream = vec![5, 3, 1, 0];
    let (_, log) = drive(0, 0, &mut sim);
    assert_eq!(count(&log, Action::ReadStreamCount), 4);
    assert_eq!(log.last(), Some(&Action::Finish { pressed: false }));
}

#[test]
fn controller_idle_waited_out() {
    let mut sim = Sim::quiet(false);
    sim.xip = vec![(false, true), (true, false), (false, false), (true, true)];
    let (_, log) = drive(0, 0, &mut sim);
    assert_eq!(count(&log, Action::ReadXipStatus), 4);
    assert!(position(&log, Action::SetOverride { mode: Override::Disabled }) > position(&log, Action::ReadXipStatus));
}

#[test]
fn wrong_core_faults_before_window() {
    let mut sim = Sim::quiet(false);
    let (run, log) = drive(0, 1, &mut sim);
    assert_eq!(log, vec![Action::Fault]);
    assert_eq!(run.outcome(), None);
    assert_eq!(sim.pad_reads, 0);
    assert!(!run.accepts(&Reply::Performed));
    assert!(!run.accepts(&Reply::PadLevel { high: false }));
}

#[test]
fn home_core_is_configurable() {
    let mut sim = Sim::quiet(false);
    let (run, log) = drive(1, 1, &mut sim);
    assert_eq!(run.home_core_id(), 1);
    assert_eq!(log.last(), Some(&Action::Finish { pressed: true }));
    let (_, log) = drive(1, 0, &mut Sim::quiet(false));
    assert_eq!(log, vec![Action::Fault]);
}

#[test]
fn repeated_polls_agree_on_stable_input() {
    for high in [false, true] {
        let mut sim = Sim::quiet(high);
        let (_, first) = drive(0, 0, &mut sim);
        let (_, second) = drive(0, 0, &mut sim);
        assert_eq!(first, second);
        assert_eq!(sim.pad_reads, 2);
        assert_eq!(first.last(), Some(&Action::Finish { pressed: !high }));
    }
}

#[test]
fn replies_checked_against_pending_action() {
    let mut run = BootselPoll::new(0);
    assert!(!run.accepts(&Reply::Performed));
    assert_eq!(run.outcome(), None);
    run.start(0);
    assert!(run.accepts(&Reply::Performed));
    assert!(!run.accepts(&Reply::StreamCount { outstanding: 0 }));
    run.step(Reply::Performed);
    run.step(Reply::Performed);
    assert!(run.accepts(&Reply::DmaChannel { read_addr: 0, busy: false }));
    assert!(!run.accepts(&Reply::Performed));
    assert!(!run.accepts(&Reply::XipStatus { fifo_empty: true, flush_ready: true }));
}
