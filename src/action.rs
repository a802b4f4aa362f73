//! The hardware actions that the sampling protocol asks for, the replies that
//! answer them, and the order in which they are taken.

use vstd::prelude::*;

verus! {

/// Lowest address of on-chip SRAM; everything below it is flash-mapped (or ROM)
/// and reaches the flash bus.
pub const SRAM_BASE: u32 = 0x2000_0000;

/// Number of DMA channels that can target flash-mapped addresses.
pub const DMA_CHANNEL_COUNT: u32 = 12;

/// Length, in delay-loop cycles, of the wait that lets the chip-select line
/// settle through its pull resistor once its driver is switched off.
pub const SETTLE_CYCLES: u32 = 2000;

/// The two output-enable override states of the chip-select pad that the
/// protocol uses.
#[derive(Clone, Copy, Debug, PartialEq, Eq, Structural)]
pub enum Override {
    /// Output enable is driven by the flash controller.
    Normal,
    /// Output driver is off; the external pull sets the line.
    Disabled,
}

/// One step of work on the hardware, requested by the protocol.
#[derive(Clone, Copy, Debug, PartialEq, Eq, Structural)]
pub enum Action {
    /// The protocol was started on a core other than its home core: fatal.
    Fault,
    /// Halt the other core's scheduler at a safe point.
    PauseOtherCore,
    /// Mask interrupts on this core.
    EnterExclusive,
    /// Read the target address and busy flag of a DMA channel.
    ReadDmaChannel { channel: u32 },
    /// Read the streaming-read outstanding count of the flash controller.
    ReadStreamCount,
    /// Read the flash controller's queue-empty and flush-ready flags.
    ReadXipStatus,
    /// Write the chip-select pad's output-enable override.
    SetOverride { mode: Override },
    /// Spin for the given number of delay-loop cycles.
    Delay { cycles: u32 },
    /// Read the raw input level of the chip-select pad.
    ReadPad,
    /// Unmask interrupts on this core.
    ExitExclusive,
    /// Release the other core's scheduler.
    ResumeOtherCore,
    /// The protocol is over; the button state is `pressed`.
    Finish { pressed: bool },
}

/// What the hardware reported after performing an [`Action`].
#[derive(Clone, Copy, Debug, PartialEq, Eq, Structural)]
pub enum Reply {
    /// The action was carried out and has nothing to report.
    Performed,
    /// Current target address and busy flag of the DMA channel read.
    DmaChannel { read_addr: u32, busy: bool },
    /// Number of streamed flash reads still outstanding.
    StreamCount { outstanding: u32 },
    /// Flash controller status flags.
    XipStatus { fifo_empty: bool, flush_ready: bool },
    /// Raw electrical level of the chip-select pad (`true` = high).
    PadLevel { high: bool },
}

/// A DMA target address that lies in the flash-mapped range.
pub open spec fn targets_flash(addr: u32) -> bool {
    addr < SRAM_BASE
}

/// Whether `r` is the kind of reply that answers `a`. The two final actions,
/// `Fault` and `Finish`, are answered by nothing.
pub open spec fn answers(a: Action, r: Reply) -> bool {
    match a {
        Action::Fault => false,
        Action::Finish { .. } => false,
        Action::ReadDmaChannel { .. } => r is DmaChannel,
        Action::ReadStreamCount => r is StreamCount,
        Action::ReadXipStatus => r is XipStatus,
        Action::ReadPad => r is PadLevel,
        _ => r is Performed,
    }
}

/// The button state after reply `r` to action `a`, where it was `pressed`
/// before: a pad reading sets it to the inverted level (the button pulls the
/// line low), everything else keeps it.
pub open spec fn pressed_after(a: Action, r: Reply, pressed: bool) -> bool {
    match r {
        Reply::PadLevel { high } => if a is ReadPad { !high } else { pressed },
        _ => pressed,
    }
}

/// The action that follows action `a` once it was answered by `r`, with the
/// button state `pressed` as it stands after that reply.
pub open spec fn next_action(a: Action, r: Reply, pressed: bool) -> Action {
    match a {
        Action::PauseOtherCore => Action::EnterExclusive,
        Action::EnterExclusive => Action::ReadDmaChannel { channel: 0 },
        Action::ReadDmaChannel { channel } => match r {
            Reply::DmaChannel { read_addr, busy } => if targets_flash(read_addr) && busy {
                a
            } else if channel + 1 < DMA_CHANNEL_COUNT {
                Action::ReadDmaChannel { channel: (channel + 1) as u32 }
            } else {
                Action::ReadStreamCount
            },
            _ => a,
        },
        Action::ReadStreamCount => match r {
            Reply::StreamCount { outstanding } => if outstanding > 0 {
                a
            } else {
                Action::ReadXipStatus
            },
            _ => a,
        },
        Action::ReadXipStatus => match r {
            Reply::XipStatus { fifo_empty, flush_ready } => if fifo_empty && flush_ready {
                Action::SetOverride { mode: Override::Disabled }
            } else {
                a
            },
            _ => a,
        },
        Action::SetOverride { mode } => match mode {
            Override::Disabled => Action::Delay { cycles: SETTLE_CYCLES },
            Override::Normal => Action::ExitExclusive,
        },
        Action::Delay { .. } => Action::ReadPad,
        Action::ReadPad => Action::SetOverride { mode: Override::Normal },
        Action::ExitExclusive => Action::ResumeOtherCore,
        Action::ResumeOtherCore => Action::Finish { pressed },
        _ => a,
    }
}

/// The actions that poll the hardware until the flash bus is quiet.
pub open spec fn is_wait_read(a: Action) -> bool {
    ||| a is ReadDmaChannel
    ||| a is ReadStreamCount
    ||| a is ReadXipStatus
}

/// The fixed tail of a run, from the moment the flash bus is known to be idle:
/// the `j`-th action after the last wait read, for `0 <= j < 7`.
pub open spec fn closing_at(j: int, pressed: bool) -> Action {
    if j == 0 {
        Action::SetOverride { mode: Override::Disabled }
    } else if j == 1 {
        Action::Delay { cycles: SETTLE_CYCLES }
    } else if j == 2 {
        Action::ReadPad
    } else if j == 3 {
        Action::SetOverride { mode: Override::Normal }
    } else if j == 4 {
        Action::ExitExclusive
    } else if j == 5 {
        Action::ResumeOtherCore
    } else {
        Action::Finish { pressed }
    }
}

/// How many actions of the fixed tail have been issued when `a` is the latest.
pub open spec fn closing_progress(a: Action) -> int {
    match a {
        Action::SetOverride { mode } => match mode {
            Override::Disabled => 1,
            Override::Normal => 4,
        },
        Action::Delay { .. } => 2,
        Action::ReadPad => 3,
        Action::ExitExclusive => 5,
        Action::ResumeOtherCore => 6,
        Action::Finish { .. } => 7,
        _ => 0,
    }
}

/// `a` stands in `s` at index `i` and nowhere else.
pub open spec fn only_at(s: Seq<Action>, a: Action, i: int) -> bool {
    &&& 0 <= i < s.len()
    &&& s[i] == a
    &&& forall|j: int| 0 <= j < s.len() && #[trigger] s[j] == a ==> j == i
}

/// `a` does not stand in `s`.
pub open spec fn absent(s: Seq<Action>, a: Action) -> bool {
    forall|j: int| 0 <= j < s.len() ==> #[trigger] s[j] != a
}

} // verus!
