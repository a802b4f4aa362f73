//! The button-sampling protocol as a state machine over hardware actions.

use vstd::prelude::*;
use crate::action::{
    Action, Override, Reply, DMA_CHANNEL_COUNT, SETTLE_CYCLES, SRAM_BASE,
    absent, answers, closing_at, closing_progress, is_wait_read, next_action, only_at,
    pressed_after, targets_flash,
};

verus! {

/// One run of the protocol that samples the button multiplexed onto the flash
/// chip-select line.
///
/// A run is made for one call: it starts on the core it was made for, pauses
/// the other core, masks interrupts, waits for every flash consumer to go
/// quiet, floats the chip-select line, samples it, drives it again, unmasks
/// interrupts, resumes the other core and finishes with the button state.
pub struct BootselPoll {
    home_core: u32,
    pending: Option<Action>,
    pressed: bool,
    actions: Ghost<Seq<Action>>,
    replies: Ghost<Seq<Reply>>,
}

impl BootselPoll {
    /// The core identifier the run must start on.
    pub closed spec fn home_core(&self) -> u32 {
        self.home_core
    }

    /// The latest action issued, awaiting its reply; `None` before the start.
    pub closed spec fn pending(&self) -> Option<Action> {
        self.pending
    }

    /// The button state as last sampled (`false` before the pad was read).
    pub closed spec fn pressed(&self) -> bool {
        self.pressed
    }

    /// Every action issued so far, in order.
    pub closed spec fn actions(&self) -> Seq<Action> {
        self.actions@
    }

    /// Every reply received so far, in order; reply `i` answers action `i`.
    pub closed spec fn replies(&self) -> Seq<Reply> {
        self.replies@
    }

    /// The run has not been started yet.
    pub open spec fn is_ready(&self) -> bool {
        self.pending() is None
    }

    /// The run ended on the fatal path.
    pub open spec fn is_faulted(&self) -> bool {
        self.pending() == Some(Action::Fault)
    }

    /// The run ended with a button state.
    pub open spec fn is_finished(&self) -> bool {
        self.pending() matches Some(Action::Finish { .. })
    }

    /// The button state the run finished with, if it finished.
    pub open spec fn result(&self) -> Option<bool> {
        match self.pending() {
            Some(Action::Finish { pressed }) => Some(pressed),
            _ => None,
        }
    }

    /// Some pad read of the run was answered with the level `high`.
    pub open spec fn saw_pad_level(&self, high: bool) -> bool {
        exists|k: int|
            0 <= k < self.replies().len() && #[trigger] self.actions()[k] == Action::ReadPad
                && self.replies()[k] == Reply::PadLevel { high }
    }

    /// `r` is a reply that the run can take now.
    pub open spec fn awaits(&self, r: Reply) -> bool {
        self.pending() matches Some(a) && answers(a, r)
    }

    /// The logs agree with the pending action and follow the protocol's shape:
    /// pause, enter the exclusive section, wait reads, then the fixed tail.
    /// It holds of every run made by `new` and advanced by `start` and `step`.
    pub closed spec fn wf(&self) -> bool {
        let acts = self.actions@;
        let reps = self.replies@;
        match self.pending {
            None => acts.len() == 0 && reps.len() == 0,
            Some(a) => {
                let n = acts.len() as int;
                let k = closing_progress(a);
                &&& n == reps.len() + 1
                &&& acts[n - 1] == a
                &&& if a is Fault {
                    n == 1
                } else if a is PauseOtherCore {
                    n == 1
                } else {
                    &&& n >= 2 + k
                    &&& acts[0] == Action::PauseOtherCore
                    &&& acts[1] == Action::EnterExclusive
                    &&& forall|i: int| 2 <= i < n - k ==> is_wait_read(#[trigger] acts[i])
                    &&& forall|i: int|
                        n - k <= i < n ==> #[trigger] acts[i] == closing_at(i - (n - k), self.pressed)
                    &&& (a matches Action::ReadDmaChannel { channel } ==> channel < DMA_CHANNEL_COUNT)
                    &&& (k >= 4 ==> reps[n - k + 2] == Reply::PadLevel { high: !self.pressed })
                }
            },
        }
    }

    /// A run that has not started, for the core `home_core`.
    pub fn new(home_core: u32) -> (r: Self)
        ensures
            r.wf(),
            r.is_ready(),
            r.home_core() == home_core,
            r.actions() == Seq::<Action>::empty(),
            r.replies() == Seq::<Reply>::empty(),
    {
        BootselPoll {
            home_core,
            pending: None,
            pressed: false,
            actions: Ghost(Seq::empty()),
            replies: Ghost(Seq::empty()),
        }
    }

    /// The core identifier the run must start on.
    pub fn home_core_id(&self) -> (r: u32)
        ensures
            r == self.home_core(),
    {
        self.home_core
    }

    /// The button state the run finished with, or `None` while it has not
    /// finished (or has faulted).
    pub fn outcome(&self) -> (r: Option<bool>)
        ensures
            r == self.result(),
    {
        match self.pending {
            Some(Action::Finish { pressed }) => Some(pressed),
            _ => None,
        }
    }

    /// Whether `reply` can be taken now: it is of the kind that answers the
    /// pending action.
    pub fn accepts(&self, reply: &Reply) -> (r: bool)
        ensures
            r == self.awaits(*reply),
    {
        match self.pending {
            None => false,
            Some(a) => match a {
                Action::Fault => false,
                Action::Finish { .. } => false,
                Action::ReadDmaChannel { .. } => matches!(reply, Reply::DmaChannel { .. }),
                Action::ReadStreamCount => matches!(reply, Reply::StreamCount { .. }),
                Action::ReadXipStatus => matches!(reply, Reply::XipStatus { .. }),
                Action::ReadPad => matches!(reply, Reply::PadLevel { .. }),
                _ => matches!(reply, Reply::Performed),
            },
        }
    }

    /// Starts the run on the core `core_id`. On the home core the first action
    /// pauses the other core; on any other core the run faults at once and
    /// issues nothing else.
    pub fn start(&mut self, core_id: u32) -> (action: Action)
        requires
            old(self).wf(),
            old(self).is_ready(),
        ensures
            final(self).wf(),
            action == (if core_id == old(self).home_core() {
                Action::PauseOtherCore
            } else {
                Action::Fault
            }),
            final(self).pending() == Some(action),
            final(self).home_core() == old(self).home_core(),
            final(self).pressed() == old(self).pressed(),
            final(self).actions() == old(self).actions().push(action),
            final(self).replies() == old(self).replies(),
    {
        let action = if core_id == self.home_core {
            Action::PauseOtherCore
        } else {
            Action::Fault
        };
        self.pending = Some(action);
        self.actions = Ghost(self.actions@.push(action));
        action
    }

    /// Takes the reply to the pending action and issues the next action.
    ///
    /// While waiting for quiet, a DMA channel whose target address is
    /// flash-mapped and that is busy is read again; any other channel lets the
    /// wait move to the next one (or, after the last, to the streaming-read
    /// count). The count is read again until it is zero, then the flash
    /// controller status until its queue is empty and it is ready to flush.
    /// After that comes the fixed tail: float the line, settle, read the pad,
    /// drive the line again, unmask interrupts, resume the other core, finish.
    /// A pad reading gives the button state inverted, the button pulling the
    /// line low.
    #[inline(always)]
    pub fn step(&mut self, reply: Reply) -> (action: Action)
        requires
            old(self).wf(),
            old(self).awaits(reply),
        ensures
            final(self).wf(),
            final(self).pressed() == pressed_after(old(self).pending()->0, reply, old(self).pressed()),
            action == next_action(old(self).pending()->0, reply, final(self).pressed()),
            final(self).pending() == Some(action),
            final(self).home_core() == old(self).home_core(),
            final(self).actions() == old(self).actions().push(action),
            final(self).replies() == old(self).replies().push(reply),
            old(self).pending() matches Some(Action::ReadDmaChannel { channel })
                ==> (reply matches Reply::DmaChannel { read_addr, busy }
                ==> (action == Action::ReadDmaChannel { channel } <==> targets_flash(read_addr) && busy)),
    {
        let current = match self.pending {
            Some(a) => a,
            None => Action::Fault,
        };
        let action = match current {
            Action::PauseOtherCore => Action::EnterExclusive,
            Action::EnterExclusive => Action::ReadDmaChannel { channel: 0 },
            Action::ReadDmaChannel { channel } => match reply {
                Reply::DmaChannel { read_addr, busy } => {
                    if read_addr < SRAM_BASE && busy {
                        current
                    } else if channel + 1 < DMA_CHANNEL_COUNT {
                        Action::ReadDmaChannel { channel: channel + 1 }
                    } else {
                        Action::ReadStreamCount
                    }
                },
                _ => current,
            },
            Action::ReadStreamCount => match reply {
                Reply::StreamCount { outstanding } => {
                    if outstanding > 0 {
                        current
                    } else {
                        Action::ReadXipStatus
                    }
                },
                _ => current,
            },
            Action::ReadXipStatus => match reply {
                Reply::XipStatus { fifo_empty, flush_ready } => {
                    if fifo_empty && flush_ready {
                        Action::SetOverride { mode: Override::Disabled }
                    } else {
                        current
                    }
                },
                _ => current,
            },
            Action::SetOverride { mode } => match mode {
                Override::Disabled => Action::Delay { cycles: SETTLE_CYCLES },
                Override::Normal => Action::ExitExclusive,
            },
            Action::Delay { .. } => Action::ReadPad,
            Action::ReadPad => {
                if let Reply::PadLevel { high } = reply {
                    self.pressed = !high;
                }
                Action::SetOverride { mode: Override::Normal }
            },
            Action::ExitExclusive => Action::ResumeOtherCore,
            Action::ResumeOtherCore => Action::Finish { pressed: self.pressed },
            _ => current,
        };
        self.pending = Some(action);
        self.actions = Ghost(self.actions@.push(action));
        self.replies = Ghost(self.replies@.push(reply));
        action
    }
}

/// The other core is paused at most once and resumed at most once, and only
/// after it was paused. A run that faulted did neither; a run that finished did
/// both, and the resume is the last action before the result is handed back.
pub proof fn lemma_other_core_paused_and_resumed(m: BootselPoll)
    requires
        m.wf(),
    ensures
        m.is_faulted() ==> absent(m.actions(), Action::PauseOtherCore) && absent(
            m.actions(),
            Action::ResumeOtherCore,
        ),
        m.actions().len() > 0 && !m.is_faulted() ==> only_at(m.actions(), Action::PauseOtherCore, 0),
        !m.is_finished() && m.pending() != Some(Action::ResumeOtherCore) ==> absent(
            m.actions(),
            Action::ResumeOtherCore,
        ),
        m.pending() == Some(Action::ResumeOtherCore) ==> only_at(
            m.actions(),
            Action::ResumeOtherCore,
            m.actions().len() - 1,
        ),
        m.is_finished() ==> only_at(m.actions(), Action::ResumeOtherCore, m.actions().len() - 2),
{
    let acts = m.actions();
    let n = acts.len() as int;
    if m.pending() is Some {
        let k = closing_progress(m.pending()->0);
        assert forall|j: int| 0 <= j < n && #[trigger] acts[j] == Action::ResumeOtherCore implies j
            == n - 1 && m.pending() == Some(Action::ResumeOtherCore) || j == n - 2
            && m.is_finished() by {
            if n - k <= j {
                assert(acts[j] == closing_at(j - (n - k), m.pressed()));
            }
        }
    }
}

/// The chip-select override never stays floating past the end of a run: a
/// run that finished switched it off once and back to normal once, three
/// actions later and before leaving the exclusive section, whatever level it
/// sampled. A run that faulted never touched it.
pub proof fn lemma_override_restored(m: BootselPoll)
    requires
        m.wf(),
    ensures
        m.is_finished() ==> only_at(
            m.actions(),
            Action::SetOverride { mode: Override::Disabled },
            m.actions().len() - 7,
        ),
        m.is_finished() ==> only_at(
            m.actions(),
            Action::SetOverride { mode: Override::Normal },
            m.actions().len() - 4,
        ),
        m.is_finished() ==> m.actions()[m.actions().len() - 3] == Action::ExitExclusive,
        m.is_faulted() ==> absent(m.actions(), Action::SetOverride { mode: Override::Disabled })
            && absent(m.actions(), Action::SetOverride { mode: Override::Normal }),
{
    let acts = m.actions();
    let n = acts.len() as int;
    if m.is_finished() {
        assert(acts[n - 7] == closing_at(0, m.pressed()));
        assert(acts[n - 4] == closing_at(3, m.pressed()));
        assert(acts[n - 3] == closing_at(4, m.pressed()));
        assert forall|j: int| 0 <= j < n && #[trigger] acts[j] == Action::SetOverride { mode: Override::Disabled } implies j == n - 7 by {
            if n - 7 <= j {
                assert(acts[j] == closing_at(j - (n - 7), m.pressed()));
            }
        }
        assert forall|j: int| 0 <= j < n && #[trigger] acts[j] == Action::SetOverride { mode: Override::Normal } implies j == n - 4 by {
            if n - 7 <= j {
                assert(acts[j] == closing_at(j - (n - 7), m.pressed()));
            }
        }
    }
}

/// The result is the inverted pad level: a run that finished read the pad
/// exactly once, and it finished pressed if that read saw the line low and
/// released if it saw the line high.
pub proof fn lemma_result_inverts_pad(m: BootselPoll)
    requires
        m.wf(),
        m.is_finished(),
    ensures
        only_at(m.actions(), Action::ReadPad, m.actions().len() - 5),
        m.saw_pad_level(false) ==> m.result() == Some(true),
        m.saw_pad_level(true) ==> m.result() == Some(false),
{
    let acts = m.actions();
    let n = acts.len() as int;
    assert(acts[n - 5] == closing_at(2, m.pressed()));
    assert forall|j: int| 0 <= j < n && #[trigger] acts[j] == Action::ReadPad implies j == n - 5 by {
        if n - 7 <= j {
            assert(acts[j] == closing_at(j - (n - 7), m.pressed()));
        }
    }
    assert(acts[n - 1] == closing_at(6, m.pressed()));
}

/// A run that starts off its home core faults and goes no further: it issues
/// nothing but the fault, in particular never floats the line or reads the
/// pad, and takes no reply.
pub proof fn lemma_wrong_core_never_samples(m: BootselPoll)
    requires
        m.wf(),
        m.actions().len() > 0,
        m.actions()[0] == Action::Fault,
    ensures
        m.is_faulted(),
        m.actions() == seq![Action::Fault],
        absent(m.actions(), Action::SetOverride { mode: Override::Disabled }),
        absent(m.actions(), Action::ReadPad),
        forall|r: Reply| !m.awaits(r),
{
    assert(m.actions() =~= seq![Action::Fault]);
}

/// Two finished runs whose pad reads saw the same level give the same result,
/// each having gone through the whole protocol: pause, exclusive section, wait
/// reads, and the same fixed tail.
pub proof fn lemma_stable_input_same_result(a: BootselPoll, b: BootselPoll, high: bool)
    requires
        a.wf(),
        b.wf(),
        a.is_finished(),
        b.is_finished(),
        a.saw_pad_level(high),
        b.saw_pad_level(high),
    ensures
        a.result() == b.result(),
        a.result() == Some(!high),
        a.actions()[0] == Action::PauseOtherCore && a.actions()[1] == Action::EnterExclusive,
        b.actions()[0] == Action::PauseOtherCore && b.actions()[1] == Action::EnterExclusive,
        a.actions().subrange(a.actions().len() - 7, a.actions().len() as int) == b.actions().subrange(
            b.actions().len() - 7,
            b.actions().len() as int,
        ),
{
    lemma_result_inverts_pad(a);
    lemma_result_inverts_pad(b);
    let sa = a.actions().subrange(a.actions().len() - 7, a.actions().len() as int);
    let sb = b.actions().subrange(b.actions().len() - 7, b.actions().len() as int);
    assert forall|j: int| 0 <= j < 7 implies sa[j] == closing_at(j, !high) && sb[j] == closing_at(j, !high) by {
        assert(a.actions()[a.actions().len() - 7 + j] == closing_at(j, a.pressed()));
        assert(b.actions()[b.actions().len() - 7 + j] == closing_at(j, b.pressed()));
    }
    assert(sa =~= sb);
}

} // verus!
