//! The clipboard-mediated insertion protocol.
//!
//! An insertion first performs the layout step (two Shift+Return presses
//! that open a blank separator line), then stages the text: it captures
//! the clipboard's current contents, clears the clipboard, writes the
//! text, and reads the clipboard back — up to `VERIFY_ATTEMPTS` times,
//! pausing `VERIFY_PAUSE_MS` between attempts — until the read-back equals
//! the written text.  Only then is the Command+V press posted; pasting
//! before a successful read-back could deliver stale clipboard contents.
//! Exhausting the read-back budget fails the whole insertion.
//!
//! After the paste the captured clipboard is handled by policy: an
//! immediate insertion waits `SETTLE_PAUSE_MS` and restores it; a deferred
//! insertion keeps it, together with the inserted character count, for the
//! host's later accept or reject signal.
//!
//! Inserting empty text is a no-op success: no events are posted and the
//! clipboard is never touched.

use crate::effects::{Action, ActionV, Failure, Reply, ReplyV, Transition, TransitionV};
use crate::keys::{
    cmd_v, cmd_v_press, shift_enter, shift_enter_press, SETTLE_PAUSE_MS, VERIFY_ATTEMPTS,
    VERIFY_PAUSE_MS,
};
use crate::session::{PendingInsert, PendingV};
use vstd::prelude::*;

verus! {

/// When the captured clipboard is written back.
#[derive(Clone, Copy, Debug, PartialEq, Eq, Structural)]
pub enum RestorePolicy {
    /// Restore after the settle delay, within the insertion itself.
    Immediate,
    /// Keep the captured clipboard pending until accept or reject.
    Deferred,
}

/// The insertion machine.  Each state names the action whose reply the
/// machine is waiting for.
pub enum InsertMachine {
    /// First layout press posted.
    LayoutFirst { text: Vec<char>, policy: RestorePolicy },
    /// Second layout press posted.
    LayoutSecond { text: Vec<char>, policy: RestorePolicy },
    /// Clipboard capture read requested.
    Capture { text: Vec<char>, policy: RestorePolicy },
    /// Clipboard clear before the staging write requested.
    StageClear { text: Vec<char>, policy: RestorePolicy, saved: Option<Vec<char>> },
    /// Staging write of the text requested.
    StageWrite { text: Vec<char>, policy: RestorePolicy, saved: Option<Vec<char>> },
    /// A verification read-back requested; `attempts_left` counts it.
    VerifyRead {
        text: Vec<char>,
        policy: RestorePolicy,
        saved: Option<Vec<char>>,
        attempts_left: usize,
    },
    /// Pause between two verification read-backs requested.
    VerifyPause {
        text: Vec<char>,
        policy: RestorePolicy,
        saved: Option<Vec<char>>,
        attempts_left: usize,
    },
    /// The paste press posted.
    Paste { text: Vec<char>, policy: RestorePolicy, saved: Option<Vec<char>> },
    /// Settle pause before the immediate restore requested.
    Settle { saved: Option<Vec<char>> },
    /// Clipboard clear before the restore write requested.
    RestoreClear { saved: Option<Vec<char>> },
    /// Restore write of the captured clipboard requested.
    RestoreWrite,
}

/// How an insertion ended.
pub enum InsertOutcome {
    /// The text was pasted (or was empty).  `staged` carries what a
    /// deferred insertion leaves for accept or reject; it is `None` for an
    /// immediate insertion, whose restore already happened, and for the
    /// empty no-op.
    Completed { staged: Option<PendingInsert> },
    /// The insertion aborted; no later step of the protocol was performed.
    Failed(Failure),
}

/// View of `InsertMachine`.
#[verifier::ext_equal]
pub enum InsertMachineV {
    LayoutFirst { text: Seq<char>, policy: RestorePolicy },
    LayoutSecond { text: Seq<char>, policy: RestorePolicy },
    Capture { text: Seq<char>, policy: RestorePolicy },
    StageClear { text: Seq<char>, policy: RestorePolicy, saved: Option<Seq<char>> },
    StageWrite { text: Seq<char>, policy: RestorePolicy, saved: Option<Seq<char>> },
    VerifyRead {
        text: Seq<char>,
        policy: RestorePolicy,
        saved: Option<Seq<char>>,
        attempts_left: usize,
    },
    VerifyPause {
        text: Seq<char>,
        policy: RestorePolicy,
        saved: Option<Seq<char>>,
        attempts_left: usize,
    },
    Paste { text: Seq<char>, policy: RestorePolicy, saved: Option<Seq<char>> },
    Settle { saved: Option<Seq<char>> },
    RestoreClear { saved: Option<Seq<char>> },
    RestoreWrite,
}

/// View of `InsertOutcome`.
#[verifier::ext_equal]
pub enum InsertOutcomeV {
    Completed { staged: Option<PendingV> },
    Failed(Failure),
}

impl View for InsertMachine {
    type V = InsertMachineV;

    open spec fn view(&self) -> InsertMachineV {
        match self {
            InsertMachine::LayoutFirst { text, policy } => InsertMachineV::LayoutFirst {
                text: text@,
                policy: *policy,
            },
            InsertMachine::LayoutSecond { text, policy } => InsertMachineV::LayoutSecond {
                text: text@,
                policy: *policy,
            },
            InsertMachine::Capture { text, policy } => InsertMachineV::Capture {
                text: text@,
                policy: *policy,
            },
            InsertMachine::StageClear { text, policy, saved } => InsertMachineV::StageClear {
                text: text@,
                policy: *policy,
                saved: crate::effects::clip_view(*saved),
            },
            InsertMachine::StageWrite { text, policy, saved } => InsertMachineV::StageWrite {
                text: text@,
                policy: *policy,
                saved: crate::effects::clip_view(*saved),
            },
            InsertMachine::VerifyRead { text, policy, saved, attempts_left } => {
                InsertMachineV::VerifyRead {
                    text: text@,
                    policy: *policy,
                    saved: crate::effects::clip_view(*saved),
                    attempts_left: *attempts_left,
                }
            },
            InsertMachine::VerifyPause { text, policy, saved, attempts_left } => {
                InsertMachineV::VerifyPause {
                    text: text@,
                    policy: *policy,
                    saved: crate::effects::clip_view(*saved),
                    attempts_left: *attempts_left,
                }
            },
            InsertMachine::Paste { text, policy, saved } => InsertMachineV::Paste {
                text: text@,
                policy: *policy,
                saved: crate::effects::clip_view(*saved),
            },
            InsertMachine::Settle { saved } => InsertMachineV::Settle {
                saved: crate::effects::clip_view(*saved),
            },
            InsertMachine::RestoreClear { saved } => InsertMachineV::RestoreClear {
                saved: crate::effects::clip_view(*saved),
            },
            InsertMachine::RestoreWrite => InsertMachineV::RestoreWrite,
        }
    }
}

impl View for InsertOutcome {
    type V = InsertOutcomeV;

    open spec fn view(&self) -> InsertOutcomeV {
        match self {
            InsertOutcome::Completed { staged } => InsertOutcomeV::Completed {
                staged: match staged {
                    Some(p) => Some(p@),
                    None => None,
                },
            },
            InsertOutcome::Failed(f) => InsertOutcomeV::Failed(*f),
        }
    }
}

/// The first transition of an insertion.
pub open spec fn insert_start_v(text: Seq<char>, policy: RestorePolicy) -> TransitionV<
    InsertMachineV,
    InsertOutcomeV,
> {
    if text.len() == 0 {
        TransitionV::Done(InsertOutcomeV::Completed { staged: None })
    } else {
        TransitionV::Next(
            InsertMachineV::LayoutFirst { text, policy },
            ActionV::PostPress(shift_enter_press()),
        )
    }
}

/// One transition of the insertion machine.  A `Posted(false)` reply, or a
/// reply of the wrong kind for the state, aborts with `Failure::Synthesis`.
pub open spec fn insert_step_v(m: InsertMachineV, r: ReplyV) -> TransitionV<
    InsertMachineV,
    InsertOutcomeV,
> {
    match (m, r) {
        (InsertMachineV::LayoutFirst { text, policy }, ReplyV::Posted(ok)) => {
            if ok {
                TransitionV::Next(
                    InsertMachineV::LayoutSecond { text, policy },
                    ActionV::PostPress(shift_enter_press()),
                )
            } else {
                TransitionV::Done(InsertOutcomeV::Failed(Failure::Synthesis))
            }
        },
        (InsertMachineV::LayoutSecond { text, policy }, ReplyV::Posted(ok)) => {
            if ok {
                TransitionV::Next(
                    InsertMachineV::Capture { text, policy },
                    ActionV::ReadClipboard,
                )
            } else {
                TransitionV::Done(InsertOutcomeV::Failed(Failure::Synthesis))
            }
        },
        (InsertMachineV::Capture { text, policy }, ReplyV::Clipboard(current)) => {
            TransitionV::Next(
                InsertMachineV::StageClear { text, policy, saved: current },
                ActionV::ClearClipboard,
            )
        },
        (InsertMachineV::StageClear { text, policy, saved }, ReplyV::Ack) => {
            TransitionV::Next(
                InsertMachineV::StageWrite { text, policy, saved },
                ActionV::WriteClipboard(text),
            )
        },
        (InsertMachineV::StageWrite { text, policy, saved }, ReplyV::Ack) => {
            TransitionV::Next(
                InsertMachineV::VerifyRead { text, policy, saved, attempts_left: VERIFY_ATTEMPTS },
                ActionV::ReadClipboard,
            )
        },
        (
            InsertMachineV::VerifyRead { text, policy, saved, attempts_left },
            ReplyV::Clipboard(current),
        ) => {
            if current == Some(text) {
                TransitionV::Next(
                    InsertMachineV::Paste { text, policy, saved },
                    ActionV::PostPress(cmd_v_press()),
                )
            } else if attempts_left > 1 {
                TransitionV::Next(
                    InsertMachineV::VerifyPause {
                        text,
                        policy,
                        saved,
                        attempts_left: (attempts_left - 1) as usize,
                    },
                    ActionV::Pause(VERIFY_PAUSE_MS),
                )
            } else {
                TransitionV::Done(InsertOutcomeV::Failed(Failure::VerifyTimeout))
            }
        },
        (InsertMachineV::VerifyPause { text, policy, saved, attempts_left }, ReplyV::Ack) => {
            TransitionV::Next(
                InsertMachineV::VerifyRead { text, policy, saved, attempts_left },
                ActionV::ReadClipboard,
            )
        },
        (InsertMachineV::Paste { text, policy, saved }, ReplyV::Posted(ok)) => {
            if ok {
                match policy {
                    RestorePolicy::Immediate => TransitionV::Next(
                        InsertMachineV::Settle { saved },
                        ActionV::Pause(SETTLE_PAUSE_MS),
                    ),
                    RestorePolicy::Deferred => TransitionV::Done(
                        InsertOutcomeV::Completed {
                            staged: Some(PendingV { saved, chars: text.len() as usize }),
                        },
                    ),
                }
            } else {
                TransitionV::Done(InsertOutcomeV::Failed(Failure::Synthesis))
            }
        },
        (InsertMachineV::Settle { saved }, ReplyV::Ack) => {
            TransitionV::Next(InsertMachineV::RestoreClear { saved }, ActionV::ClearClipboard)
        },
        (InsertMachineV::RestoreClear { saved }, ReplyV::Ack) => {
            match saved {
                Some(s) => TransitionV::Next(
                    InsertMachineV::RestoreWrite,
                    ActionV::WriteClipboard(s),
                ),
                None => TransitionV::Done(InsertOutcomeV::Completed { staged: None }),
            }
        },
        (InsertMachineV::RestoreWrite, ReplyV::Ack) => {
            TransitionV::Done(InsertOutcomeV::Completed { staged: None })
        },
        (_, _) => TransitionV::Done(InsertOutcomeV::Failed(Failure::Synthesis)),
    }
}

/// A measure that every transition of the insertion machine decreases.
pub open spec fn insert_rank(m: InsertMachineV) -> int {
    match m {
        InsertMachineV::LayoutFirst { .. } => 200,
        InsertMachineV::LayoutSecond { .. } => 199,
        InsertMachineV::Capture { .. } => 198,
        InsertMachineV::StageClear { .. } => 197,
        InsertMachineV::StageWrite { .. } => 196,
        InsertMachineV::VerifyRead { attempts_left, .. } => 2 * attempts_left + 40,
        InsertMachineV::VerifyPause { attempts_left, .. } => 2 * attempts_left + 41,
        InsertMachineV::Paste { .. } => 30,
        InsertMachineV::Settle { .. } => 29,
        InsertMachineV::RestoreClear { .. } => 28,
        InsertMachineV::RestoreWrite => 27,
    }
}

/// The measure lifted to transitions; `Done` is the bottom.
pub open spec fn insert_t_rank(t: TransitionV<InsertMachineV, InsertOutcomeV>) -> int {
    match t {
        TransitionV::Next(m, _) => insert_rank(m) + 1,
        TransitionV::Done(_) => 0,
    }
}

/// Begin an insertion of `text` under the given restore policy.
pub fn start_insert(text: Vec<char>, policy: RestorePolicy) -> (t: Transition<
    InsertMachine,
    InsertOutcome,
>)
    ensures
        t@ == insert_start_v(text@, policy),
{
    if text.len() == 0 {
        Transition::Done(InsertOutcome::Completed { staged: None })
    } else {
        Transition::Next(
            InsertMachine::LayoutFirst { text, policy },
            Action::PostPress(shift_enter()),
        )
    }
}

/// Feed the reply of the previous action into the machine.
pub fn step(m: InsertMachine, r: Reply) -> (t: Transition<InsertMachine, InsertOutcome>)
    ensures
        t@ == insert_step_v(m@, r@),
{
    match (m, r) {
        (InsertMachine::LayoutFirst { text, policy }, Reply::Posted(ok)) => {
            if ok {
                Transition::Next(
                    InsertMachine::LayoutSecond { text, policy },
                    Action::PostPress(shift_enter()),
                )
            } else {
                Transition::Done(InsertOutcome::Failed(Failure::Synthesis))
            }
        },
        (InsertMachine::LayoutSecond { text, policy }, Reply::Posted(ok)) => {
            if ok {
                Transition::Next(InsertMachine::Capture { text, policy }, Action::ReadClipboard)
            } else {
                Transition::Done(InsertOutcome::Failed(Failure::Synthesis))
            }
        },
        (InsertMachine::Capture { text, policy }, Reply::Clipboard(current)) => {
            Transition::Next(
                InsertMachine::StageClear { text, policy, saved: current },
                Action::ClearClipboard,
            )
        },
        (InsertMachine::StageClear { text, policy, saved }, Reply::Ack) => {
            let staged_copy = text.clone();
            proof {
                assert(staged_copy@ =~= text@);
            }
            Transition::Next(
                InsertMachine::StageWrite { text, policy, saved },
                Action::WriteClipboard(staged_copy),
            )
        },
        (InsertMachine::StageWrite { text, policy, saved }, Reply::Ack) => {
            Transition::Next(
                InsertMachine::VerifyRead { text, policy, saved, attempts_left: VERIFY_ATTEMPTS },
                Action::ReadClipboard,
            )
        },
        (InsertMachine::VerifyRead { text, policy, saved, attempts_left }, Reply::Clipboard(
            current,
        )) => {
            let matched = match &current {
                Some(v) => vec_chars_eq(v, &text),
                None => false,
            };
            if matched {
                Transition::Next(
                    InsertMachine::Paste { text, policy, saved },
                    Action::PostPress(cmd_v()),
                )
            } else if attempts_left > 1 {
                Transition::Next(
                    InsertMachine::VerifyPause {
                        text,
                        policy,
                        saved,
                        attempts_left: attempts_left - 1,
                    },
                    Action::Pause(VERIFY_PAUSE_MS),
                )
            } else {
                Transition::Done(InsertOutcome::Failed(Failure::VerifyTimeout))
            }
        },
        (InsertMachine::VerifyPause { text, policy, saved, attempts_left }, Reply::Ack) => {
            Transition::Next(
                InsertMachine::VerifyRead { text, policy, saved, attempts_left },
                Action::ReadClipboard,
            )
        },
        (InsertMachine::Paste { text, policy, saved }, Reply::Posted(ok)) => {
            if ok {
                match policy {
                    RestorePolicy::Immediate => Transition::Next(
                        InsertMachine::Settle { saved },
                        Action::Pause(SETTLE_PAUSE_MS),
                    ),
                    RestorePolicy::Deferred => Transition::Done(
                        InsertOutcome::Completed {
                            staged: Some(PendingInsert { saved, chars: text.len() }),
                        },
                    ),
                }
            } else {
                Transition::Done(InsertOutcome::Failed(Failure::Synthesis))
            }
        },
        (InsertMachine::Settle { saved }, Reply::Ack) => {
            Transition::Next(InsertMachine::RestoreClear { saved }, Action::ClearClipboard)
        },
        (InsertMachine::RestoreClear { saved }, Reply::Ack) => {
            match saved {
                Some(s) => Transition::Next(InsertMachine::RestoreWrite, Action::WriteClipboard(s)),
                None => Transition::Done(InsertOutcome::Completed { staged: None }),
            }
        },
        (InsertMachine::RestoreWrite, Reply::Ack) => {
            Transition::Done(InsertOutcome::Completed { staged: None })
        },
        (_, _) => Transition::Done(InsertOutcome::Failed(Failure::Synthesis)),
    }
}

/// Character-wise equality of two texts.
fn vec_chars_eq(a: &Vec<char>, b: &Vec<char>) -> (r: bool)
    ensures
        r == (a@ == b@),
{
    if a.len() != b.len() {
        return false;
    }
    let mut i: usize = 0;
    while i < a.len()
        invariant
            i <= a.len(),
            a.len() == b.len(),
            forall|j: int| 0 <= j < i ==> a@[j] == b@[j],
        decreases a.len() - i,
    {
        if a[i] != b[i] {
            return false;
        }
        i = i + 1;
    }
    proof {
        assert(a@ =~= b@);
    }
    true
}

} // verus!
