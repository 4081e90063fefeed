//! Resolving a deferred insertion on the host's accept or reject signal.
//!
//! Accepting keeps the pasted text and only restores the clipboard that
//! the insertion captured.  Rejecting first retracts the ghost text with
//! Delete presses — one per inserted character, plus two for the layout
//! line breaks — and then restores the captured clipboard.  With nothing
//! pending, either signal is a no-op success.

use crate::effects::{Action, ActionV, Failure, Reply, ReplyV, Transition, TransitionV};
use crate::keys::{backspace, backspace_press};
use crate::session::PendingInsert;
use vstd::prelude::*;

verus! {

/// The host's verdict on the pending ghost text.
#[derive(Clone, Copy, Debug, PartialEq, Eq, Structural)]
pub enum Decision {
    /// Keep the inserted text in the target application.
    Accept,
    /// Retract the inserted text with Delete presses.
    Reject,
}

/// The resolution machine.  Each state names the action whose reply the
/// machine is waiting for.
pub enum ResolveMachine {
    /// Delete press for the first layout line break posted.
    LayoutBackFirst { saved: Option<Vec<char>>, chars: usize },
    /// Delete press for the second layout line break posted.
    LayoutBackSecond { saved: Option<Vec<char>>, chars: usize },
    /// Delete press for one inserted character posted; `left` more follow.
    TextBack { saved: Option<Vec<char>>, left: usize },
    /// Clipboard clear before the restore write requested.
    RestoreClear { saved: Option<Vec<char>> },
    /// Restore write of the captured clipboard requested.
    RestoreWrite,
}

/// How a resolution ended.
#[derive(Clone, Copy, Debug, PartialEq, Eq, Structural)]
pub enum ResolveOutcome {
    /// The clipboard holds the captured snapshot again (and, for a
    /// rejection, every retraction press was posted).
    Completed,
    /// A press failed; the remaining presses and the restore were not
    /// attempted.
    Failed(Failure),
}

/// View of `ResolveMachine`.
#[verifier::ext_equal]
pub enum ResolveMachineV {
    LayoutBackFirst { saved: Option<Seq<char>>, chars: usize },
    LayoutBackSecond { saved: Option<Seq<char>>, chars: usize },
    TextBack { saved: Option<Seq<char>>, left: usize },
    RestoreClear { saved: Option<Seq<char>> },
    RestoreWrite,
}

impl View for ResolveMachine {
    type V = ResolveMachineV;

    open spec fn view(&self) -> ResolveMachineV {
        match self {
            ResolveMachine::LayoutBackFirst { saved, chars } => ResolveMachineV::LayoutBackFirst {
                saved: crate::effects::clip_view(*saved),
                chars: *chars,
            },
            ResolveMachine::LayoutBackSecond { saved, chars } => {
                ResolveMachineV::LayoutBackSecond {
                    saved: crate::effects::clip_view(*saved),
                    chars: *chars,
                }
            },
            ResolveMachine::TextBack { saved, left } => ResolveMachineV::TextBack {
                saved: crate::effects::clip_view(*saved),
                left: *left,
            },
            ResolveMachine::RestoreClear { saved } => ResolveMachineV::RestoreClear {
                saved: crate::effects::clip_view(*saved),
            },
            ResolveMachine::RestoreWrite => ResolveMachineV::RestoreWrite,
        }
    }
}

impl View for ResolveOutcome {
    type V = ResolveOutcome;

    open spec fn view(&self) -> ResolveOutcome {
        *self
    }
}

/// The first transition of a resolution of `pending` under `decision`.
pub open spec fn resolve_start_v(
    pending: Option<crate::session::PendingV>,
    decision: Decision,
) -> TransitionV<ResolveMachineV, ResolveOutcome> {
    match pending {
        None => TransitionV::Done(ResolveOutcome::Completed),
        Some(p) => match decision {
            Decision::Accept => TransitionV::Next(
                ResolveMachineV::RestoreClear { saved: p.saved },
                ActionV::ClearClipboard,
            ),
            Decision::Reject => TransitionV::Next(
                ResolveMachineV::LayoutBackFirst { saved: p.saved, chars: p.chars },
                ActionV::PostPress(backspace_press()),
            ),
        },
    }
}

/// One transition of the resolution machine.
pub open spec fn resolve_step_v(m: ResolveMachineV, r: ReplyV) -> TransitionV<
    ResolveMachineV,
    ResolveOutcome,
> {
    match (m, r) {
        (ResolveMachineV::LayoutBackFirst { saved, chars }, ReplyV::Posted(ok)) => {
            if ok {
                TransitionV::Next(
                    ResolveMachineV::LayoutBackSecond { saved, chars },
                    ActionV::PostPress(backspace_press()),
                )
            } else {
                TransitionV::Done(ResolveOutcome::Failed(Failure::Synthesis))
            }
        },
        (ResolveMachineV::LayoutBackSecond { saved, chars }, ReplyV::Posted(ok)) => {
            if ok {
                if chars > 0 {
                    TransitionV::Next(
                        ResolveMachineV::TextBack { saved, left: (chars - 1) as usize },
                        ActionV::PostPress(backspace_press()),
                    )
                } else {
                    TransitionV::Next(
                        ResolveMachineV::RestoreClear { saved },
                        ActionV::ClearClipboard,
                    )
                }
            } else {
                TransitionV::Done(ResolveOutcome::Failed(Failure::Synthesis))
            }
        },
        (ResolveMachineV::TextBack { saved, left }, ReplyV::Posted(ok)) => {
            if ok {
                if left > 0 {
                    TransitionV::Next(
                        ResolveMachineV::TextBack { saved, left: (left - 1) as usize },
                        ActionV::PostPress(backspace_press()),
                    )
                } else {
                    TransitionV::Next(
                        ResolveMachineV::RestoreClear { saved },
                        ActionV::ClearClipboard,
                    )
                }
            } else {
                TransitionV::Done(ResolveOutcome::Failed(Failure::Synthesis))
            }
        },
        (ResolveMachineV::RestoreClear { saved }, ReplyV::Ack) => {
            match saved {
                Some(s) => TransitionV::Next(
                    ResolveMachineV::RestoreWrite,
                    ActionV::WriteClipboard(s),
                ),
                None => TransitionV::Done(ResolveOutcome::Completed),
            }
        },
        (ResolveMachineV::RestoreWrite, ReplyV::Ack) => {
            TransitionV::Done(ResolveOutcome::Completed)
        },
        (_, _) => TransitionV::Done(ResolveOutcome::Failed(Failure::Synthesis)),
    }
}

/// A measure that every transition of the resolution machine decreases.
pub open spec fn resolve_rank(m: ResolveMachineV) -> int {
    match m {
        ResolveMachineV::LayoutBackFirst { chars, .. } => chars + 12,
        ResolveMachineV::LayoutBackSecond { chars, .. } => chars + 11,
        ResolveMachineV::TextBack { left, .. } => left + 10,
        ResolveMachineV::RestoreClear { .. } => 5,
        ResolveMachineV::RestoreWrite => 4,
    }
}

/// The measure lifted to transitions; `Done` is the bottom.
pub open spec fn resolve_t_rank(t: TransitionV<ResolveMachineV, ResolveOutcome>) -> int {
    match t {
        TransitionV::Next(m, _) => resolve_rank(m) + 1,
        TransitionV::Done(_) => 0,
    }
}

/// Begin resolving `pending` under `decision`.
pub fn start_resolve(pending: Option<PendingInsert>, decision: Decision) -> (t: Transition<
    ResolveMachine,
    ResolveOutcome,
>)
    ensures
        t@ == resolve_start_v(
            match pending {
                Some(p) => Some(p@),
                None => None,
            },
            decision,
        ),
{
    match pending {
        None => Transition::Done(ResolveOutcome::Completed),
        Some(p) => match decision {
            Decision::Accept => Transition::Next(
                ResolveMachine::RestoreClear { saved: p.saved },
                Action::ClearClipboard,
            ),
            Decision::Reject => Transition::Next(
                ResolveMachine::LayoutBackFirst { saved: p.saved, chars: p.chars },
                Action::PostPress(backspace()),
            ),
        },
    }
}

/// Feed the reply of the previous action into the machine.
pub fn step(m: ResolveMachine, r: Reply) -> (t: Transition<ResolveMachine, ResolveOutcome>)
    ensures
        t@ == resolve_step_v(m@, r@),
{
    match (m, r) {
        (ResolveMachine::LayoutBackFirst { saved, chars }, Reply::Posted(ok)) => {
            if ok {
                Transition::Next(
                    ResolveMachine::LayoutBackSecond { saved, chars },
                    Action::PostPress(backspace()),
                )
            } else {
                Transition::Done(ResolveOutcome::Failed(Failure::Synthesis))
            }
        },
        (ResolveMachine::LayoutBackSecond { saved, chars }, Reply::Posted(ok)) => {
            if ok {
                if chars > 0 {
                    Transition::Next(
                        ResolveMachine::TextBack { saved, left: chars - 1 },
                        Action::PostPress(backspace()),
                    )
                } else {
                    Transition::Next(ResolveMachine::RestoreClear { saved }, Action::ClearClipboard)
                }
            } else {
                Transition::Done(ResolveOutcome::Failed(Failure::Synthesis))
            }
        },
        (ResolveMachine::TextBack { saved, left }, Reply::Posted(ok)) => {
            if ok {
                if left > 0 {
                    Transition::Next(
                        ResolveMachine::TextBack { saved, left: left - 1 },
                        Action::PostPress(backspace()),
                    )
                } else {
                    Transition::Next(ResolveMachine::RestoreClear { saved }, Action::ClearClipboard)
                }
            } else {
                Transition::Done(ResolveOutcome::Failed(Failure::Synthesis))
            }
        },
        (ResolveMachine::RestoreClear { saved }, Reply::Ack) => {
            match saved {
                Some(s) => Transition::Next(
                    ResolveMachine::RestoreWrite,
                    Action::WriteClipboard(s),
                ),
                None => Transition::Done(ResolveOutcome::Completed),
            }
        },
        (ResolveMachine::RestoreWrite, Reply::Ack) => {
            Transition::Done(ResolveOutcome::Completed)
        },
        (_, _) => Transition::Done(ResolveOutcome::Failed(Failure::Synthesis)),
    }
}

} // verus!
