//! Non-destructive reading of the characters before the caret.
//!
//! Without an accessibility API, the helper reads backwards from the caret
//! by keyboard selection: it captures and clears the clipboard, extends the
//! selection left one character at a time with Shift+Left, copies the
//! selection with Command+C, waits `COPY_PAUSE_MS` for the copy to reach
//! the clipboard, reads it, collapses the selection with plain Right
//! presses to put the caret back, and finally restores the captured
//! clipboard.  If the caret is closer to the start than the requested
//! count, the selection clamps there and the text read is shorter than
//! requested; that is not an error.
//!
//! A failed press aborts at once, before the caret and the clipboard are
//! restored — the known gap of this trick.

use crate::effects::{Action, ActionV, Failure, Reply, ReplyV, Transition, TransitionV};
use crate::keys::{
    cmd_c, cmd_c_press, move_right, move_right_press, select_left, select_left_press,
    COPY_PAUSE_MS,
};
use vstd::prelude::*;

verus! {

/// The reader machine.  Each state names the action whose reply the
/// machine is waiting for.
pub enum ReadMachine {
    /// Clipboard capture read requested.
    Capture { count: usize },
    /// Clipboard clear before the copy requested.
    ClearBefore { count: usize, saved: Option<Vec<char>> },
    /// A Shift+Left press posted; `left` more follow.
    Selecting { count: usize, saved: Option<Vec<char>>, left: usize },
    /// The Command+C press posted.
    Copying { count: usize, saved: Option<Vec<char>> },
    /// Pause for the copy to propagate requested.
    CopyWait { count: usize, saved: Option<Vec<char>> },
    /// Read of the copied text requested.
    ResultRead { count: usize, saved: Option<Vec<char>> },
    /// A plain Right press posted; `left` more follow.
    Collapsing { saved: Option<Vec<char>>, text: Vec<char>, left: usize },
    /// Clipboard clear before the restore write requested.
    RestoreClear { saved: Option<Vec<char>>, text: Vec<char> },
    /// Restore write of the captured clipboard requested.
    RestoreWrite { text: Vec<char> },
}

/// How a read ended.
pub enum ReadOutcome {
    /// The characters read from the selection; the caret and the clipboard
    /// are back in their pre-call state.
    Text(Vec<char>),
    /// A press failed; the caret or the clipboard may be left altered.
    Failed(Failure),
}

/// View of `ReadMachine`.
#[verifier::ext_equal]
pub enum ReadMachineV {
    Capture { count: usize },
    ClearBefore { count: usize, saved: Option<Seq<char>> },
    Selecting { count: usize, saved: Option<Seq<char>>, left: usize },
    Copying { count: usize, saved: Option<Seq<char>> },
    CopyWait { count: usize, saved: Option<Seq<char>> },
    ResultRead { count: usize, saved: Option<Seq<char>> },
    Collapsing { saved: Option<Seq<char>>, text: Seq<char>, left: usize },
    RestoreClear { saved: Option<Seq<char>>, text: Seq<char> },
    RestoreWrite { text: Seq<char> },
}

/// View of `ReadOutcome`.
#[verifier::ext_equal]
pub enum ReadOutcomeV {
    Text(Seq<char>),
    Failed(Failure),
}

impl View for ReadMachine {
    type V = ReadMachineV;

    open spec fn view(&self) -> ReadMachineV {
        match self {
            ReadMachine::Capture { count } => ReadMachineV::Capture { count: *count },
            ReadMachine::ClearBefore { count, saved } => ReadMachineV::ClearBefore {
                count: *count,
                saved: crate::effects::clip_view(*saved),
            },
            ReadMachine::Selecting { count, saved, left } => ReadMachineV::Selecting {
                count: *count,
                saved: crate::effects::clip_view(*saved),
                left: *left,
            },
            ReadMachine::Copying { count, saved } => ReadMachineV::Copying {
                count: *count,
                saved: crate::effects::clip_view(*saved),
            },
            ReadMachine::CopyWait { count, saved } => ReadMachineV::CopyWait {
                count: *count,
                saved: crate::effects::clip_view(*saved),
            },
            ReadMachine::ResultRead { count, saved } => ReadMachineV::ResultRead {
                count: *count,
                saved: crate::effects::clip_view(*saved),
            },
            ReadMachine::Collapsing { saved, text, left } => ReadMachineV::Collapsing {
                saved: crate::effects::clip_view(*saved),
                text: text@,
                left: *left,
            },
            ReadMachine::RestoreClear { saved, text } => ReadMachineV::RestoreClear {
                saved: crate::effects::clip_view(*saved),
                text: text@,
            },
            ReadMachine::RestoreWrite { text } => ReadMachineV::RestoreWrite { text: text@ },
        }
    }
}

impl View for ReadOutcome {
    type V = ReadOutcomeV;

    open spec fn view(&self) -> ReadOutcomeV {
        match self {
            ReadOutcome::Text(v) => ReadOutcomeV::Text(v@),
            ReadOutcome::Failed(f) => ReadOutcomeV::Failed(*f),
        }
    }
}

/// The first transition of a read of `count` characters.
pub open spec fn read_start_v(count: usize) -> TransitionV<ReadMachineV, ReadOutcomeV> {
    TransitionV::Next(ReadMachineV::Capture { count }, ActionV::ReadClipboard)
}

/// One transition of the reader machine.
pub open spec fn read_step_v(m: ReadMachineV, r: ReplyV) -> TransitionV<
    ReadMachineV,
    ReadOutcomeV,
> {
    match (m, r) {
        (ReadMachineV::Capture { count }, ReplyV::Clipboard(current)) => {
            TransitionV::Next(
                ReadMachineV::ClearBefore { count, saved: current },
                ActionV::ClearClipboard,
            )
        },
        (ReadMachineV::ClearBefore { count, saved }, ReplyV::Ack) => {
            if count > 0 {
                TransitionV::Next(
                    ReadMachineV::Selecting { count, saved, left: (count - 1) as usize },
                    ActionV::PostPress(select_left_press()),
                )
            } else {
                TransitionV::Next(
                    ReadMachineV::Copying { count, saved },
                    ActionV::PostPress(cmd_c_press()),
                )
            }
        },
        (ReadMachineV::Selecting { count, saved, left }, ReplyV::Posted(ok)) => {
            if ok {
                if left > 0 {
                    TransitionV::Next(
                        ReadMachineV::Selecting { count, saved, left: (left - 1) as usize },
                        ActionV::PostPress(select_left_press()),
                    )
                } else {
                    TransitionV::Next(
                        ReadMachineV::Copying { count, saved },
                        ActionV::PostPress(cmd_c_press()),
                    )
                }
            } else {
                TransitionV::Done(ReadOutcomeV::Failed(Failure::Synthesis))
            }
        },
        (ReadMachineV::Copying { count, saved }, ReplyV::Posted(ok)) => {
            if ok {
                TransitionV::Next(
                    ReadMachineV::CopyWait { count, saved },
                    ActionV::Pause(COPY_PAUSE_MS),
                )
            } else {
                TransitionV::Done(ReadOutcomeV::Failed(Failure::Synthesis))
            }
        },
        (ReadMachineV::CopyWait { count, saved }, ReplyV::Ack) => {
            TransitionV::Next(
                ReadMachineV::ResultRead { count, saved },
                ActionV::ReadClipboard,
            )
        },
        (ReadMachineV::ResultRead { count, saved }, ReplyV::Clipboard(current)) => {
            let text = match current {
                Some(v) => v,
                None => Seq::<char>::empty(),
            };
            if count > 0 {
                TransitionV::Next(
                    ReadMachineV::Collapsing { saved, text, left: (count - 1) as usize },
                    ActionV::PostPress(move_right_press()),
                )
            } else {
                TransitionV::Next(
                    ReadMachineV::RestoreClear { saved, text },
                    ActionV::ClearClipboard,
                )
            }
        },
        (ReadMachineV::Collapsing { saved, text, left }, ReplyV::Posted(ok)) => {
            if ok {
                if left > 0 {
                    TransitionV::Next(
                        ReadMachineV::Collapsing { saved, text, left: (left - 1) as usize },
                        ActionV::PostPress(move_right_press()),
                    )
                } else {
                    TransitionV::Next(
                        ReadMachineV::RestoreClear { saved, text },
                        ActionV::ClearClipboard,
                    )
                }
            } else {
                TransitionV::Done(ReadOutcomeV::Failed(Failure::Synthesis))
            }
        },
        (ReadMachineV::RestoreClear { saved, text }, ReplyV::Ack) => {
            match saved {
                Some(s) => TransitionV::Next(
                    ReadMachineV::RestoreWrite { text },
                    ActionV::WriteClipboard(s),
                ),
                None => TransitionV::Done(ReadOutcomeV::Text(text)),
            }
        },
        (ReadMachineV::RestoreWrite { text }, ReplyV::Ack) => {
            TransitionV::Done(ReadOutcomeV::Text(text))
        },
        (_, _) => TransitionV::Done(ReadOutcomeV::Failed(Failure::Synthesis)),
    }
}

/// A measure that every transition of the reader machine decreases.
pub open spec fn read_rank(m: ReadMachineV) -> int {
    match m {
        ReadMachineV::Capture { count } => 2 * count + 10,
        ReadMachineV::ClearBefore { count, .. } => 2 * count + 9,
        ReadMachineV::Selecting { count, left, .. } => count + left + 8,
        ReadMachineV::Copying { count, .. } => count + 7,
        ReadMachineV::CopyWait { count, .. } => count + 6,
        ReadMachineV::ResultRead { count, .. } => count + 5,
        ReadMachineV::Collapsing { left, .. } => left + 4,
        ReadMachineV::RestoreClear { .. } => 3,
        ReadMachineV::RestoreWrite { .. } => 2,
    }
}

/// The measure lifted to transitions; `Done` is the bottom.
pub open spec fn read_t_rank(t: TransitionV<ReadMachineV, ReadOutcomeV>) -> int {
    match t {
        TransitionV::Next(m, _) => read_rank(m) + 1,
        TransitionV::Done(_) => 0,
    }
}

/// Begin a read of the `count` characters before the caret.
pub fn start_read(count: usize) -> (t: Transition<ReadMachine, ReadOutcome>)
    ensures
        t@ == read_start_v(count),
{
    Transition::Next(ReadMachine::Capture { count }, Action::ReadClipboard)
}

/// Feed the reply of the previous action into the machine.
pub fn step(m: ReadMachine, r: Reply) -> (t: Transition<ReadMachine, ReadOutcome>)
    ensures
        t@ == read_step_v(m@, r@),
{
    match (m, r) {
        (ReadMachine::Capture { count }, Reply::Clipboard(current)) => {
            Transition::Next(
                ReadMachine::ClearBefore { count, saved: current },
                Action::ClearClipboard,
            )
        },
        (ReadMachine::ClearBefore { count, saved }, Reply::Ack) => {
            if count > 0 {
                Transition::Next(
                    ReadMachine::Selecting { count, saved, left: count - 1 },
                    Action::PostPress(select_left()),
                )
            } else {
                Transition::Next(
                    ReadMachine::Copying { count, saved },
                    Action::PostPress(cmd_c()),
                )
            }
        },
        (ReadMachine::Selecting { count, saved, left }, Reply::Posted(ok)) => {
            if ok {
                if left > 0 {
                    Transition::Next(
                        ReadMachine::Selecting { count, saved, left: left - 1 },
                        Action::PostPress(select_left()),
                    )
                } else {
                    Transition::Next(
                        ReadMachine::Copying { count, saved },
                        Action::PostPress(cmd_c()),
                    )
                }
            } else {
                Transition::Done(ReadOutcome::Failed(Failure::Synthesis))
            }
        },
        (ReadMachine::Copying { count, saved }, Reply::Posted(ok)) => {
            if ok {
                Transition::Next(
                    ReadMachine::CopyWait { count, saved },
                    Action::Pause(COPY_PAUSE_MS),
                )
            } else {
                Transition::Done(ReadOutcome::Failed(Failure::Synthesis))
            }
        },
        (ReadMachine::CopyWait { count, saved }, Reply::Ack) => {
            Transition::Next(ReadMachine::ResultRead { count, saved }, Action::ReadClipboard)
        },
        (ReadMachine::ResultRead { count, saved }, Reply::Clipboard(current)) => {
            let text = match current {
                Some(v) => v,
                None => Vec::new(),
            };
            if count > 0 {
                Transition::Next(
                    ReadMachine::Collapsing { saved, text, left: count - 1 },
                    Action::PostPress(move_right()),
                )
            } else {
                Transition::Next(
                    ReadMachine::RestoreClear { saved, text },
                    Action::ClearClipboard,
                )
            }
        },
        (ReadMachine::Collapsing { saved, text, left }, Reply::Posted(ok)) => {
            if ok {
                if left > 0 {
                    Transition::Next(
                        ReadMachine::Collapsing { saved, text, left: left - 1 },
                        Action::PostPress(move_right()),
                    )
                } else {
                    Transition::Next(
                        ReadMachine::RestoreClear { saved, text },
                        Action::ClearClipboard,
                    )
                }
            } else {
                Transition::Done(ReadOutcome::Failed(Failure::Synthesis))
            }
        },
        (ReadMachine::RestoreClear { saved, text }, Reply::Ack) => {
            match saved {
                Some(s) => Transition::Next(
                    ReadMachine::RestoreWrite { text },
                    Action::WriteClipboard(s),
                ),
                None => Transition::Done(ReadOutcome::Text(text)),
            }
        },
        (ReadMachine::RestoreWrite { text }, Reply::Ack) => {
            Transition::Done(ReadOutcome::Text(text))
        },
        (_, _) => Transition::Done(ReadOutcome::Failed(Failure::Synthesis)),
    }
}

} // verus!
