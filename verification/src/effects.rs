//! Effects exchanged between a protocol machine and its driver.
//!
//! A machine never touches the clipboard or the event tap itself.  It hands
//! the driver one `Action` at a time; the driver performs it and feeds the
//! matching `Reply` back in.  `ActionV` and `ReplyV` are the views of the
//! two types, with text abstracted to `Seq<char>`.

use crate::keys::KeyPress;
use vstd::prelude::*;

verus! {

/// One effect for the driver to perform.
pub enum Action {
    /// Read the clipboard's text slot; answered by `Reply::Clipboard`.
    ReadClipboard,
    /// Clear the clipboard; answered by `Reply::Ack`.
    ClearClipboard,
    /// Write the given text to the clipboard; answered by `Reply::Ack`.
    WriteClipboard(Vec<char>),
    /// Post one key press to the event tap; answered by `Reply::Posted`,
    /// false when the event source or an event could not be constructed.
    PostPress(KeyPress),
    /// Sleep for the given number of milliseconds; answered by `Reply::Ack`.
    Pause(u64),
}

/// The driver's answer to one `Action`.
pub enum Reply {
    /// The clipboard's text slot, absent when it holds no text.
    Clipboard(Option<Vec<char>>),
    /// Whether a posted press was synthesised successfully.
    Posted(bool),
    /// The action was performed and returns nothing.
    Ack,
}

/// Why an operation gave up.
#[derive(Clone, Copy, Debug, PartialEq, Eq, Structural)]
pub enum Failure {
    /// A key event could not be synthesised, or the driver answered an
    /// action with a reply of the wrong kind.
    Synthesis,
    /// The clipboard never read back the written text within the retry
    /// budget.
    VerifyTimeout,
}

/// What a machine asks for next: another effect, or the finished outcome.
pub enum Transition<M, O> {
    /// Perform the action, then feed the reply into the machine.
    Next(M, Action),
    /// The operation is over; no further action may be performed.
    Done(O),
}

/// View of `Action`.
#[verifier::ext_equal]
pub enum ActionV {
    ReadClipboard,
    ClearClipboard,
    WriteClipboard(Seq<char>),
    PostPress(KeyPress),
    Pause(u64),
}

/// View of `Reply`.
#[verifier::ext_equal]
pub enum ReplyV {
    Clipboard(Option<Seq<char>>),
    Posted(bool),
    Ack,
}

/// View of `Transition`.
#[verifier::ext_equal]
pub enum TransitionV<MV, OV> {
    Next(MV, ActionV),
    Done(OV),
}

/// The view of an optional clipboard text.
pub open spec fn clip_view(c: Option<Vec<char>>) -> Option<Seq<char>> {
    match c {
        Some(v) => Some(v@),
        None => None,
    }
}

impl View for Action {
    type V = ActionV;

    open spec fn view(&self) -> ActionV {
        match self {
            Action::ReadClipboard => ActionV::ReadClipboard,
            Action::ClearClipboard => ActionV::ClearClipboard,
            Action::WriteClipboard(v) => ActionV::WriteClipboard(v@),
            Action::PostPress(p) => ActionV::PostPress(*p),
            Action::Pause(ms) => ActionV::Pause(*ms),
        }
    }
}

impl View for Reply {
    type V = ReplyV;

    open spec fn view(&self) -> ReplyV {
        match self {
            Reply::Clipboard(c) => ReplyV::Clipboard(clip_view(*c)),
            Reply::Posted(ok) => ReplyV::Posted(*ok),
            Reply::Ack => ReplyV::Ack,
        }
    }
}

impl<M: View, O: View> View for Transition<M, O> {
    type V = TransitionV<M::V, O::V>;

    open spec fn view(&self) -> TransitionV<M::V, O::V> {
        match self {
            Transition::Next(m, a) => TransitionV::Next(m@, a@),
            Transition::Done(o) => TransitionV::Done(o@),
        }
    }
}

} // verus!
