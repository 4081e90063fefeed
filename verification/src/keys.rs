//! Key presses and the timing constants of the protocols.
//!
//! A `KeyPress` is one logical press of a key: a key-down event followed by
//! a key-up event for the same virtual key code, both carrying the same
//! modifier flags.  The driver that posts a press to the operating system
//! sleeps `POST_PAUSE_MS` after each posted event; that delay is part of
//! performing the press, not a separate step of any protocol.

use vstd::prelude::*;

verus! {

/// Virtual key code of the Return key.
pub const KEY_RETURN: u16 = 0x24;

/// Virtual key code of the letter V.
pub const KEY_V: u16 = 0x09;

/// Virtual key code of the letter C.
pub const KEY_C: u16 = 0x08;

/// Virtual key code of the Tab key.
pub const KEY_TAB: u16 = 0x30;

/// Virtual key code of the Delete (backspace) key.
pub const KEY_DELETE: u16 = 0x33;

/// Virtual key code of the left arrow key.
pub const KEY_LEFT_ARROW: u16 = 0x7B;

/// Virtual key code of the right arrow key.
pub const KEY_RIGHT_ARROW: u16 = 0x7C;

/// Delay after each posted key event, for input-method reliability.
pub const POST_PAUSE_MS: u64 = 20;

/// Bound on the clipboard read-back attempts after a write.
pub const VERIFY_ATTEMPTS: usize = 50;

/// Delay between two clipboard read-back attempts.
pub const VERIFY_PAUSE_MS: u64 = 2;

/// Delay that lets the focused application consume a paste before the
/// clipboard is restored.
pub const SETTLE_PAUSE_MS: u64 = 1000;

/// Delay that lets a copy propagate to the clipboard before it is read.
pub const COPY_PAUSE_MS: u64 = 50;

/// One logical press: key-down then key-up of `code`, with the Shift or
/// Command flag set on both events when the matching field is true.
#[derive(Clone, Copy, Debug, PartialEq, Eq, Structural)]
pub struct KeyPress {
    pub code: u16,
    pub shift: bool,
    pub command: bool,
}

/// Shift+Return: inserts a line break without submitting.
pub open spec fn shift_enter_press() -> KeyPress {
    KeyPress { code: KEY_RETURN, shift: true, command: false }
}

/// Command+V: pastes the clipboard at the caret.
pub open spec fn cmd_v_press() -> KeyPress {
    KeyPress { code: KEY_V, shift: false, command: true }
}

/// Command+C: copies the selection to the clipboard.
pub open spec fn cmd_c_press() -> KeyPress {
    KeyPress { code: KEY_C, shift: false, command: true }
}

/// Delete: removes the character before the caret.
pub open spec fn backspace_press() -> KeyPress {
    KeyPress { code: KEY_DELETE, shift: false, command: false }
}

/// Tab, unmodified.
pub open spec fn tab_press() -> KeyPress {
    KeyPress { code: KEY_TAB, shift: false, command: false }
}

/// Shift+Left: extends the selection one character to the left.
pub open spec fn select_left_press() -> KeyPress {
    KeyPress { code: KEY_LEFT_ARROW, shift: true, command: false }
}

/// Right, unmodified: collapses the selection to its right end.
pub open spec fn move_right_press() -> KeyPress {
    KeyPress { code: KEY_RIGHT_ARROW, shift: false, command: false }
}

/// The Shift+Return press used for the layout step.
pub fn shift_enter() -> (p: KeyPress)
    ensures
        p == shift_enter_press(),
{
    KeyPress { code: KEY_RETURN, shift: true, command: false }
}

/// The Command+V press that delivers a staged paste.
pub fn cmd_v() -> (p: KeyPress)
    ensures
        p == cmd_v_press(),
{
    KeyPress { code: KEY_V, shift: false, command: true }
}

/// The Command+C press that copies the current selection.
pub fn cmd_c() -> (p: KeyPress)
    ensures
        p == cmd_c_press(),
{
    KeyPress { code: KEY_C, shift: false, command: true }
}

/// The Delete press that retracts one inserted character.
pub fn backspace() -> (p: KeyPress)
    ensures
        p == backspace_press(),
{
    KeyPress { code: KEY_DELETE, shift: false, command: false }
}

/// The Shift+Left press that selects one character before the caret.
pub fn select_left() -> (p: KeyPress)
    ensures
        p == select_left_press(),
{
    KeyPress { code: KEY_LEFT_ARROW, shift: true, command: false }
}

/// The plain Right press that restores the caret after a selection.
pub fn move_right() -> (p: KeyPress)
    ensures
        p == move_right_press(),
{
    KeyPress { code: KEY_RIGHT_ARROW, shift: false, command: false }
}

/// The two Tab presses that separate a terminal prompt from ghost text.
pub fn type_delimiter() -> (v: Vec<KeyPress>)
    ensures
        v@ =~= seq![tab_press(), tab_press()],
{
    let mut v: Vec<KeyPress> = Vec::new();
    v.push(KeyPress { code: KEY_TAB, shift: false, command: false });
    v.push(KeyPress { code: KEY_TAB, shift: false, command: false });
    v
}

} // verus!
