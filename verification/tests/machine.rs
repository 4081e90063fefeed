// Tests of the key presses and of the protocol machines driven by hand,
// the way a production driver feeds them.

use ghostkey::effects::{Action, Failure, Reply, Transition};
use ghostkey::insert::{start_insert, InsertOutcome, RestorePolicy};
use ghostkey::keys;
use ghostkey::reader::start_read;
use ghostkey::resolve::{start_resolve, Decision, ResolveOutcome};
use ghostkey::session::PendingInsert;

fn chars(s: &str) -> Vec<char> {
    s.chars().collect()
}

#[test]
fn presses_carry_the_virtual_key_codes() {
    assert_eq!(keys::shift_enter().code, 0x24);
    assert!(keys::shift_enter().shift);
    assert!(!keys::shift_enter().command);
    assert_eq!(keys::cmd_v().code, 0x09);
    assert!(keys::cmd_v().command);
    assert_eq!(keys::cmd_c().code, 0x08);
    assert!(keys::cmd_c().command);
    assert_eq!(keys::backspace().code, 0x33);
    assert!(!keys::backspace().shift && !keys::backspace().command);
    assert_eq!(keys::select_left().code, 0x7B);
    assert!(keys::select_left().shift);
    assert_eq!(keys::move_right().code, 0x7C);
    assert!(!keys::move_right().shift);
}

#[test]
fn delimiter_is_two_tabs() {
    let d = keys::type_delimiter();
    assert_eq!(d.len(), 2);
    assert_eq!(d[0].code, 0x30);
    assert_eq!(d[1].code, 0x30);
    assert!(!d[0].shift && !d[0].command);
}

#[test]
fn empty_insert_finishes_without_an_action() {
    match start_insert(chars(""), RestorePolicy::Immediate) {
        Transition::Done(InsertOutcome::Completed { staged }) => assert!(staged.is_none()),
        _ => panic!("empty text must finish at once"),
    }
}

#[test]
fn insert_begins_with_the_layout_press() {
    match start_insert(chars("x"), RestorePolicy::Deferred) {
        Transition::Next(_, Action::PostPress(p)) => assert_eq!(p, keys::shift_enter()),
        _ => panic!("a non-empty insertion starts with Shift+Return"),
    }
}

#[test]
fn failed_layout_press_aborts_the_insert() {
    let (m, _) = match start_insert(chars("x"), RestorePolicy::Immediate) {
        Transition::Next(m, a) => (m, a),
        _ => panic!("a non-empty insertion does not finish at once"),
    };
    match ghostkey::insert::step(m, Reply::Posted(false)) {
        Transition::Done(InsertOutcome::Failed(f)) => assert_eq!(f, Failure::Synthesis),
        _ => panic!("a failed press must abort"),
    }
}

#[test]
fn wrong_reply_kind_aborts_the_insert() {
    let (m, _) = match start_insert(chars("x"), RestorePolicy::Immediate) {
        Transition::Next(m, a) => (m, a),
        _ => panic!("a non-empty insertion does not finish at once"),
    };
    match ghostkey::insert::step(m, Reply::Ack) {
        Transition::Done(InsertOutcome::Failed(f)) => assert_eq!(f, Failure::Synthesis),
        _ => panic!("a reply of the wrong kind must abort"),
    }
}

#[test]
fn accept_resolution_restores_by_hand() {
    let pending = PendingInsert { saved: Some(chars("x")), chars: 1 };
    let (m, a) = match start_resolve(Some(pending), Decision::Accept) {
        Transition::Next(m, a) => (m, a),
        _ => panic!("accepting a pending insertion performs a restore"),
    };
    assert!(matches!(a, Action::ClearClipboard));
    let (m, a) = match ghostkey::resolve::step(m, Reply::Ack) {
        Transition::Next(m, a) => (m, a),
        _ => panic!("a captured clipboard is written back"),
    };
    match a {
        Action::WriteClipboard(v) => assert_eq!(v, chars("x")),
        _ => panic!("the restore writes the captured text"),
    }
    match ghostkey::resolve::step(m, Reply::Ack) {
        Transition::Done(o) => assert_eq!(o, ResolveOutcome::Completed),
        _ => panic!("the restore write is the last step"),
    }
}

#[test]
fn resolving_nothing_finishes_without_an_action() {
    match start_resolve(None, Decision::Reject) {
        Transition::Done(o) => assert_eq!(o, ResolveOutcome::Completed),
        _ => panic!("nothing pending means nothing to do"),
    }
}

#[test]
fn known_terminals_are_recognised() {
    assert!(ghostkey::focus::is_terminal(&"com.apple.Terminal".to_string()));
    assert!(ghostkey::focus::is_terminal(&"com.googlecode.iterm2".to_string()));
    assert!(ghostkey::focus::is_terminal(&"com.microsoft.VSCode".to_string()));
    assert!(!ghostkey::focus::is_terminal(&"com.apple.Safari".to_string()));
    assert!(!ghostkey::focus::is_terminal(&"".to_string()));
}

#[test]
fn read_begins_by_capturing_the_clipboard() {
    match start_read(3) {
        Transition::Next(_, Action::ReadClipboard) => (),
        _ => panic!("a read first captures the clipboard"),
    }
}
