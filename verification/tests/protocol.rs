// Scenario tests for the insertion, resolution, and read protocols, run
// against the model host.

use ghostkey::keys;
use ghostkey::keys::KeyPress;
use ghostkey::mediator::{
    accept, insert_text_deferred, insert_text_immediate, read_preceding_text, reject,
    restore_text,
};
use ghostkey::model::ModelHost;
use ghostkey::session::Session;

fn chars(s: &str) -> Vec<char> {
    s.chars().collect()
}

#[test]
fn insert_immediate_restores_clipboard() {
    let mut host = ModelHost::new(Some(chars("old")), chars("doc"));
    let ok = insert_text_immediate(&mut host, chars("hello"));
    assert!(ok);
    assert_eq!(host.clipboard, Some(chars("old")));
    assert_eq!(host.doc, chars("doc\n\nhello"));
    assert_eq!(
        host.log,
        vec![keys::shift_enter(), keys::shift_enter(), keys::cmd_v()]
    );
}

#[test]
fn insert_immediate_with_empty_clipboard() {
    let mut host = ModelHost::new(None, chars(""));
    let ok = insert_text_immediate(&mut host, chars("hi"));
    assert!(ok);
    // Nothing was captured, so the restore leaves the clipboard cleared.
    assert_eq!(host.clipboard, None);
    assert_eq!(host.doc, chars("\n\nhi"));
}

#[test]
fn insert_deferred_keeps_clipboard_staged() {
    let mut host = ModelHost::new(Some(chars("old")), chars(""));
    let mut session = Session::new();
    let ok = insert_text_deferred(&mut host, &mut session, chars("hello"));
    assert!(ok);
    // No restore yet: the staged text is still on the clipboard.
    assert_eq!(host.clipboard, Some(chars("hello")));
    let pending = session.pending.as_ref().expect("an insertion is pending");
    assert_eq!(pending.saved, Some(chars("old")));
    assert_eq!(pending.chars, 5);
}

#[test]
fn deferred_then_accept_restores_clipboard() {
    let mut host = ModelHost::new(Some(chars("old")), chars("doc"));
    let mut session = Session::new();
    assert!(insert_text_deferred(&mut host, &mut session, chars("hello")));
    let events_before: usize = host.log.len();
    let ok = accept(&mut host, &mut session);
    assert!(ok);
    assert_eq!(host.clipboard, Some(chars("old")));
    // Accepting keeps the pasted text and posts no press.
    assert_eq!(host.doc, chars("doc\n\nhello"));
    assert_eq!(host.log.len(), events_before);
    assert!(session.pending.is_none());
}

#[test]
fn deferred_then_reject_retracts_and_restores() {
    let mut host = ModelHost::new(Some(chars("old")), chars("doc"));
    let mut session = Session::new();
    assert!(insert_text_deferred(&mut host, &mut session, chars("hello")));
    let events_before: usize = host.log.len();
    let ok = reject(&mut host, &mut session);
    assert!(ok);
    // "hello" is 5 characters, plus 2 for the layout line breaks.
    let backspaces: Vec<&KeyPress> = host.log[events_before..]
        .iter()
        .filter(|p| **p == keys::backspace())
        .collect();
    assert_eq!(backspaces.len(), 7);
    assert_eq!(host.log.len(), events_before + 7);
    assert_eq!(host.clipboard, Some(chars("old")));
    assert_eq!(host.doc, chars("doc"));
    assert!(session.pending.is_none());
}

#[test]
fn empty_insert_is_a_noop() {
    let mut host = ModelHost::new(Some(chars("old")), chars("doc"));
    let mut session = Session::new();
    assert!(insert_text_immediate(&mut host, chars("")));
    assert!(insert_text_deferred(&mut host, &mut session, chars("")));
    assert_eq!(host.clipboard, Some(chars("old")));
    assert_eq!(host.doc, chars("doc"));
    assert!(host.log.is_empty());
    assert!(session.pending.is_none());
}

#[test]
fn verify_timeout_is_a_failure_without_paste() {
    let mut host = ModelHost::new(Some(chars("old")), chars(""));
    host.lag = keys::VERIFY_ATTEMPTS + 1;
    let ok = insert_text_immediate(&mut host, chars("hello"));
    assert!(!ok);
    // Layout happened, but the paste was never posted.
    assert_eq!(host.log, vec![keys::shift_enter(), keys::shift_enter()]);
    // The clipboard is left in the unverified state.
    assert_eq!(host.clipboard, Some(chars("hello")));
}

#[test]
fn verify_retry_within_budget_succeeds() {
    let mut host = ModelHost::new(Some(chars("old")), chars(""));
    host.lag = 5;
    let ok = insert_text_immediate(&mut host, chars("hello"));
    assert!(ok);
    // The capture read was stale too, so nothing was there to restore.
    assert_eq!(host.clipboard, None);
    assert_eq!(host.doc, chars("\n\nhello"));
    assert_eq!(
        host.log,
        vec![keys::shift_enter(), keys::shift_enter(), keys::cmd_v()]
    );
}

#[test]
fn synthesis_failure_aborts_insert() {
    let mut host = ModelHost::new(Some(chars("old")), chars("doc"));
    host.posts_ok = false;
    let ok = insert_text_immediate(&mut host, chars("hello"));
    assert!(!ok);
    assert!(host.log.is_empty());
    assert_eq!(host.clipboard, Some(chars("old")));
    assert_eq!(host.doc, chars("doc"));
}

#[test]
fn synthesis_failure_aborts_reject() {
    let mut host = ModelHost::new(Some(chars("old")), chars("doc"));
    let mut session = Session::new();
    assert!(insert_text_deferred(&mut host, &mut session, chars("no")));
    host.posts_ok = false;
    let ok = reject(&mut host, &mut session);
    assert!(!ok);
    // The retraction never started; the clipboard was not restored.
    assert_eq!(host.clipboard, Some(chars("no")));
}

#[test]
fn accept_with_nothing_pending_is_a_noop() {
    let mut host = ModelHost::new(Some(chars("old")), chars("doc"));
    let mut session = Session::new();
    assert!(accept(&mut host, &mut session));
    assert_eq!(host.clipboard, Some(chars("old")));
    assert!(host.log.is_empty());
}

#[test]
fn reject_with_nothing_pending_is_a_noop() {
    let mut host = ModelHost::new(None, chars("doc"));
    let mut session = Session::new();
    assert!(reject(&mut host, &mut session));
    assert_eq!(host.clipboard, None);
    assert!(host.log.is_empty());
}

#[test]
fn second_deferred_insert_overwrites_pending() {
    let mut host = ModelHost::new(Some(chars("old")), chars(""));
    let mut session = Session::new();
    assert!(insert_text_deferred(&mut host, &mut session, chars("first")));
    assert!(insert_text_deferred(&mut host, &mut session, chars("hi")));
    let pending = session.pending.as_ref().expect("an insertion is pending");
    // The second capture saw the first insertion's staged text.
    assert_eq!(pending.saved, Some(chars("first")));
    assert_eq!(pending.chars, 2);
}

#[test]
fn restore_text_overwrites_the_clipboard() {
    let mut host = ModelHost::new(Some(chars("stale")), chars("doc"));
    assert!(restore_text(&mut host, Some(chars("old"))));
    assert_eq!(host.clipboard, Some(chars("old")));
    assert!(restore_text(&mut host, None));
    assert_eq!(host.clipboard, None);
    assert!(host.log.is_empty());
}

#[test]
fn read_preceding_returns_last_characters() {
    let mut host = ModelHost::new(Some(chars("keep")), chars("abcdef"));
    let r = read_preceding_text(&mut host, 3);
    assert_eq!(r, Some(chars("def")));
    assert_eq!(host.clipboard, Some(chars("keep")));
    assert_eq!(host.doc, chars("abcdef"));
    assert_eq!(host.sel, 0);
    let mut expected = vec![keys::select_left(); 3];
    expected.push(keys::cmd_c());
    expected.extend(vec![keys::move_right(); 3]);
    assert_eq!(host.log, expected);
}

#[test]
fn read_preceding_clamps_at_document_start() {
    let mut host = ModelHost::new(None, chars("ab"));
    let r = read_preceding_text(&mut host, 5);
    // Fewer characters than requested exist: the result is shorter,
    // without error.
    assert_eq!(r, Some(chars("ab")));
    assert_eq!(host.clipboard, None);
    assert_eq!(host.sel, 0);
}

#[test]
fn read_zero_characters_returns_empty() {
    let mut host = ModelHost::new(Some(chars("keep")), chars("abc"));
    let r = read_preceding_text(&mut host, 0);
    assert_eq!(r, Some(chars("")));
    assert_eq!(host.clipboard, Some(chars("keep")));
    assert_eq!(host.log, vec![keys::cmd_c()]);
}

#[test]
fn read_failure_leaves_clipboard_cleared() {
    let mut host = ModelHost::new(Some(chars("keep")), chars("abc"));
    host.posts_ok = false;
    let r = read_preceding_text(&mut host, 2);
    assert_eq!(r, None);
    // The known gap: the capture was cleared and never restored.
    assert_eq!(host.clipboard, None);
    assert!(host.log.is_empty());
}
