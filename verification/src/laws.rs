//! The properties the protocols are held to, stated over the spec
//! functions that the operations' contracts use.

use crate::effects::Failure;
use crate::insert::{InsertOutcomeV, RestorePolicy};
use crate::keys::{backspace_press, cmd_v_press, shift_enter_press, KeyPress, VERIFY_ATTEMPTS};
use crate::mediator::{
    avail, backspace_reps, captured, insert_ok, insert_outcome_v, insert_post, insert_staged,
    min_nat, read_post, read_result, resolve_post,
};
use crate::model::HostV;
use crate::resolve::Decision;
use vstd::prelude::*;

verus! {

/// How many times the press `p` occurs in `log`.
pub open spec fn press_count(log: Seq<KeyPress>, p: KeyPress) -> int
    decreases log.len(),
{
    if log.len() == 0 {
        0
    } else {
        press_count(log.drop_last(), p) + if log.last() == p {
            1int
        } else {
            0int
        }
    }
}

/// Appending one press adds one to its count and nothing to any other.
pub proof fn lemma_press_count_push(a: Seq<KeyPress>, x: KeyPress, p: KeyPress)
    ensures
        press_count(a.push(x), p) == press_count(a, p) + if x == p {
            1int
        } else {
            0int
        },
{
    assert(a.push(x).drop_last() =~= a);
    assert(a.push(x).last() == x);
}

/// Counting distributes over concatenation.
pub proof fn lemma_press_count_concat(a: Seq<KeyPress>, b: Seq<KeyPress>, p: KeyPress)
    ensures
        press_count(a + b, p) == press_count(a, p) + press_count(b, p),
    decreases b.len(),
{
    if b.len() == 0 {
        assert(a + b =~= a);
    } else {
        lemma_press_count_concat(a, b.drop_last(), p);
        assert((a + b).drop_last() =~= a + b.drop_last());
        assert((a + b).last() == b.last());
    }
}

/// A run of `k` equal presses counts `k` for that press and nothing for
/// any other.
pub proof fn lemma_press_count_reps(k: nat, x: KeyPress, p: KeyPress)
    ensures
        press_count(Seq::new(k, |i| x), p) == if x == p {
            k as int
        } else {
            0int
        },
    decreases k,
{
    if k > 0 {
        lemma_press_count_reps((k - 1) as nat, x, p);
        assert(Seq::new(k, |i| x).drop_last() =~= Seq::new((k - 1) as nat, |i| x));
        assert(Seq::new(k, |i| x).last() == x);
    }
}

/// The count of `p` in the three presses of a successful insertion.
proof fn lemma_count_insert_delta(p: KeyPress)
    ensures
        press_count(seq![shift_enter_press(), shift_enter_press(), cmd_v_press()], p) == (if p
            == shift_enter_press() {
            2int
        } else {
            0int
        }) + if p == cmd_v_press() {
            1int
        } else {
            0int
        },
        press_count(seq![shift_enter_press(), shift_enter_press()], p) == if p
            == shift_enter_press() {
            2int
        } else {
            0int
        },
{
    let e = Seq::<KeyPress>::empty();
    let s1 = e.push(shift_enter_press());
    let s2 = s1.push(shift_enter_press());
    let s3 = s2.push(cmd_v_press());
    lemma_press_count_push(e, shift_enter_press(), p);
    lemma_press_count_push(s1, shift_enter_press(), p);
    lemma_press_count_push(s2, cmd_v_press(), p);
    assert(s2 =~= seq![shift_enter_press(), shift_enter_press()]);
    assert(s3 =~= seq![shift_enter_press(), shift_enter_press(), cmd_v_press()]);
}

/// An immediate insertion of verifiable text leaves the clipboard equal
/// to the snapshot it captured before staging — that is, to its pre-call
/// value — and posts exactly one paste press, none for empty text.
pub proof fn law_insert_immediate_restores(h: HostV, text: Seq<char>)
    requires
        h.posts_ok,
        h.lag == 0,
    ensures
        insert_post(h, text, RestorePolicy::Immediate).clipboard == h.clipboard,
        insert_ok(h, text),
        press_count(insert_post(h, text, RestorePolicy::Immediate).log, cmd_v_press())
            == press_count(h.log, cmd_v_press()) + if text.len() > 0 {
            1int
        } else {
            0int
        },
{
    if text.len() > 0 {
        let delta = seq![shift_enter_press(), shift_enter_press(), cmd_v_press()];
        lemma_press_count_concat(h.log, delta, cmd_v_press());
        lemma_count_insert_delta(cmd_v_press());
        assert(insert_post(h, text, RestorePolicy::Immediate).log == h.log + delta);
    }
}

/// A deferred insertion followed by accept leaves the clipboard equal to
/// the snapshot captured before the insertion, for every text.
pub proof fn law_deferred_then_accept(h: HostV, text: Seq<char>)
    requires
        h.posts_ok,
        h.lag == 0,
    ensures
        resolve_post(
            insert_post(h, text, RestorePolicy::Deferred),
            insert_staged(h, text, RestorePolicy::Deferred),
            Decision::Accept,
        ).clipboard == h.clipboard,
{
}

/// A deferred insertion of non-empty text followed by reject leaves the
/// clipboard equal to the snapshot captured before the insertion, puts
/// the document back as it was, and posts exactly `text.len() + 2` Delete
/// presses: one per inserted character and two for the layout line
/// breaks.  (For empty text the insertion is a no-op and a rejection
/// posts no press at all.)
pub proof fn law_deferred_then_reject(h: HostV, text: Seq<char>)
    requires
        h.posts_ok,
        h.lag == 0,
        0 < text.len() <= usize::MAX,
    ensures
        ({
            let after_insert = insert_post(h, text, RestorePolicy::Deferred);
            let resolved = resolve_post(
                after_insert,
                insert_staged(h, text, RestorePolicy::Deferred),
                Decision::Reject,
            );
            &&& resolved.clipboard == h.clipboard
            &&& resolved.doc == h.doc
            &&& press_count(resolved.log, backspace_press()) == press_count(
                h.log,
                backspace_press(),
            ) + text.len() + 2
        }),
{
    let after_insert = insert_post(h, text, RestorePolicy::Deferred);
    let staged = insert_staged(h, text, RestorePolicy::Deferred);
    let resolved = resolve_post(after_insert, staged, Decision::Reject);
    let retracted = (text.len() + 2) as nat;
    assert(after_insert.doc == h.doc + seq!['\n', '\n'] + text);
    assert(after_insert.doc.len() == h.doc.len() + retracted);
    assert(resolved.doc =~= h.doc);
    let insert_delta = seq![shift_enter_press(), shift_enter_press(), cmd_v_press()];
    lemma_press_count_concat(h.log, insert_delta, backspace_press());
    lemma_count_insert_delta(backspace_press());
    lemma_press_count_concat(
        h.log + insert_delta,
        backspace_reps(retracted),
        backspace_press(),
    );
    lemma_press_count_reps(retracted, backspace_press(), backspace_press());
    assert(resolved.log == (h.log + insert_delta) + backspace_reps(retracted));
}

/// A read leaves the clipboard and the document equal to their pre-call
/// values and the caret deselected.  It returns the `n` characters before
/// the caret when `n` exist there, and all that exist — fewer than `n`,
/// without error — when fewer do.
pub proof fn law_read_preserves(h: HostV, n: nat)
    requires
        h.posts_ok,
        h.lag == 0,
        h.sel == 0,
    ensures
        read_post(h, n).clipboard == h.clipboard,
        read_post(h, n).doc == h.doc,
        read_post(h, n).sel == 0,
        read_result(h, n).len() == min_nat(n, h.doc.len()),
        n <= h.doc.len() ==> read_result(h, n) == h.doc.subrange(
            h.doc.len() - n,
            h.doc.len() as int,
        ),
        h.doc.len() < n ==> read_result(h, n) == h.doc,
{
    if h.doc.len() < n {
        assert(avail(h, n) == h.doc.len());
        assert(read_result(h, n) =~= h.doc);
    }
}

/// Exhausting the read-back budget surfaces as a failure, never as a
/// silent success: the insertion reports a verification timeout and no
/// paste press is ever posted, so stale clipboard content cannot be
/// delivered.
pub proof fn law_verify_timeout_fails(h: HostV, text: Seq<char>, policy: RestorePolicy)
    requires
        text.len() > 0,
        h.posts_ok,
        h.lag > VERIFY_ATTEMPTS,
    ensures
        !insert_ok(h, text),
        insert_outcome_v(h, text, policy) == InsertOutcomeV::Failed(Failure::VerifyTimeout),
        press_count(insert_post(h, text, policy).log, cmd_v_press()) == press_count(
            h.log,
            cmd_v_press(),
        ),
{
    let delta = seq![shift_enter_press(), shift_enter_press()];
    lemma_press_count_concat(h.log, delta, cmd_v_press());
    lemma_count_insert_delta(cmd_v_press());
    assert(insert_post(h, text, policy).log == h.log + delta);
}

/// Inserting empty text is a no-op success under either restore policy:
/// the host — clipboard, document, log — is untouched and nothing is
/// staged.
pub proof fn law_empty_insert_noop(h: HostV, policy: RestorePolicy)
    ensures
        insert_post(h, Seq::<char>::empty(), policy) == h,
        insert_ok(h, Seq::<char>::empty()),
        insert_staged(h, Seq::<char>::empty(), policy) is None,
{
}

/// What a deferred insertion stages is exactly the captured snapshot and
/// the inserted character count, which fixes the rejection's press
/// budget.
pub proof fn law_staged_snapshot(h: HostV, text: Seq<char>)
    requires
        h.posts_ok,
        h.lag == 0,
        0 < text.len() <= usize::MAX,
    ensures
        ({
            let staged = insert_staged(h, text, RestorePolicy::Deferred);
            &&& staged matches Some(p)
            &&& p.saved == h.clipboard
            &&& p.chars == text.len()
        }),
{
    assert(captured(h) == h.clipboard);
}

} // verus!
