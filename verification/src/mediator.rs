//! The operations of the helper, run to completion against `ModelHost`.
//!
//! Each operation drives its protocol machine in a perform/step loop and
//! carries a closed-form contract: the host afterwards equals a spec
//! function of the host before.  The same machines, driven the same way
//! against the real pasteboard and event tap, are what a production
//! driver runs; the contracts here are the statement of what that
//! sequence of effects does to an environment that behaves like the
//! model.

use crate::effects::{ActionV, Failure, Transition, TransitionV};
use crate::insert::{
    insert_rank, insert_step_v, insert_t_rank, start_insert, InsertMachine,
    InsertMachineV, InsertOutcome, InsertOutcomeV, RestorePolicy,
};
use crate::keys::{
    backspace_press, cmd_c_press, cmd_v_press, move_right_press, select_left_press,
    shift_enter_press, KeyPress, COPY_PAUSE_MS, SETTLE_PAUSE_MS, VERIFY_ATTEMPTS, VERIFY_PAUSE_MS,
};
use crate::model::{perform_post, perform_reply, press_effect, HostV, ModelHost};
use crate::reader::{
    read_rank, read_step_v, read_t_rank, start_read, ReadMachineV, ReadOutcome, ReadOutcomeV,
};
use crate::resolve::{
    resolve_rank, resolve_step_v, resolve_t_rank, start_resolve, Decision, ResolveMachineV,
    ResolveOutcome,
};
use crate::session::{PendingInsert, PendingV, Session};
use vstd::prelude::*;

verus! {

/// `n` less one, floored at zero.
pub open spec fn dec(n: nat) -> nat {
    if n > 0 {
        (n - 1) as nat
    } else {
        0
    }
}

/// The smaller of two counts.
pub open spec fn min_nat(a: nat, b: nat) -> nat {
    if a <= b {
        a
    } else {
        b
    }
}

/// What an insertion's capture read sees: the clipboard, unless reads
/// still lag, in which case nothing.
pub open spec fn captured(h: HostV) -> Option<Seq<char>> {
    if h.lag > 0 {
        None
    } else {
        h.clipboard
    }
}

/// The document after the two layout line breaks.
pub open spec fn doc_after_layout(h: HostV) -> Seq<char> {
    h.doc.push('\n').push('\n')
}

/// The log after the two layout presses.
pub open spec fn log_after_layout(h: HostV) -> Seq<KeyPress> {
    h.log.push(shift_enter_press()).push(shift_enter_press())
}

/// Whether an insertion of `text` into host `h` succeeds: empty text is a
/// no-op success; otherwise presses must synthesise and the clipboard must
/// read back within the budget.
pub open spec fn insert_ok(h: HostV, text: Seq<char>) -> bool {
    text.len() == 0 || (h.posts_ok && h.lag <= VERIFY_ATTEMPTS)
}

/// What a successful deferred insertion stages for accept or reject.
pub open spec fn insert_staged(h: HostV, text: Seq<char>, policy: RestorePolicy) -> Option<
    PendingV,
> {
    if policy is Deferred && text.len() > 0 && insert_ok(h, text) {
        Some(PendingV { saved: captured(h), chars: text.len() as usize })
    } else {
        None
    }
}

/// The host after an insertion of `text` under `policy`.
pub open spec fn insert_post(h: HostV, text: Seq<char>, policy: RestorePolicy) -> HostV {
    if text.len() == 0 {
        h
    } else if !h.posts_ok {
        h
    } else if h.lag > VERIFY_ATTEMPTS {
        // Layout happened, the staged text was written, and no read-back
        // ever saw it: the insertion fails with the clipboard left in the
        // unverified state, unrestored.
        HostV {
            clipboard: Some(text),
            doc: h.doc + seq!['\n', '\n'],
            sel: 0,
            log: h.log + seq![shift_enter_press(), shift_enter_press()],
            lag: (h.lag - (VERIFY_ATTEMPTS + 1)) as nat,
            posts_ok: true,
        }
    } else {
        HostV {
            clipboard: match policy {
                RestorePolicy::Immediate => captured(h),
                RestorePolicy::Deferred => Some(text),
            },
            doc: h.doc + seq!['\n', '\n'] + text,
            sel: 0,
            log: h.log + seq![shift_enter_press(), shift_enter_press(), cmd_v_press()],
            lag: 0,
            posts_ok: true,
        }
    }
}

/// How an insertion of `text` into host `h` ends.
pub open spec fn insert_outcome_v(h: HostV, text: Seq<char>, policy: RestorePolicy) -> InsertOutcomeV {
    if text.len() == 0 {
        InsertOutcomeV::Completed { staged: None }
    } else if !h.posts_ok {
        InsertOutcomeV::Failed(Failure::Synthesis)
    } else if h.lag > VERIFY_ATTEMPTS {
        InsertOutcomeV::Failed(Failure::VerifyTimeout)
    } else {
        InsertOutcomeV::Completed { staged: insert_staged(h, text, policy) }
    }
}

/// The lag remaining when the machine waits for read-back `attempts_left`
/// attempts from the end.
pub open spec fn verify_lag(h0: HostV, attempts_left: usize) -> nat {
    (dec(h0.lag) - (VERIFY_ATTEMPTS - attempts_left)) as nat
}

/// The insertion loop's invariant: what the host and the pending
/// transition look like at each state of the machine, relative to the
/// host `h0` the run started from.
pub open spec fn insert_loop_inv(
    h0: HostV,
    text: Seq<char>,
    policy: RestorePolicy,
    t: TransitionV<InsertMachineV, InsertOutcomeV>,
    h: HostV,
) -> bool {
    match t {
        TransitionV::Done(o) => h == insert_post(h0, text, policy) && o == insert_outcome_v(
            h0,
            text,
            policy,
        ),
        TransitionV::Next(m, a) => {
            &&& text.len() > 0
            &&& h0.sel == 0
            &&& match m {
                InsertMachineV::LayoutFirst { text: tx, policy: pol } => {
                    &&& tx == text
                    &&& pol == policy
                    &&& a == ActionV::PostPress(shift_enter_press())
                    &&& h == h0
                },
                InsertMachineV::LayoutSecond { text: tx, policy: pol } => {
                    &&& tx == text
                    &&& pol == policy
                    &&& h0.posts_ok
                    &&& a == ActionV::PostPress(shift_enter_press())
                    &&& h == HostV {
                        doc: h0.doc.push('\n'),
                        sel: 0,
                        log: h0.log.push(shift_enter_press()),
                        ..h0
                    }
                },
                InsertMachineV::Capture { text: tx, policy: pol } => {
                    &&& tx == text
                    &&& pol == policy
                    &&& h0.posts_ok
                    &&& a == ActionV::ReadClipboard
                    &&& h == HostV {
                        doc: doc_after_layout(h0),
                        sel: 0,
                        log: log_after_layout(h0),
                        ..h0
                    }
                },
                InsertMachineV::StageClear { text: tx, policy: pol, saved } => {
                    &&& tx == text
                    &&& pol == policy
                    &&& h0.posts_ok
                    &&& saved == captured(h0)
                    &&& a == ActionV::ClearClipboard
                    &&& h == HostV {
                        doc: doc_after_layout(h0),
                        sel: 0,
                        log: log_after_layout(h0),
                        lag: dec(h0.lag),
                        ..h0
                    }
                },
                InsertMachineV::StageWrite { text: tx, policy: pol, saved } => {
                    &&& tx == text
                    &&& pol == policy
                    &&& h0.posts_ok
                    &&& saved == captured(h0)
                    &&& a == ActionV::WriteClipboard(text)
                    &&& h == HostV {
                        clipboard: None,
                        doc: doc_after_layout(h0),
                        sel: 0,
                        log: log_after_layout(h0),
                        lag: dec(h0.lag),
                        posts_ok: h0.posts_ok,
                    }
                },
                InsertMachineV::VerifyRead { text: tx, policy: pol, saved, attempts_left } => {
                    &&& tx == text
                    &&& pol == policy
                    &&& h0.posts_ok
                    &&& saved == captured(h0)
                    &&& 1 <= attempts_left <= VERIFY_ATTEMPTS
                    &&& dec(h0.lag) >= VERIFY_ATTEMPTS - attempts_left
                    &&& a == ActionV::ReadClipboard
                    &&& h == HostV {
                        clipboard: Some(text),
                        doc: doc_after_layout(h0),
                        sel: 0,
                        log: log_after_layout(h0),
                        lag: verify_lag(h0, attempts_left),
                        posts_ok: h0.posts_ok,
                    }
                },
                InsertMachineV::VerifyPause { text: tx, policy: pol, saved, attempts_left } => {
                    &&& tx == text
                    &&& pol == policy
                    &&& h0.posts_ok
                    &&& saved == captured(h0)
                    &&& 1 <= attempts_left < VERIFY_ATTEMPTS
                    &&& dec(h0.lag) >= VERIFY_ATTEMPTS - attempts_left
                    &&& a == ActionV::Pause(VERIFY_PAUSE_MS)
                    &&& h == HostV {
                        clipboard: Some(text),
                        doc: doc_after_layout(h0),
                        sel: 0,
                        log: log_after_layout(h0),
                        lag: verify_lag(h0, attempts_left),
                        posts_ok: h0.posts_ok,
                    }
                },
                InsertMachineV::Paste { text: tx, policy: pol, saved } => {
                    &&& tx == text
                    &&& pol == policy
                    &&& h0.posts_ok
                    &&& h0.lag <= VERIFY_ATTEMPTS
                    &&& saved == captured(h0)
                    &&& a == ActionV::PostPress(cmd_v_press())
                    &&& h == HostV {
                        clipboard: Some(text),
                        doc: doc_after_layout(h0),
                        sel: 0,
                        log: log_after_layout(h0),
                        lag: 0,
                        posts_ok: h0.posts_ok,
                    }
                },
                InsertMachineV::Settle { saved } => {
                    &&& policy is Immediate
                    &&& h0.posts_ok
                    &&& h0.lag <= VERIFY_ATTEMPTS
                    &&& saved == captured(h0)
                    &&& a == ActionV::Pause(SETTLE_PAUSE_MS)
                    &&& h == HostV {
                        clipboard: Some(text),
                        doc: doc_after_layout(h0) + text,
                        sel: 0,
                        log: log_after_layout(h0).push(cmd_v_press()),
                        lag: 0,
                        posts_ok: h0.posts_ok,
                    }
                },
                InsertMachineV::RestoreClear { saved } => {
                    &&& policy is Immediate
                    &&& h0.posts_ok
                    &&& h0.lag <= VERIFY_ATTEMPTS
                    &&& saved == captured(h0)
                    &&& a == ActionV::ClearClipboard
                    &&& h == HostV {
                        clipboard: Some(text),
                        doc: doc_after_layout(h0) + text,
                        sel: 0,
                        log: log_after_layout(h0).push(cmd_v_press()),
                        lag: 0,
                        posts_ok: h0.posts_ok,
                    }
                },
                InsertMachineV::RestoreWrite => {
                    &&& policy is Immediate
                    &&& h0.posts_ok
                    &&& h0.lag <= VERIFY_ATTEMPTS
                    &&& captured(h0) matches Some(s) && a == ActionV::WriteClipboard(s)
                    &&& h == HostV {
                        clipboard: None,
                        doc: doc_after_layout(h0) + text,
                        sel: 0,
                        log: log_after_layout(h0).push(cmd_v_press()),
                        lag: 0,
                        posts_ok: h0.posts_ok,
                    }
                },
            }
        },
    }
}

/// One perform/step round of the insertion loop keeps the invariant and
/// shrinks the machine's measure.
proof fn insert_inv_preserved(
    h0: HostV,
    text: Seq<char>,
    policy: RestorePolicy,
    m: InsertMachineV,
    a: ActionV,
    h: HostV,
    h2: HostV,
    t2: TransitionV<InsertMachineV, InsertOutcomeV>,
)
    requires
        insert_loop_inv(h0, text, policy, TransitionV::Next(m, a), h),
        h2 == perform_post(h, a),
        t2 == insert_step_v(m, perform_reply(h, a)),
    ensures
        insert_loop_inv(h0, text, policy, t2, h2),
        insert_t_rank(t2) < insert_rank(m) + 1,
{
    match m {
        InsertMachineV::LayoutFirst { .. } => {
            if !h0.posts_ok {
                assert(h2 == h0);
                assert(h2 =~= insert_post(h0, text, policy));
            }
        },
        InsertMachineV::LayoutSecond { .. } => {
        },
        InsertMachineV::Capture { .. } => {
        },
        InsertMachineV::StageClear { .. } => {
        },
        InsertMachineV::StageWrite { .. } => {
        },
        InsertMachineV::VerifyRead { attempts_left, .. } => {
            if h.lag == 0 {
                // The read-back matches; the machine moves to the paste.
                assert(dec(h0.lag) == VERIFY_ATTEMPTS - attempts_left);
                assert(h0.lag <= VERIFY_ATTEMPTS);
            } else if attempts_left > 1 {
                assert(verify_lag(h0, (attempts_left - 1) as usize) == dec(h.lag));
            } else {
                // The budget is exhausted.
                assert(h0.lag > VERIFY_ATTEMPTS);
                assert(h2 =~= insert_post(h0, text, policy));
            }
        },
        InsertMachineV::VerifyPause { .. } => {
        },
        InsertMachineV::Paste { .. } => {
            if policy is Deferred {
                assert(h2 =~= insert_post(h0, text, policy));
            }
        },
        InsertMachineV::Settle { .. } => {
        },
        InsertMachineV::RestoreClear { .. } => {
            if captured(h0) is None {
                assert(h2 =~= insert_post(h0, text, policy));
            }
        },
        InsertMachineV::RestoreWrite => {
            assert(h2 =~= insert_post(h0, text, policy));
        },
    }
}

/// Drive an insertion machine to completion against the model host.
#[verifier::loop_isolation(false)]
fn run_insert(host: &mut ModelHost, text: Vec<char>, policy: RestorePolicy) -> (o: InsertOutcome)
    requires
        old(host).wf(),
        old(host)@.sel == 0,
    ensures
        final(host)@ == insert_post(old(host)@, text@, policy),
        o@ == insert_outcome_v(old(host)@, text@, policy),
        final(host).wf(),
{
    let ghost h0 = host@;
    let ghost text_v = text@;
    let mut t = start_insert(text, policy);
    proof {
        if text_v.len() == 0 {
            assert(host@ =~= insert_post(h0, text_v, policy));
        }
    }
    loop
        invariant
            host.wf(),
            insert_loop_inv(h0, text_v, policy, t@, host@),
        decreases insert_t_rank(t@),
    {
        match t {
            Transition::Done(o) => {
                return o;
            },
            Transition::Next(m, a) => {
                let ghost h_pre = host@;
                let ghost m_v = m@;
                let ghost a_v = a@;
                let r = host.perform(a);
                t = crate::insert::step(m, r);
                proof {
                    insert_inv_preserved(h0, text_v, policy, m_v, a_v, h_pre, host@, t@);
                }
            },
        }
    }
}

/// Insert `text` at the caret and restore the captured clipboard after
/// the settle delay.  Empty text is a no-op success.
pub fn insert_text_immediate(host: &mut ModelHost, text: Vec<char>) -> (ok: bool)
    requires
        old(host).wf(),
        old(host)@.sel == 0,
    ensures
        final(host)@ == insert_post(old(host)@, text@, RestorePolicy::Immediate),
        ok == insert_ok(old(host)@, text@),
        final(host).wf(),
{
    let o = run_insert(host, text, RestorePolicy::Immediate);
    match o {
        InsertOutcome::Completed { .. } => true,
        InsertOutcome::Failed(_) => false,
    }
}

/// Insert `text` at the caret and keep the captured clipboard pending in
/// `session` for a later accept or reject.  Empty text is a no-op success
/// that leaves the session untouched.
pub fn insert_text_deferred(host: &mut ModelHost, session: &mut Session, text: Vec<char>) -> (ok:
    bool)
    requires
        old(host).wf(),
        old(host)@.sel == 0,
    ensures
        final(host)@ == insert_post(old(host)@, text@, RestorePolicy::Deferred),
        ok == insert_ok(old(host)@, text@),
        final(session)@ == if ok && text@.len() > 0 {
            Some(PendingV { saved: captured(old(host)@), chars: text@.len() as usize })
        } else {
            old(session)@
        },
        final(host).wf(),
{
    let o = run_insert(host, text, RestorePolicy::Deferred);
    match o {
        InsertOutcome::Completed { staged } => {
            match staged {
                Some(p) => {
                    session.pending = Some(p);
                },
                None => {},
            }
            true
        },
        InsertOutcome::Failed(_) => false,
    }
}

/// The view of an optional pending insertion.
pub open spec fn pend_view(p: Option<PendingInsert>) -> Option<PendingV> {
    match p {
        Some(q) => Some(q@),
        None => None,
    }
}

/// The document after `k` Delete presses: the last `k` characters gone,
/// or everything if fewer than `k` remain.
pub open spec fn doc_popped(doc: Seq<char>, k: nat) -> Seq<char> {
    if doc.len() >= k {
        doc.take(doc.len() - k)
    } else {
        Seq::<char>::empty()
    }
}

/// `k` Delete presses.
pub open spec fn backspace_reps(k: nat) -> Seq<KeyPress> {
    Seq::new(k, |i| backspace_press())
}

/// The host after `k` Delete presses.
pub open spec fn popped_host(h: HostV, k: nat) -> HostV {
    HostV {
        clipboard: h.clipboard,
        doc: doc_popped(h.doc, k),
        sel: 0,
        log: h.log + backspace_reps(k),
        lag: h.lag,
        posts_ok: h.posts_ok,
    }
}

/// Whether resolving `pending` under `decision` succeeds: always, except
/// for a rejection whose Delete presses cannot synthesise.
pub open spec fn resolve_ok(h: HostV, pending: Option<PendingV>, decision: Decision) -> bool {
    pending is None || decision is Accept || h.posts_ok
}

/// The host after resolving `pending` under `decision`.
pub open spec fn resolve_post(h: HostV, pending: Option<PendingV>, decision: Decision) -> HostV {
    match pending {
        None => h,
        Some(p) => match decision {
            Decision::Accept => HostV { clipboard: p.saved, ..h },
            Decision::Reject => {
                if !h.posts_ok {
                    h
                } else {
                    HostV { clipboard: p.saved, ..popped_host(h, (p.chars + 2) as nat) }
                }
            },
        },
    }
}

/// How resolving `pending` under `decision` ends.
pub open spec fn resolve_outcome_v(
    h: HostV,
    pending: Option<PendingV>,
    decision: Decision,
) -> ResolveOutcome {
    if resolve_ok(h, pending, decision) {
        ResolveOutcome::Completed
    } else {
        ResolveOutcome::Failed(Failure::Synthesis)
    }
}

/// The resolution loop's invariant.
pub open spec fn resolve_loop_inv(
    h0: HostV,
    pending: Option<PendingV>,
    decision: Decision,
    t: TransitionV<ResolveMachineV, ResolveOutcome>,
    h: HostV,
) -> bool {
    match t {
        TransitionV::Done(o) => h == resolve_post(h0, pending, decision) && o == resolve_outcome_v(
            h0,
            pending,
            decision,
        ),
        TransitionV::Next(m, a) => {
            &&& h0.sel == 0
            &&& pending matches Some(p)
            &&& match m {
                ResolveMachineV::LayoutBackFirst { saved, chars } => {
                    &&& decision is Reject
                    &&& saved == p.saved
                    &&& chars == p.chars
                    &&& a == ActionV::PostPress(backspace_press())
                    &&& h == h0
                },
                ResolveMachineV::LayoutBackSecond { saved, chars } => {
                    &&& decision is Reject
                    &&& h0.posts_ok
                    &&& saved == p.saved
                    &&& chars == p.chars
                    &&& a == ActionV::PostPress(backspace_press())
                    &&& h == popped_host(h0, 1)
                },
                ResolveMachineV::TextBack { saved, left } => {
                    &&& decision is Reject
                    &&& h0.posts_ok
                    &&& saved == p.saved
                    &&& left < p.chars
                    &&& a == ActionV::PostPress(backspace_press())
                    &&& h == popped_host(h0, (p.chars + 1 - left) as nat)
                },
                ResolveMachineV::RestoreClear { saved } => {
                    &&& saved == p.saved
                    &&& a == ActionV::ClearClipboard
                    &&& if decision is Accept {
                        h == h0
                    } else {
                        h0.posts_ok && h == popped_host(h0, (p.chars + 2) as nat)
                    }
                },
                ResolveMachineV::RestoreWrite => {
                    &&& p.saved matches Some(s) && a == ActionV::WriteClipboard(s)
                    &&& if decision is Accept {
                        h == HostV { clipboard: None, ..h0 }
                    } else {
                        h0.posts_ok && h == HostV {
                            clipboard: None,
                            ..popped_host(h0, (p.chars + 2) as nat)
                        }
                    }
                },
            }
        },
    }
}

/// One more Delete press extends the popped form by one.
proof fn lemma_popped_next(h0: HostV, k: nat)
    requires
        h0.posts_ok,
    ensures
        press_effect(popped_host(h0, k), backspace_press()) =~= popped_host(h0, k + 1),
{
    let before = popped_host(h0, k);
    let after = press_effect(before, backspace_press());
    assert(after.log =~= h0.log + backspace_reps(k + 1));
    if h0.doc.len() >= k + 1 {
        assert(doc_popped(h0.doc, k).len() > 0);
        assert(after.doc =~= doc_popped(h0.doc, k + 1));
    } else {
        assert(doc_popped(h0.doc, k).len() == 0);
        assert(after.doc =~= doc_popped(h0.doc, k + 1));
    }
}

/// One perform/step round of the resolution loop keeps the invariant and
/// shrinks the machine's measure.
proof fn resolve_inv_preserved(
    h0: HostV,
    pending: Option<PendingV>,
    decision: Decision,
    m: ResolveMachineV,
    a: ActionV,
    h: HostV,
    h2: HostV,
    t2: TransitionV<ResolveMachineV, ResolveOutcome>,
)
    requires
        resolve_loop_inv(h0, pending, decision, TransitionV::Next(m, a), h),
        h2 == perform_post(h, a),
        t2 == resolve_step_v(m, perform_reply(h, a)),
    ensures
        resolve_loop_inv(h0, pending, decision, t2, h2),
        resolve_t_rank(t2) < resolve_rank(m) + 1,
{
    let p = pending->Some_0;
    match m {
        ResolveMachineV::LayoutBackFirst { .. } => {
            if h0.posts_ok {
                assert(popped_host(h0, 0) =~= h0);
                lemma_popped_next(h0, 0);
            } else {
                assert(h2 == h0);
            }
        },
        ResolveMachineV::LayoutBackSecond { chars, .. } => {
            lemma_popped_next(h0, 1);
        },
        ResolveMachineV::TextBack { left, .. } => {
            lemma_popped_next(h0, (p.chars + 1 - left) as nat);
        },
        ResolveMachineV::RestoreClear { .. } => {
            if p.saved is None {
                assert(h2 =~= resolve_post(h0, pending, decision));
            }
        },
        ResolveMachineV::RestoreWrite => {
            assert(h2 =~= resolve_post(h0, pending, decision));
        },
    }
}

/// Drive a resolution machine to completion against the model host.
#[verifier::loop_isolation(false)]
fn run_resolve(host: &mut ModelHost, pending: Option<PendingInsert>, decision: Decision) -> (o:
    ResolveOutcome)
    requires
        old(host).wf(),
        old(host)@.sel == 0,
    ensures
        final(host)@ == resolve_post(old(host)@, pend_view(pending), decision),
        o == resolve_outcome_v(old(host)@, pend_view(pending), decision),
        final(host).wf(),
{
    let ghost h0 = host@;
    let ghost pv = pend_view(pending);
    let mut t = start_resolve(pending, decision);
    loop
        invariant
            host.wf(),
            resolve_loop_inv(h0, pv, decision, t@, host@),
        decreases resolve_t_rank(t@),
    {
        match t {
            Transition::Done(o) => {
                return o;
            },
            Transition::Next(m, a) => {
                let ghost h_pre = host@;
                let ghost m_v = m@;
                let ghost a_v = a@;
                let r = host.perform(a);
                t = crate::resolve::step(m, r);
                proof {
                    resolve_inv_preserved(h0, pv, decision, m_v, a_v, h_pre, host@, t@);
                }
            },
        }
    }
}

/// Unconditionally clear the clipboard and write `text` back — the
/// restore path that every flow shares, exposed for an explicit external
/// restore.  Writing `None` leaves the clipboard cleared.
pub fn restore_text(host: &mut ModelHost, text: Option<Vec<char>>) -> (ok: bool)
    requires
        old(host).wf(),
        old(host)@.sel == 0,
    ensures
        final(host)@ == (HostV { clipboard: crate::effects::clip_view(text), ..old(host)@ }),
        ok,
        final(host).wf(),
{
    let o = run_resolve(host, Some(PendingInsert { saved: text, chars: 0 }), Decision::Accept);
    match o {
        ResolveOutcome::Completed => true,
        ResolveOutcome::Failed(_) => false,
    }
}

/// Accept the pending insertion: the pasted text stays; only the captured
/// clipboard is restored.  A no-op success when nothing is pending.
pub fn accept(host: &mut ModelHost, session: &mut Session) -> (ok: bool)
    requires
        old(host).wf(),
        old(host)@.sel == 0,
    ensures
        final(host)@ == resolve_post(old(host)@, old(session)@, Decision::Accept),
        final(session)@ is None,
        ok == resolve_ok(old(host)@, old(session)@, Decision::Accept),
        final(host).wf(),
{
    let pending = session.pending.take();
    let o = run_resolve(host, pending, Decision::Accept);
    match o {
        ResolveOutcome::Completed => true,
        ResolveOutcome::Failed(_) => false,
    }
}

/// Reject the pending insertion: retract it with one Delete press per
/// inserted character plus two for the layout line breaks, then restore
/// the captured clipboard.  A no-op success when nothing is pending.
pub fn reject(host: &mut ModelHost, session: &mut Session) -> (ok: bool)
    requires
        old(host).wf(),
        old(host)@.sel == 0,
    ensures
        final(host)@ == resolve_post(old(host)@, old(session)@, Decision::Reject),
        final(session)@ is None,
        ok == resolve_ok(old(host)@, old(session)@, Decision::Reject),
        final(host).wf(),
{
    let pending = session.pending.take();
    let o = run_resolve(host, pending, Decision::Reject);
    match o {
        ResolveOutcome::Completed => true,
        ResolveOutcome::Failed(_) => false,
    }
}

/// `k` Shift+Left presses.
pub open spec fn select_reps(k: nat) -> Seq<KeyPress> {
    Seq::new(k, |i| select_left_press())
}

/// `k` plain Right presses.
pub open spec fn right_reps(k: nat) -> Seq<KeyPress> {
    Seq::new(k, |i| move_right_press())
}

/// Every press a successful read of `n` characters posts, in order.
pub open spec fn read_log_delta(n: nat) -> Seq<KeyPress> {
    select_reps(n) + seq![cmd_c_press()] + right_reps(n)
}

/// How many of the `n` requested characters actually stand before the
/// caret: the selection clamps at the start of the text.
pub open spec fn avail(h: HostV, n: nat) -> nat {
    min_nat(n, h.doc.len())
}

/// The characters a read of `n` returns: the last `avail` characters
/// before the caret — fewer than `n`, without error, when fewer exist.
pub open spec fn read_result(h: HostV, n: nat) -> Seq<char> {
    h.doc.subrange(h.doc.len() - avail(h, n), h.doc.len() as int)
}

/// What the copy press leaves in the cleared clipboard: the selection, or
/// nothing when the selection is empty.
pub open spec fn copy_clip(h: HostV, n: nat) -> Option<Seq<char>> {
    if avail(h, n) > 0 {
        Some(read_result(h, n))
    } else {
        None
    }
}

/// The host after a read of `n` characters.  On a press failure the read
/// aborts at once: the clipboard is left cleared and unrestored.
pub open spec fn read_post(h: HostV, n: nat) -> HostV {
    if !h.posts_ok {
        HostV { clipboard: None, ..h }
    } else {
        HostV { sel: 0, log: h.log + read_log_delta(n), ..h }
    }
}

/// How a read of `n` characters ends.
pub open spec fn read_outcome_v(h: HostV, n: nat) -> ReadOutcomeV {
    if h.posts_ok {
        ReadOutcomeV::Text(read_result(h, n))
    } else {
        ReadOutcomeV::Failed(Failure::Synthesis)
    }
}

/// The read loop's invariant.
pub open spec fn read_loop_inv(
    h0: HostV,
    n: nat,
    t: TransitionV<ReadMachineV, ReadOutcomeV>,
    h: HostV,
) -> bool {
    match t {
        TransitionV::Done(o) => h == read_post(h0, n) && o == read_outcome_v(h0, n),
        TransitionV::Next(m, a) => {
            &&& h0.sel == 0
            &&& h0.lag == 0
            &&& match m {
                ReadMachineV::Capture { count } => {
                    &&& count == n
                    &&& a == ActionV::ReadClipboard
                    &&& h == h0
                },
                ReadMachineV::ClearBefore { count, saved } => {
                    &&& count == n
                    &&& saved == h0.clipboard
                    &&& a == ActionV::ClearClipboard
                    &&& h == h0
                },
                ReadMachineV::Selecting { count, saved, left } => {
                    &&& count == n
                    &&& saved == h0.clipboard
                    &&& left < n
                    &&& (left < n - 1 ==> h0.posts_ok)
                    &&& a == ActionV::PostPress(select_left_press())
                    &&& h == HostV {
                        clipboard: None,
                        sel: min_nat((n - 1 - left) as nat, h0.doc.len()),
                        log: h0.log + select_reps((n - 1 - left) as nat),
                        ..h0
                    }
                },
                ReadMachineV::Copying { count, saved } => {
                    &&& count == n
                    &&& saved == h0.clipboard
                    &&& (n > 0 ==> h0.posts_ok)
                    &&& a == ActionV::PostPress(cmd_c_press())
                    &&& h == HostV {
                        clipboard: None,
                        sel: avail(h0, n),
                        log: h0.log + select_reps(n),
                        ..h0
                    }
                },
                ReadMachineV::CopyWait { count, saved } => {
                    &&& count == n
                    &&& saved == h0.clipboard
                    &&& h0.posts_ok
                    &&& a == ActionV::Pause(COPY_PAUSE_MS)
                    &&& h == HostV {
                        clipboard: copy_clip(h0, n),
                        sel: avail(h0, n),
                        log: h0.log + select_reps(n) + seq![cmd_c_press()],
                        ..h0
                    }
                },
                ReadMachineV::ResultRead { count, saved } => {
                    &&& count == n
                    &&& saved == h0.clipboard
                    &&& h0.posts_ok
                    &&& a == ActionV::ReadClipboard
                    &&& h == HostV {
                        clipboard: copy_clip(h0, n),
                        sel: avail(h0, n),
                        log: h0.log + select_reps(n) + seq![cmd_c_press()],
                        ..h0
                    }
                },
                ReadMachineV::Collapsing { saved, text, left } => {
                    &&& saved == h0.clipboard
                    &&& h0.posts_ok
                    &&& text == read_result(h0, n)
                    &&& n > 0
                    &&& left < n
                    &&& a == ActionV::PostPress(move_right_press())
                    &&& h == HostV {
                        clipboard: copy_clip(h0, n),
                        sel: if left == n - 1 {
                            avail(h0, n)
                        } else {
                            0
                        },
                        log: h0.log + select_reps(n) + seq![cmd_c_press()] + right_reps(
                            (n - 1 - left) as nat,
                        ),
                        ..h0
                    }
                },
                ReadMachineV::RestoreClear { saved, text } => {
                    &&& saved == h0.clipboard
                    &&& h0.posts_ok
                    &&& text == read_result(h0, n)
                    &&& a == ActionV::ClearClipboard
                    &&& h == HostV {
                        clipboard: copy_clip(h0, n),
                        sel: 0,
                        log: h0.log + read_log_delta(n),
                        ..h0
                    }
                },
                ReadMachineV::RestoreWrite { text } => {
                    &&& h0.posts_ok
                    &&& text == read_result(h0, n)
                    &&& h0.clipboard matches Some(s) && a == ActionV::WriteClipboard(s)
                    &&& h == HostV {
                        clipboard: None,
                        sel: 0,
                        log: h0.log + read_log_delta(n),
                        ..h0
                    }
                },
            }
        },
    }
}

/// One perform/step round of the read loop keeps the invariant and
/// shrinks the machine's measure.
proof fn read_inv_preserved(
    h0: HostV,
    n: nat,
    m: ReadMachineV,
    a: ActionV,
    h: HostV,
    h2: HostV,
    t2: TransitionV<ReadMachineV, ReadOutcomeV>,
)
    requires
        read_loop_inv(h0, n, TransitionV::Next(m, a), h),
        h2 == perform_post(h, a),
        t2 == read_step_v(m, perform_reply(h, a)),
    ensures
        read_loop_inv(h0, n, t2, h2),
        read_t_rank(t2) < read_rank(m) + 1,
{
    match m {
        ReadMachineV::Capture { .. } => {
            assert(h2 =~= h);
        },
        ReadMachineV::ClearBefore { .. } => {
            if n > 0 {
                assert(h2 =~= HostV {
                    clipboard: None,
                    sel: min_nat(0, h0.doc.len()),
                    log: h0.log + select_reps(0),
                    ..h0
                });
            } else {
                assert(h2 =~= HostV {
                    clipboard: None,
                    sel: avail(h0, 0),
                    log: h0.log + select_reps(0),
                    ..h0
                });
            }
        },
        ReadMachineV::Selecting { left, .. } => {
            if h0.posts_ok {
                let done = (n - 1 - left) as nat;
                assert(select_reps(done).push(select_left_press()) =~= select_reps(done + 1));
                assert(h2.log =~= h0.log + select_reps(done + 1));
                assert(h2.sel == min_nat(done + 1, h0.doc.len()));
            } else {
                assert(h2 == h);
                assert(h2 =~= read_post(h0, n));
            }
        },
        ReadMachineV::Copying { .. } => {
            if h0.posts_ok {
                if avail(h0, n) > 0 {
                    assert(h2.clipboard =~= copy_clip(h0, n));
                }
                assert(h2 =~= HostV {
                    clipboard: copy_clip(h0, n),
                    sel: avail(h0, n),
                    log: h0.log + select_reps(n) + seq![cmd_c_press()],
                    ..h0
                });
            } else {
                assert(h2 == h);
                assert(h2 =~= read_post(h0, n));
            }
        },
        ReadMachineV::CopyWait { .. } => {
            assert(h2 == h);
        },
        ReadMachineV::ResultRead { .. } => {
            assert(h2 =~= h);
            if avail(h0, n) == 0 {
                assert(Seq::<char>::empty() =~= read_result(h0, n));
            }
            if n == 0 {
                assert(h0.log + select_reps(n) + seq![cmd_c_press()] =~= h0.log + read_log_delta(
                    n,
                ));
            }
        },
        ReadMachineV::Collapsing { left, .. } => {
            let done = (n - 1 - left) as nat;
            assert(right_reps(done).push(move_right_press()) =~= right_reps(done + 1));
            if left == 0 {
                assert(h0.log + select_reps(n) + seq![cmd_c_press()] + right_reps(n) =~= h0.log
                    + read_log_delta(n));
            }
            assert(h2.log =~= h0.log + select_reps(n) + seq![cmd_c_press()] + right_reps(
                done + 1,
            ));
        },
        ReadMachineV::RestoreClear { .. } => {
            if h0.clipboard is None {
                assert(h2 =~= read_post(h0, n));
            }
        },
        ReadMachineV::RestoreWrite { .. } => {
            assert(h2 =~= read_post(h0, n));
        },
    }
}

/// Drive a reader machine to completion against the model host.
#[verifier::loop_isolation(false)]
fn run_read(host: &mut ModelHost, count: usize) -> (o: ReadOutcome)
    requires
        old(host).wf(),
        old(host)@.sel == 0,
        old(host)@.lag == 0,
    ensures
        final(host)@ == read_post(old(host)@, count as nat),
        o@ == read_outcome_v(old(host)@, count as nat),
        final(host).wf(),
{
    let ghost h0 = host@;
    let mut t = start_read(count);
    loop
        invariant
            host.wf(),
            read_loop_inv(h0, count as nat, t@, host@),
        decreases read_t_rank(t@),
    {
        match t {
            Transition::Done(o) => {
                return o;
            },
            Transition::Next(m, a) => {
                let ghost h_pre = host@;
                let ghost m_v = m@;
                let ghost a_v = a@;
                let r = host.perform(a);
                t = crate::reader::step(m, r);
                proof {
                    read_inv_preserved(h0, count as nat, m_v, a_v, h_pre, host@, t@);
                }
            },
        }
    }
}

/// Read the `count` characters before the caret by selection and copy,
/// putting the caret and the clipboard back afterwards.  Returns fewer
/// characters, without error, when fewer stand before the caret; returns
/// `None` only when a press failed to synthesise.
pub fn read_preceding_text(host: &mut ModelHost, count: usize) -> (r: Option<Vec<char>>)
    requires
        old(host).wf(),
        old(host)@.sel == 0,
        old(host)@.lag == 0,
    ensures
        final(host)@ == read_post(old(host)@, count as nat),
        final(host).wf(),
        r matches Some(v) ==> old(host)@.posts_ok && v@ == read_result(old(host)@, count as nat),
        r is None <==> !old(host)@.posts_ok,
{
    let o = run_read(host, count);
    match o {
        ReadOutcome::Text(v) => Some(v),
        ReadOutcome::Failed(_) => None,
    }
}

} // verus!
