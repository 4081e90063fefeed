//! A verified in-memory host for the protocol machines.
//!
//! `ModelHost` performs actions against a model of the environment: the
//! clipboard's text slot, the text standing before the caret in the
//! focused application, the current keyboard selection, and a log of every
//! press posted.  The contracts of the operations in `mediator`, and the
//! laws in `laws`, are stated against this model.
//!
//! Two knobs let the model exercise the protocol's failure paths.  `lag`
//! makes the next `lag` clipboard reads return nothing, the way a write
//! takes time to become observable; a lag larger than the read-back budget
//! forces a verification timeout.  When `posts_ok` is false every press
//! fails to synthesise, the way an event source that cannot be created
//! does.
//!
//! The model keeps only the text to the left of the caret and assumes the
//! caret starts with no active selection; presses that edit text are
//! modelled for that collapsed state.

use crate::effects::{clip_view, Action, ActionV, Reply, ReplyV};
use crate::keys::{
    backspace_press, cmd_c_press, cmd_v_press, move_right_press, select_left_press,
    shift_enter_press, tab_press, KeyPress,
};
use vstd::prelude::*;

verus! {

/// The model environment a machine's actions are performed against.
pub struct ModelHost {
    /// The clipboard's text slot.
    pub clipboard: Option<Vec<char>>,
    /// The text before the caret in the focused application.
    pub doc: Vec<char>,
    /// How many characters before the caret are selected.
    pub sel: usize,
    /// Every press posted so far, oldest first.
    pub log: Vec<KeyPress>,
    /// How many upcoming clipboard reads still see nothing.
    pub lag: usize,
    /// Whether presses synthesise successfully.
    pub posts_ok: bool,
}

/// View of `ModelHost`.
#[verifier::ext_equal]
pub struct HostV {
    pub clipboard: Option<Seq<char>>,
    pub doc: Seq<char>,
    pub sel: nat,
    pub log: Seq<KeyPress>,
    pub lag: nat,
    pub posts_ok: bool,
}

impl View for ModelHost {
    type V = HostV;

    open spec fn view(&self) -> HostV {
        HostV {
            clipboard: clip_view(self.clipboard),
            doc: self.doc@,
            sel: self.sel as nat,
            log: self.log@,
            lag: self.lag as nat,
            posts_ok: self.posts_ok,
        }
    }
}

/// What the clipboard contributes to a paste.
pub open spec fn paste_text(c: Option<Seq<char>>) -> Seq<char> {
    match c {
        Some(v) => v,
        None => Seq::<char>::empty(),
    }
}

/// The host after one press.  A failed press has no effect and is not
/// logged.  Presses that edit text collapse the selection.
pub open spec fn press_effect(h: HostV, p: KeyPress) -> HostV {
    if !h.posts_ok {
        h
    } else {
        let logged = HostV { log: h.log.push(p), ..h };
        if p == shift_enter_press() {
            HostV { doc: logged.doc.push('\n'), sel: 0, ..logged }
        } else if p == tab_press() {
            HostV { doc: logged.doc.push('\t'), sel: 0, ..logged }
        } else if p == cmd_v_press() {
            HostV { doc: logged.doc + paste_text(logged.clipboard), sel: 0, ..logged }
        } else if p == backspace_press() {
            HostV {
                doc: if logged.doc.len() > 0 {
                    logged.doc.drop_last()
                } else {
                    logged.doc
                },
                sel: 0,
                ..logged
            }
        } else if p == select_left_press() {
            HostV {
                sel: if logged.sel < logged.doc.len() {
                    logged.sel + 1
                } else {
                    logged.sel
                },
                ..logged
            }
        } else if p == move_right_press() {
            HostV { sel: 0, ..logged }
        } else if p == cmd_c_press() {
            if logged.sel > 0 {
                HostV {
                    clipboard: Some(
                        logged.doc.subrange(
                            logged.doc.len() - logged.sel,
                            logged.doc.len() as int,
                        ),
                    ),
                    ..logged
                }
            } else {
                logged
            }
        } else {
            logged
        }
    }
}

/// The host after performing one action.
pub open spec fn perform_post(h: HostV, a: ActionV) -> HostV {
    match a {
        ActionV::ReadClipboard => HostV {
            lag: if h.lag > 0 {
                (h.lag - 1) as nat
            } else {
                0
            },
            ..h
        },
        ActionV::ClearClipboard => HostV { clipboard: None, ..h },
        ActionV::WriteClipboard(s) => HostV { clipboard: Some(s), ..h },
        ActionV::PostPress(p) => press_effect(h, p),
        ActionV::Pause(_) => h,
    }
}

/// The reply an action earns.
pub open spec fn perform_reply(h: HostV, a: ActionV) -> ReplyV {
    match a {
        ActionV::ReadClipboard => ReplyV::Clipboard(
            if h.lag > 0 {
                None
            } else {
                h.clipboard
            },
        ),
        ActionV::PostPress(_) => ReplyV::Posted(h.posts_ok),
        _ => ReplyV::Ack,
    }
}

impl ModelHost {
    /// The selection never reaches past the start of the modelled text.
    pub open spec fn wf(&self) -> bool {
        self@.sel <= self@.doc.len()
    }

    /// A quiet host: reads are current, presses succeed, nothing logged.
    pub fn new(clipboard: Option<Vec<char>>, doc: Vec<char>) -> (h: ModelHost)
        ensures
            h@ == (HostV {
                clipboard: clip_view(clipboard),
                doc: doc@,
                sel: 0,
                log: Seq::<KeyPress>::empty(),
                lag: 0,
                posts_ok: true,
            }),
            h.wf(),
    {
        let h = ModelHost { clipboard, doc, sel: 0, log: Vec::new(), lag: 0, posts_ok: true };
        proof {
            assert(h@ =~= HostV {
                clipboard: clip_view(h.clipboard),
                doc: h.doc@,
                sel: 0,
                log: Seq::<KeyPress>::empty(),
                lag: 0,
                posts_ok: true,
            });
        }
        h
    }

    /// Perform one action and answer it.
    pub fn perform(&mut self, a: Action) -> (r: Reply)
        requires
            old(self).wf(),
        ensures
            final(self)@ == perform_post(old(self)@, a@),
            r@ == perform_reply(old(self)@, a@),
            final(self).wf(),
    {
        match a {
            Action::ReadClipboard => {
                if self.lag > 0 {
                    self.lag = self.lag - 1;
                    Reply::Clipboard(None)
                } else {
                    let c = clone_clip(&self.clipboard);
                    proof {
                        assert(self@ =~= perform_post(old(self)@, a@));
                    }
                    Reply::Clipboard(c)
                }
            },
            Action::ClearClipboard => {
                self.clipboard = None;
                Reply::Ack
            },
            Action::WriteClipboard(v) => {
                self.clipboard = Some(v);
                Reply::Ack
            },
            Action::Pause(_ms) => Reply::Ack,
            Action::PostPress(p) => {
                if !self.posts_ok {
                    return Reply::Posted(false);
                }
                self.log.push(p);
                if p == crate::keys::shift_enter() {
                    self.doc.push('\n');
                    self.sel = 0;
                } else if p == (KeyPress { code: crate::keys::KEY_TAB, shift: false, command: false }) {
                    self.doc.push('\t');
                    self.sel = 0;
                } else if p == crate::keys::cmd_v() {
                    let pasted = clone_clip(&self.clipboard);
                    match pasted {
                        Some(v) => append_chars(&mut self.doc, &v),
                        None => (),
                    }
                    self.sel = 0;
                } else if p == crate::keys::backspace() {
                    if self.doc.len() > 0 {
                        let _ = self.doc.pop();
                    }
                    self.sel = 0;
                } else if p == crate::keys::select_left() {
                    if self.sel < self.doc.len() {
                        self.sel = self.sel + 1;
                    }
                } else if p == crate::keys::move_right() {
                    self.sel = 0;
                } else if p == crate::keys::cmd_c() {
                    if self.sel > 0 {
                        let copied = tail_chars(&self.doc, self.sel);
                        self.clipboard = Some(copied);
                    }
                }
                proof {
                    assert(self@ =~= press_effect(old(self)@, p));
                }
                Reply::Posted(true)
            },
        }
    }
}

/// A copy of the clipboard's text slot.
fn clone_clip(c: &Option<Vec<char>>) -> (r: Option<Vec<char>>)
    ensures
        clip_view(r) == clip_view(*c),
{
    match c {
        Some(v) => {
            let w = v.clone();
            proof {
                assert(w@ =~= v@);
            }
            Some(w)
        },
        None => None,
    }
}

/// Append `src` to `dst`.
fn append_chars(dst: &mut Vec<char>, src: &Vec<char>)
    ensures
        final(dst)@ == old(dst)@ + src@,
{
    let mut i: usize = 0;
    while i < src.len()
        invariant
            i <= src.len(),
            dst@ =~= old(dst)@ + src@.subrange(0, i as int),
        decreases src.len() - i,
    {
        dst.push(src[i]);
        proof {
            assert(dst@ =~= old(dst)@ + src@.subrange(0, i + 1 as int));
        }
        i = i + 1;
    }
    proof {
        assert(src@.subrange(0, src@.len() as int) =~= src@);
    }
}

/// The last `k` characters of `v`.
fn tail_chars(v: &Vec<char>, k: usize) -> (r: Vec<char>)
    requires
        k <= v.len(),
    ensures
        r@ == v@.subrange(v@.len() - k, v@.len() as int),
{
    let start: usize = v.len() - k;
    let mut r: Vec<char> = Vec::new();
    let mut i: usize = start;
    while i < v.len()
        invariant
            start == v.len() - k,
            start <= i <= v.len(),
            r@ =~= v@.subrange(start as int, i as int),
        decreases v.len() - i,
    {
        r.push(v[i]);
        proof {
            assert(r@ =~= v@.subrange(start as int, i + 1 as int));
        }
        i = i + 1;
    }
    r
}

} // verus!
