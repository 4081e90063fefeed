//! Clipboard-mediated ghost-text insertion for a host editor.
//!
//! The library captures the decision logic of a small native helper that
//! inserts AI-suggested "ghost text" at the caret of whatever application
//! has input focus.  The helper works by synthesising keyboard events
//! (Shift+Return for layout, Command+V to paste, Delete to retract) and by
//! staging text through the system clipboard, verifying each clipboard
//! write by reading it back before the paste event is posted.
//!
//! The operating system's event tap and pasteboard are reached only from
//! the surrounding application: every protocol here is a step machine that
//! names the next effect to perform (`Action`) and consumes the effect's
//! result (`Reply`).  The driver that talks to the real pasteboard performs
//! each action and feeds the reply back into the machine.  A verified
//! in-memory host (`ModelHost`) performs the same actions against a model
//! clipboard and document, which is what the contracts and the laws in
//! `laws` are proved against.
//!
//! Text is handled as `Vec<char>` — a sequence of Unicode scalar values —
//! because the retraction protocol counts characters, not bytes.

pub mod effects;
pub mod focus;
pub mod insert;
pub mod keys;
pub mod laws;
pub mod mediator;
pub mod model;
pub mod reader;
pub mod resolve;
pub mod session;
