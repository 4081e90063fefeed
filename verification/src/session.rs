//! The per-interaction state kept between a deferred insertion and the
//! host's accept or reject signal.

use crate::effects::clip_view;
use vstd::prelude::*;

verus! {

/// What a successful deferred insertion leaves behind: the clipboard text
/// captured before the insertion overwrote it, and the number of inserted
/// characters, which fixes how many Delete presses a rejection needs on
/// top of the two layout line breaks.
pub struct PendingInsert {
    pub saved: Option<Vec<char>>,
    pub chars: usize,
}

/// View of `PendingInsert`.
#[verifier::ext_equal]
pub struct PendingV {
    pub saved: Option<Seq<char>>,
    pub chars: usize,
}

impl View for PendingInsert {
    type V = PendingV;

    open spec fn view(&self) -> PendingV {
        PendingV { saved: clip_view(self.saved), chars: self.chars }
    }
}

/// The state a host owns across one edit interaction.  At most one
/// insertion is pending at a time; a new successful deferred insertion
/// overwrites it, and accept or reject consumes it.
pub struct Session {
    pub pending: Option<PendingInsert>,
}

impl View for Session {
    type V = Option<PendingV>;

    open spec fn view(&self) -> Option<PendingV> {
        match self.pending {
            Some(p) => Some(p@),
            None => None,
        }
    }
}

impl Session {
    /// A session with nothing pending.
    pub fn new() -> (s: Session)
        ensures
            s@ is None,
    {
        Session { pending: None }
    }
}

} // verus!
