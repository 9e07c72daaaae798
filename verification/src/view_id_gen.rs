//! Generation of unique view identifiers.

use vstd::prelude::*;

verus! {

/// A unique handle for one drawable widget instance.
pub type ViewId = usize;

/// Hands out view identifiers, monotonically increasing with no reuse.
pub struct ViewIdGen {
    /// The identifier the next call to [`ViewIdGen::next`] returns.
    pub next_id: ViewId,
}

impl ViewIdGen {
    /// Starts a fresh generator at identifier zero.
    pub fn new() -> (g: ViewIdGen)
        ensures
            g.next_id == 0,
    {
        ViewIdGen { next_id: 0 }
    }

    /// Returns a fresh identifier, never handed out before.
    pub fn next(&mut self) -> (id: ViewId)
        requires
            old(self).next_id < usize::MAX,
        ensures
            id == old(self).next_id,
            final(self).next_id == old(self).next_id + 1,
    {
        let id = self.next_id;
        self.next_id = self.next_id + 1;
        id
    }
}

} // verus!
