//! The dirty-buffer guard: a per-object marker proving that an object's
//! per-frame buffer was refreshed for the current frame parity before it is
//! drawn for that parity.
//!
//! The original protocol is a debug-only assertion; here the check is a
//! precondition of [`DirtyBufferGuard::assert_updated`], so a verified
//! caller cannot draw an object whose buffers were not refreshed for the
//! frame being recorded (for example an object created mid-frame, after the
//! update pass already ran).

use vstd::prelude::*;

verus! {

/// Records which frame parity an object's geometry was last written for.
pub struct DirtyBufferGuard {
    last_updated: Option<usize>,
}

impl DirtyBufferGuard {
    /// The parity of the last write, if any write happened.
    pub closed spec fn last(self) -> Option<usize> {
        self.last_updated
    }

    /// True exactly when the last write was for parity `parity`.
    pub open spec fn marked(self, parity: usize) -> bool {
        self.last() == Some(parity)
    }

    /// A fresh guard: no write recorded yet, so no draw is allowed.
    pub fn new() -> (r: Self)
        ensures
            r.last() == Option::<usize>::None,
    {
        DirtyBufferGuard { last_updated: None }
    }

    /// Records that the buffers were written for parity `parity`.
    pub fn mark_updated(&mut self, parity: usize)
        ensures
            final(self).last() == Some(parity),
    {
        self.last_updated = Some(parity);
    }

    /// True exactly when the buffers were last written for `parity`.
    pub fn check_updated(&self, parity: usize) -> (r: bool)
        ensures
            r == self.marked(parity),
    {
        match self.last_updated {
            Some(p) => p == parity,
            None => false,
        }
    }

    /// The draw-time check: a draw for parity `parity` must observe that the
    /// last write was for the same parity. Violations are contract bugs, so
    /// the check is a precondition rather than a recoverable error.
    pub fn assert_updated(&self, parity: usize)
        requires
            self.marked(parity),
    {
    }
}

/// The guard never rejects a draw that follows a matching write, and always
/// rejects one without a matching write: `marked(p)` holds exactly when the
/// most recent `mark_updated` was for `p` — so never for a fresh guard, and
/// never after a write for a different parity.
pub proof fn lemma_dirty_guard_soundness(g: DirtyBufferGuard, p: usize, q: usize)
    ensures
        g.marked(p) <==> g.last() == Some(p),
        g.last() == Option::<usize>::None ==> !g.marked(p),
        g.last() == Some(q) && q != p ==> !g.marked(p),
{
}

} // verus!
