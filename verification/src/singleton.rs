//! The singleton state-manager pattern shared by every peripheral domain:
//! a process-wide optional holder of one manager's state.
//!
//! The holder starts empty, is filled once at startup by moving the state in
//! (re-initialization overwrites, it never merges), and is read afterwards
//! only through operations that copy plain snapshots out. The embedding
//! application wraps each holder in one mutual-exclusion lock per peripheral
//! domain and keeps every operation lock-scoped, so a status read always sees
//! one whole state value, never a partial update.

use vstd::prelude::*;

verus! {

/// Optional holder of one peripheral manager's state.
pub struct Singleton<S> {
    /// The held state; `None` until the peripheral was initialized.
    pub slot: Option<S>,
}

impl<S> Singleton<S> {
    /// True once a state has been moved in.
    pub open spec fn is_init(&self) -> bool {
        self.slot is Some
    }

    /// The held state; meaningful only when `is_init()`.
    pub open spec fn state(&self) -> S
        recommends
            self.is_init(),
    {
        self.slot->0
    }

    /// A holder that no initialization has reached yet.
    pub fn empty() -> (r: Singleton<S>)
        ensures
            !r.is_init(),
    {
        Singleton { slot: None }
    }

    /// Moves a state in, replacing whatever was held before.
    pub fn init(&mut self, state: S)
        ensures
            final(self).is_init(),
            final(self).state() == state,
    {
        self.slot = Some(state);
    }
}

} // verus!
