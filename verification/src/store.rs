//! The single-value store for the current device state.
//!
//! Reads and writes are last-writer-wins; a reader observes either the
//! previous or the new value, never a partial one. Durable backing (the
//! persisted `status` record) is the embedder's concern: it mirrors every
//! write of this store to storage and rebuilds the store from storage at
//! startup, so the persistence mechanism stays decoupled from the state
//! machine.

use vstd::prelude::*;
use crate::state::DeviceState;

verus! {

/// Holds the device's current state, the single source of truth for its
/// observable status.
pub struct StateStore {
    state: DeviceState,
}

impl StateStore {
    /// The stored value.
    pub closed spec fn spec_state(&self) -> DeviceState {
        self.state
    }

    /// A store seeded with `initial`.
    pub fn new(initial: DeviceState) -> (s: StateStore)
        ensures
            s.spec_state() == initial,
    {
        StateStore { state: initial }
    }

    /// Returns the current state.
    pub fn read(&self) -> (r: DeviceState)
        ensures
            r == self.spec_state(),
    {
        self.state
    }

    /// Replaces the current state.
    pub fn write(&mut self, s: DeviceState)
        ensures
            final(self).spec_state() == s,
    {
        self.state = s;
    }
}

} // verus!
