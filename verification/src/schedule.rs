//! Events the dispatcher hands to its listeners.

use vstd::prelude::*;

verus! {

/// An event for the dispatcher. Two events are the same exactly when the same
/// user reacted on the same message.
#[derive(Clone, Copy, Debug, PartialEq, Eq, Structural, Hash)]
pub enum DispatchEvent {
    /// A reaction: the message's id, then the reacting user's id.
    ReactEvent(u64, u64),
}

impl DispatchEvent {
    /// Whether `self` and `other` are the same user's reaction on the same message.
    pub fn same_reaction(&self, other: &DispatchEvent) -> (r: bool)
        ensures
            r == (*self == *other),
    {
        match (self, other) {
            (DispatchEvent::ReactEvent(m1, u1), DispatchEvent::ReactEvent(m2, u2)) => *m1 == *m2 && *u1 == *u2,
        }
    }
}

} // verus!
