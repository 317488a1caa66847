//! The context that a canister's code works in, passed to it by whoever
//! runs the canister.

use crate::storage::{offered, Storage};
use vstd::prelude::*;

verus! {

/// A context with the place of the canister's state.
pub struct IcContext<T> {
    /// The storage for this context.
    storage: Storage<T>,
}

impl<T> IcContext<T> {
    /// The state that the context holds.
    pub closed spec fn held(&self) -> Option<T> {
        self.storage.held()
    }

    /// A context that holds no state yet.
    pub fn new() -> (context: IcContext<T>)
        ensures
            context.held() is None,
    {
        IcContext { storage: Storage::new() }
    }

    /// Removes the state. Returns whether there was any.
    pub fn delete(&mut self) -> (removed: bool)
        ensures
            removed == old(self).held() is Some,
            final(self).held() is None,
    {
        self.storage.clear()
    }
}

impl<T: Default> IcContext<T> {
    /// A mutable reference to the state, which is first set to the type's
    /// default where there is none. What the caller writes through the
    /// reference is what the context holds afterwards.
    pub fn get_mut(&mut self) -> (value: &mut T)
        ensures
            offered(old(self).held(), *value),
            final(self).held() == Some(*final(value)),
    {
        self.storage.get_mut()
    }
}

} // verus!
