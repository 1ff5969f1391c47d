//! The lifetime bookkeeping of a registered event listener.
//!
//! A callback registered with a host event target must be deregistered
//! exactly once — when its wrapper is dropped — unless the caller chooses
//! to leak it so it lives forever. The decision is kept here, where it is
//! proved; performing the host calls is left to the wrapper that holds the
//! callback.

use vstd::prelude::*;

verus! {

/// Whether a listener registration still owns its callback.
///
/// A fresh registration owns it; forgetting gives it up for good, so the
/// listener lives forever; a drop deregisters exactly when the callback is
/// still owned, and never twice.
pub struct ListenerLifecycle {
    registered: bool,
}

impl ListenerLifecycle {
    /// Whether the registration still owns its callback.
    pub closed spec fn is_registered(&self) -> bool {
        self.registered
    }

    /// A new registration: the callback is owned, and a drop would
    /// deregister it.
    pub fn new() -> (r: ListenerLifecycle)
        ensures
            r.is_registered(),
    {
        ListenerLifecycle { registered: true }
    }

    /// Keeps the listener alive forever: a later drop deregisters nothing.
    pub fn forget(&mut self)
        ensures
            !final(self).is_registered(),
    {
        self.registered = false;
    }

    /// Decides at drop whether the callback must be deregistered now: yes
    /// exactly when it is still owned. Afterwards it no longer is, so the
    /// decision cannot come out yes twice.
    pub fn take_for_removal(&mut self) -> (remove: bool)
        ensures
            remove == old(self).is_registered(),
            !final(self).is_registered(),
    {
        let r = self.registered;
        self.registered = false;
        r
    }
}

} // verus!
