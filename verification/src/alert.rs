//! The alert flag shared between the sampling and the presentation activity.
//!
//! The flag says "the user sits too close". One activity writes it after every
//! posture check; the other reads it to show or hide its alert. Every access
//! goes through a reader/writer lock that never leaves this type, so the flag
//! is never seen half-written.

use vstd::prelude::*;
use vstd::rwlock::RwLock;

verus! {

/// The shared "too close" flag behind its lock.
pub struct SharedAlertState {
    flag: RwLock<bool, spec_fn(bool) -> bool>,
}

impl SharedAlertState {
    #[verifier::type_invariant]
    spec fn wf(self) -> bool {
        forall|v: bool| self.flag.inv(v)
    }

    /// A fresh state: not too close.
    pub fn new() -> (s: SharedAlertState) {
        let flag = RwLock::new(false, Ghost(|v: bool| true));
        SharedAlertState { flag }
    }

    /// Overwrite the flag.
    pub fn set(&self, too_close: bool) {
        proof {
            use_type_invariant(self);
        }
        let (_previous, handle) = self.flag.acquire_write();
        handle.release_write(too_close);
    }

    /// Read the flag as last written.
    pub fn get(&self) -> bool {
        let handle = self.flag.acquire_read();
        let value = *handle.borrow();
        handle.release_read();
        value
    }

    /// Publish a check's outcome: the alert is raised exactly when the
    /// posture check failed.
    pub fn publish_check(&self, posture_ok: bool) -> (alerted: bool)
        ensures
            alerted == !posture_ok,
    {
        let too_close = !posture_ok;
        self.set(too_close);
        too_close
    }
}

} // verus!
