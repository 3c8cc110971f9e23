//! The lifecycle guard: owns a running process and gives it up exactly once.

use vstd::prelude::*;

verus! {

/// A token standing for one spawned operating-system process.
///
/// The supervisor never inspects the process; it only hands the token
/// back to its caller when the process must be killed and reaped. The
/// identifier ties the token to the caller's own record of the child.
pub struct ProcessHandle {
    pub id: u64,
}

/// Owns at most one [`ProcessHandle`] and releases it at most once.
///
/// The guard is created when the backend becomes ready and is emptied
/// exactly once, either by an explicit shutdown or by the teardown that
/// runs when the owning scope ends. A second teardown finds the slot
/// empty and does nothing, so the process is never killed twice.
pub struct LifecycleGuard {
    slot: Option<ProcessHandle>,
}

impl LifecycleGuard {
    /// The identifier of the process this guard still owns, if any.
    pub closed spec fn owned(&self) -> Option<u64> {
        match self.slot {
            Some(h) => Some(h.id),
            None => None,
        }
    }

    /// Takes ownership of a freshly started process.
    pub fn acquire(handle: ProcessHandle) -> (g: Self)
        ensures
            g.owned() == Some(handle.id),
    {
        LifecycleGuard { slot: Some(handle) }
    }

    /// Whether the guard still owns a process.
    pub fn is_armed(&self) -> (r: bool)
        ensures
            r <==> self.owned() is Some,
    {
        match self.slot {
            Some(_) => true,
            None => false,
        }
    }

    /// Empties the guard and hands back the handle to be killed and
    /// reaped, if the guard still owned one.
    ///
    /// After the call the guard owns nothing, so a repeated teardown
    /// returns `None` and never surrenders a handle twice.
    pub fn teardown(&mut self) -> (taken: Option<ProcessHandle>)
        ensures
            final(self).owned() is None,
            old(self).owned() matches Some(id) ==> taken matches Some(h) && h.id == id,
            old(self).owned() is None ==> taken is None,
    {
        let taken = self.slot.take();
        taken
    }
}

} // verus!
