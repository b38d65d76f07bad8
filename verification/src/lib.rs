//! Small synchronization building blocks with verified state models: a
//! shared-ownership cell with owning and weak handles and a two-counter
//! lifecycle protocol (`arc`), a single-use handoff channel
//! (`one_shot_channel`), and a mutual-exclusion lock (below). Each component
//! is modelled as a passive value whose operations carry exact contracts, so
//! the lifecycle rules — when a payload is destroyed, when a block is freed,
//! when exclusive access is allowed — are machine-checked.

use vstd::prelude::*;

pub mod arc;
pub mod one_shot_channel;

verus! {

/// A mutual-exclusion lock, modelled sequentially: holding the lock is
/// represented by ownership of a guard that has taken the stored value out of
/// the lock, so exclusive access is an ownership fact rather than the outcome
/// of a runtime race on an atomic flag.
pub struct SpinLock<T> {
    locked: bool,
    value: Option<T>,
}

/// Witness that the lock is held; it owns the guarded value until it is given
/// back through `unlock`.
pub struct SpinLockGuard<T> {
    value: T,
}

impl<T> View for SpinLockGuard<T> {
    type V = T;

    closed spec fn view(&self) -> T {
        self.value
    }
}

impl<T> SpinLock<T> {
    pub closed spec fn is_locked(&self) -> bool {
        self.locked
    }

    pub closed spec fn stored(&self) -> Option<T> {
        self.value
    }

    /// The lock stores the value exactly while nobody holds it.
    pub open spec fn wf(&self) -> bool {
        self.is_locked() <==> self.stored() is None
    }

    pub fn new(value: T) -> (lock: SpinLock<T>)
        ensures
            lock.wf(),
            !lock.is_locked(),
            lock.stored() == Some(value),
    {
        SpinLock { locked: false, value: Some(value) }
    }

    /// Acquire the lock and hand out the stored value in a guard. Acquiring a
    /// lock that is already held would spin until the holder releases it; in
    /// this sequential model no other holder can ever release it, so that case
    /// is excluded up front.
    pub fn lock(&mut self) -> (guard: SpinLockGuard<T>)
        requires
            old(self).wf(),
            !old(self).is_locked(),
        ensures
            final(self).wf(),
            final(self).is_locked(),
            old(self).stored() == Some(guard@),
    {
        self.locked = true;
        let value = self.value.take().unwrap();
        SpinLockGuard { value }
    }

    /// Release the lock, storing the (possibly updated) guarded value back.
    pub fn unlock(&mut self, guard: SpinLockGuard<T>)
        requires
            old(self).wf(),
            old(self).is_locked(),
        ensures
            final(self).wf(),
            !final(self).is_locked(),
            final(self).stored() == Some(guard@),
    {
        self.locked = false;
        self.value = Some(guard.value);
    }
}

impl<T> SpinLockGuard<T> {
    /// Read access to the guarded value while the lock is held.
    pub fn deref(&self) -> (r: &T)
        ensures
            *r == self@,
    {
        &self.value
    }

    /// Write access to the guarded value while the lock is held.
    pub fn deref_mut(&mut self) -> (r: &mut T)
        ensures
            *r == old(self)@,
            final(self)@ == *final(r),
    {
        &mut self.value
    }
}

} // verus!
