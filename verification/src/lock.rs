use vstd::prelude::*;

use futures::sync::{BiLock, BiLockAcquire, BiLockAcquired};

verus! {

#[verifier::external_type_specification]
#[verifier::external_body]
#[verifier::reject_recursive_types(T)]
pub struct ExBiLock<T>(BiLock<T>);

#[verifier::external_type_specification]
#[verifier::external_body]
#[verifier::reject_recursive_types(T)]
pub struct ExBiLockAcquire<T>(BiLockAcquire<T>);

#[verifier::external_type_specification]
#[verifier::external_body]
#[verifier::reject_recursive_types(T)]
pub struct ExBiLockAcquired<T>(BiLockAcquired<T>);

/// `futures::sync::BiLock::new`: the two handles of a lock that guards `t`.
/// The handles are opaque here: nothing is claimed of them.
#[verifier::external_body]
pub(crate) fn bilock_new<T>(t: T) -> (BiLock<T>, BiLock<T>) {
    BiLock::new(t)
}

/// `futures::sync::BiLock::lock`: the future that acquires the lock.
/// Opaque here: nothing is claimed of it.
#[verifier::external_body]
pub(crate) fn bilock_lock<T>(lock: BiLock<T>) -> BiLockAcquire<T> {
    lock.lock()
}

/// `futures::sync::BiLockAcquired::unlock`: releases an acquired lock and
/// gives its handle back.  Opaque here: nothing is claimed of it.
#[verifier::external_body]
pub(crate) fn bilock_unlock<T>(acquired: BiLockAcquired<T>) -> BiLock<T> {
    acquired.unlock()
}

} // verus!
