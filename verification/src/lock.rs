//! The reader/writer lock of the standard library, as far as the interner
//! uses it.
//!
//! What a lock guards changes under a shared reference, so no contract here
//! says anything of it: a value borrowed from a guard is known only by what
//! holds of every value of its type.

use std::ops::{Deref, DerefMut};
use std::sync::{PoisonError, RwLock, RwLockReadGuard, RwLockWriteGuard};
use vstd::prelude::*;

verus! {

/// `std::sync::RwLock`, opaque.
#[verifier::external_type_specification]
#[verifier::external_body]
#[verifier::reject_recursive_types(T)]
pub struct ExRwLock<T: ?Sized>(RwLock<T>);

/// `std::sync::RwLockReadGuard`, opaque: shared access until it is dropped.
#[verifier::external_type_specification]
#[verifier::external_body]
#[verifier::reject_recursive_types(T)]
pub struct ExRwLockReadGuard<'a, T: ?Sized>(RwLockReadGuard<'a, T>);

/// `std::sync::RwLockWriteGuard`, opaque: exclusive access until it is
/// dropped.
#[verifier::external_type_specification]
#[verifier::external_body]
#[verifier::reject_recursive_types(T)]
pub struct ExRwLockWriteGuard<'a, T: ?Sized + 'a>(RwLockWriteGuard<'a, T>);

/// `std::sync::PoisonError`, opaque: it carries the guard that a poisoned
/// lock still hands out.
#[verifier::external_type_specification]
#[verifier::external_body]
#[verifier::reject_recursive_types(T)]
pub struct ExPoisonError<T>(PoisonError<T>);

/// `RwLock::new` wraps a value in an unlocked lock. Nothing is claimed of
/// the result.
pub assume_specification<T>[ RwLock::<T>::new ](value: T) -> (lock: RwLock<T>)
;

/// `RwLock::read` blocks until shared access is granted. The result is
/// `Err` when a writer panicked while it held the lock; the error still
/// carries the guard. Nothing is claimed of the guard. The call may panic or
/// never return where the calling thread holds a guard of the same lock.
pub assume_specification<'a, T: ?Sized>[ RwLock::<T>::read ](lock: &'a RwLock<T>) -> (granted:
    Result<RwLockReadGuard<'a, T>, PoisonError<RwLockReadGuard<'a, T>>>)
;

/// `RwLock::write` blocks until exclusive access is granted. The result is
/// `Err` when a writer panicked while it held the lock; the error still
/// carries the guard. Nothing is claimed of the guard. The call may panic or
/// never return where the calling thread holds a guard of the same lock.
pub assume_specification<'a, T: ?Sized>[ RwLock::<T>::write ](lock: &'a RwLock<T>) -> (granted:
    Result<RwLockWriteGuard<'a, T>, PoisonError<RwLockWriteGuard<'a, T>>>)
;

/// `PoisonError::into_inner` hands out the guard that the error carries.
pub assume_specification<T>[ PoisonError::<T>::into_inner ](poisoned: PoisonError<T>) -> (guard: T)
;

/// `Deref::deref` of a read guard borrows the guarded value for as long as
/// the guard is borrowed. Nothing is claimed of the value.
#[verifier::external_body]
pub(crate) fn shared<'a, T>(guard: &'a RwLockReadGuard<'_, T>) -> (guarded: &'a T) {
    guard.deref()
}

/// `DerefMut::deref_mut` of a write guard borrows the guarded value mutably
/// for as long as the guard is borrowed. Nothing is claimed of the value.
#[verifier::external_body]
pub(crate) fn exclusive<'a, T>(guard: &'a mut RwLockWriteGuard<'_, T>) -> (guarded: &'a mut T) {
    guard.deref_mut()
}

} // verus!
