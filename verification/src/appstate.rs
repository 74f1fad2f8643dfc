//! A handle to state shared between pages: cloning it shares the state.

use std::sync::{Arc, RwLock, RwLockReadGuard, RwLockWriteGuard};
use vstd::prelude::*;

verus! {

/// `std::sync::RwLock`, carried through as an opaque lock.
#[verifier::external_type_specification]
#[verifier::external_body]
#[verifier::reject_recursive_types(T)]
pub struct ExRwLock<T: ?Sized>(RwLock<T>);

/// `std::sync::RwLockReadGuard`, carried through as an opaque guard.
#[verifier::external_type_specification]
#[verifier::external_body]
#[verifier::reject_recursive_types(T)]
pub struct ExRwLockReadGuard<'a, T: ?Sized>(RwLockReadGuard<'a, T>);

/// `std::sync::RwLockWriteGuard`, carried through as an opaque guard.
#[verifier::external_type_specification]
#[verifier::external_body]
#[verifier::reject_recursive_types(T)]
pub struct ExRwLockWriteGuard<'a, T: ?Sized + 'a>(RwLockWriteGuard<'a, T>);

/// Calls `RwLock::new`. Nothing is claimed of the lock: its content is
/// not visible to the proofs.
#[verifier::external_body]
fn lock_new<T>(value: T) -> RwLock<T> {
    RwLock::new(value)
}

/// Calls `RwLock::try_read`, which neither blocks nor panics: the guard
/// when shared access is free now, `None` when the lock is held for
/// writing or poisoned (the error is dropped). Which of the two comes back
/// depends on other holders of the lock, so nothing is claimed of it, nor
/// of the guard's content.
#[verifier::external_body]
fn lock_try_read<T>(lock: &RwLock<T>) -> Option<RwLockReadGuard<'_, T>> {
    lock.try_read().ok()
}

/// Calls `RwLock::try_write`, which neither blocks nor panics: the guard
/// when exclusive access is free now, `None` when the lock is held or
/// poisoned (the error is dropped). Nothing is claimed of which comes back,
/// nor of the guard's content.
#[verifier::external_body]
fn lock_try_write<T>(lock: &RwLock<T>) -> Option<RwLockWriteGuard<'_, T>> {
    lock.try_write().ok()
}

/// Calls `Arc::clone`: the result points at the same allocation.
#[verifier::external_body]
fn arc_share<T>(a: &Arc<T>) -> (r: Arc<T>)
    ensures
        r == *a,
{
    Arc::clone(a)
}

/// Shared, lockable state. Clones are handles to one value.
#[verifier::reject_recursive_types(T)]
pub struct AppState<T>(Arc<RwLock<T>>);

impl<T> AppState<T> {
    /// The lock that this handle shares.
    pub closed spec fn lock(&self) -> RwLock<T> {
        *self.0
    }

    pub fn new(state: T) -> Self {
        AppState(Arc::new(lock_new(state)))
    }

    /// The lock that this handle shares, for blocking access.
    pub fn rw_lock(&self) -> (r: &RwLock<T>)
        ensures
            *r == self.lock(),
    {
        &*self.0
    }

    /// Shared access to the state if it is free now, held until the guard
    /// is dropped; `None` while a writer holds it or once it is poisoned.
    /// Never blocks.
    pub fn try_read(&self) -> Option<RwLockReadGuard<'_, T>> {
        lock_try_read(&self.0)
    }

    /// Exclusive access to the state if it is free now, held until the
    /// guard is dropped; `None` while it is held or once it is poisoned.
    /// Never blocks.
    pub fn try_write(&self) -> Option<RwLockWriteGuard<'_, T>> {
        lock_try_write(&self.0)
    }
}

impl<T> Clone for AppState<T> {
    /// Another handle to the same state.
    fn clone(&self) -> (r: Self)
        ensures
            r.lock() == self.lock(),
    {
        AppState(arc_share(&self.0))
    }
}

} // verus!
