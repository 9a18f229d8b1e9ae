use vstd::prelude::*;

use std::sync::{Arc, PoisonError, RwLock, RwLockReadGuard, RwLockWriteGuard};

use crate::errors::{Error, ErrorKind};

verus! {

/// std's reader/writer lock, carried opaquely.
#[verifier::external_type_specification]
#[verifier::external_body]
#[verifier::reject_recursive_types(T)]
pub struct ExRwLock<T: ?Sized>(RwLock<T>);

/// The guard of a shared view of a `RwLock`, carried opaquely.
#[verifier::external_type_specification]
#[verifier::external_body]
#[verifier::reject_recursive_types(T)]
pub struct ExRwLockReadGuard<'a, T: ?Sized>(RwLockReadGuard<'a, T>);

/// The guard of an exclusive view of a `RwLock`, carried opaquely.
#[verifier::external_type_specification]
#[verifier::external_body]
#[verifier::reject_recursive_types(T)]
pub struct ExRwLockWriteGuard<'a, T: ?Sized + 'a>(RwLockWriteGuard<'a, T>);

/// The error of an access to a poisoned `RwLock`, carried opaquely.
#[verifier::external_type_specification]
#[verifier::external_body]
#[verifier::reject_recursive_types(T)]
pub struct ExPoisonError<T>(PoisonError<T>);

/// Relies on RwLock::new: a lock, not poisoned, that holds `value`.
#[verifier::external_body]
fn new_lock<R>(value: R) -> RwLock<R> {
    RwLock::new(value)
}

/// Relies on Arc::clone: another handle on the same allocation.
#[verifier::external_body]
fn share_lock<R>(lock: &Arc<RwLock<R>>) -> Arc<RwLock<R>> {
    Arc::clone(lock)
}

/// Relies on RwLock::read: blocks until no writer holds the lock, and fails with a
/// `PoisonError` when a writer panicked while holding it.
#[verifier::external_body]
fn lock_read<R>(lock: &RwLock<R>) -> Result<RwLockReadGuard<'_, R>, PoisonError<RwLockReadGuard<'_, R>>> {
    lock.read()
}

/// Relies on RwLock::write: blocks until nobody holds the lock, and fails with a
/// `PoisonError` when a writer panicked while holding it.
#[verifier::external_body]
fn lock_write<R>(lock: &RwLock<R>) -> Result<RwLockWriteGuard<'_, R>, PoisonError<RwLockWriteGuard<'_, R>>> {
    lock.write()
}

/// A value that several owners share across threads: any number of readers at a time, or one
/// writer. Cloning a handle shares the same value.
#[verifier::reject_recursive_types(R)]
pub struct Shared<R> {
    inner: Arc<RwLock<R>>,
}

/// The error of an access to a lock that a panicking writer left poisoned.
pub open spec fn is_poisoned(e: Error) -> bool {
    e.kind is PoisonedLock
}

fn poisoned() -> (e: Error)
    ensures
        is_poisoned(e),
{
    Error {
        kind: ErrorKind::PoisonedLock {
            message: "a writer panicked while it held the lock".to_owned(),
        },
    }
}

impl<R> Shared<R> {
    pub fn new(value: R) -> Shared<R> {
        Shared { inner: Arc::new(new_lock(value)) }
    }

    /// Another handle on the same value.
    pub fn share(&self) -> Shared<R> {
        Shared { inner: share_lock(&self.inner) }
    }

    /// A shared view of the value, held until the guard is dropped. Fails with `PoisonedLock`
    /// when a writer panicked in the middle of a mutation.
    pub fn read(&self) -> (r: Result<RwLockReadGuard<'_, R>, Error>)
        ensures
            r matches Err(e) ==> is_poisoned(e),
    {
        match lock_read(&*self.inner) {
            Ok(guard) => Ok(guard),
            Err(_) => Err(poisoned()),
        }
    }

    /// An exclusive view of the value, held until the guard is dropped. Fails with
    /// `PoisonedLock` when a writer panicked in the middle of a mutation.
    pub fn write(&self) -> (r: Result<RwLockWriteGuard<'_, R>, Error>)
        ensures
            r matches Err(e) ==> is_poisoned(e),
    {
        match lock_write(&*self.inner) {
            Ok(guard) => Ok(guard),
            Err(_) => Err(poisoned()),
        }
    }
}

impl<R> Clone for Shared<R> {
    /// Another handle on the same value.
    fn clone(&self) -> Self {
        self.share()
    }
}

/// Puts a value into a [`Shared`] cell.
pub trait IntoShared<T> {
    fn to_shared(self) -> Shared<T>;
}

impl<T> IntoShared<T> for T {
    fn to_shared(self) -> Shared<T> {
        Shared::new(self)
    }
}

} // verus!
