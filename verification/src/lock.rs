//! The reader/writer lock that guards the shared store.
//!
//! The lock is `parking_lot::RwLock`. Any number of readers hold it
//! together; a writer holds it alone. The items here are taken on trust.
//! None of them says what the guarded `Db` holds: that is for the holders of
//! the lock before to have decided.

use crate::db::Db;
use parking_lot::lock_api::RwLock;
use parking_lot::RawRwLock;
use std::sync::Arc;
use vstd::prelude::*;

verus! {

/// `parking_lot::RawRwLock`: the lock without the data.
#[verifier::external_type_specification]
#[verifier::external_body]
pub struct ExRawRwLock(RawRwLock);

/// `lock_api::RwLock`, which `parking_lot::RwLock` is with `RawRwLock` for
/// `R`: the lock with the data it guards.
#[verifier::external_type_specification]
#[verifier::external_body]
#[verifier::reject_recursive_types(R)]
#[verifier::reject_recursive_types(T)]
pub struct ExRwLock<R, T: ?Sized>(RwLock<R, T>);

/// A shared hold on the lock: a `parking_lot::RwLockReadGuard`, which
/// releases the lock when it is dropped.
#[verifier::external_body]
pub(crate) struct ReadGuard<'a> {
    guard: parking_lot::RwLockReadGuard<'a, Db>,
}

/// An exclusive hold on the lock: a `parking_lot::RwLockWriteGuard`, which
/// releases the lock when it is dropped.
#[verifier::external_body]
pub(crate) struct WriteGuard<'a> {
    guard: parking_lot::RwLockWriteGuard<'a, Db>,
}

/// `RwLock::new`: an unlocked lock that guards `db`.
#[verifier::external_body]
pub(crate) fn new_lock(db: Db) -> RwLock<RawRwLock, Db> {
    RwLock::new(db)
}

/// `Arc::clone`: one more handle to the same lock.
#[verifier::external_body]
pub(crate) fn share_lock(lock: &Arc<RwLock<RawRwLock, Db>>) -> Arc<RwLock<RawRwLock, Db>> {
    Arc::clone(lock)
}

/// `RwLock::read`: waits until no writer holds the lock, then holds it
/// shared. The caller must hold no guard of the same lock.
#[verifier::external_body]
pub(crate) fn read_lock<'a>(lock: &'a RwLock<RawRwLock, Db>) -> ReadGuard<'a> {
    ReadGuard { guard: lock.read() }
}

/// `RwLock::write`: waits until nobody holds the lock, then holds it alone.
/// The caller must hold no guard of the same lock.
#[verifier::external_body]
pub(crate) fn write_lock<'a>(lock: &'a RwLock<RawRwLock, Db>) -> WriteGuard<'a> {
    WriteGuard { guard: lock.write() }
}

/// `RwLockReadGuard::deref`: the guarded store, to read.
#[verifier::external_body]
pub(crate) fn guarded<'a, 'b>(guard: &'b ReadGuard<'a>) -> &'b Db {
    &*guard.guard
}

/// `RwLockWriteGuard::deref_mut`: the guarded store, to change.
#[verifier::external_body]
pub(crate) fn guarded_mut<'a, 'b>(guard: &'b mut WriteGuard<'a>) -> &'b mut Db {
    &mut *guard.guard
}

} // verus!
