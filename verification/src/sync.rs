//! The locks that guard the shared board and the shared random source.
//!
//! A lock says nothing about what it holds: between two calls any other
//! caller may have written to it. So the functions here promise nothing
//! about the values that they hand out, beyond their types. What a lock was
//! made with is another matter: that never changes, and the functions that
//! make the locks say what it is.
//!
//! The functions that wait for a lock come back once the lock is free. They
//! are for callers that hold no guard of the same lock: [`crate::session`]
//! holds one guard at a time and never asks for a lock under it.

use crate::board::Board;
use crate::grid::Grid;
use crate::random::RandomSource;
use parking_lot::lock_api;
use parking_lot::{
    Mutex, MutexGuard, RawMutex, RawRwLock, RwLock, RwLockUpgradableReadGuard,
};
use vstd::prelude::*;

verus! {

/// `parking_lot::RawRwLock`, the state of a lock for readers and writers.
#[verifier::external_type_specification]
#[verifier::external_body]
pub struct ExRawRwLock(RawRwLock);

/// `parking_lot::RawMutex`, the state of a lock for one holder.
#[verifier::external_type_specification]
#[verifier::external_body]
pub struct ExRawMutex(RawMutex);

/// `lock_api::RwLock`, of which `parking_lot::RwLock` is an instance.
#[verifier::external_type_specification]
#[verifier::external_body]
#[verifier::reject_recursive_types(R)]
#[verifier::reject_recursive_types(T)]
pub struct ExRwLock<R, T: ?Sized>(lock_api::RwLock<R, T>);

/// `lock_api::Mutex`, of which `parking_lot::Mutex` is an instance.
#[verifier::external_type_specification]
#[verifier::external_body]
#[verifier::reject_recursive_types(R)]
#[verifier::reject_recursive_types(T)]
pub struct ExMutex<R, T: ?Sized>(lock_api::Mutex<R, T>);

/// An `RwLockUpgradableReadGuard` on the board: shared access of the one
/// kind that can be made exclusive. While it lives, readers come and go, and
/// no one else can write to the board or hold such a guard. The guard's
/// own type is bounded by a trait of `lock_api`, so it stands in a field
/// that the verifier does not look into.
#[verifier::external_body]
pub(crate) struct BoardGuard<'a> {
    guard: RwLockUpgradableReadGuard<'a, Board>,
}

/// A `MutexGuard` on the random source: exclusive access to it. Its type is
/// bounded by a trait of `lock_api` as well.
#[verifier::external_body]
pub(crate) struct SourceGuard<'a> {
    guard: MutexGuard<'a, RandomSource>,
}

/// The grid of the board that the lock was made with. It tells how the lock
/// started, not what it holds now: whatever is written to the lock later,
/// this stays as it is.
pub uninterp spec fn first_board(lock: RwLock<Board>) -> Grid;

/// The booleans that were to come from the random source that the lock was
/// made with. It tells how the lock started, not what it holds now.
pub uninterp spec fn first_draws(lock: Mutex<RandomSource>) -> Map<nat, bool>;

/// `RwLock::new`: a lock that is free and holds the board that it is
/// given.
#[verifier::external_body]
pub(crate) fn board_lock(board: Board) -> (lock: RwLock<Board>)
    ensures
        first_board(lock) == board@,
{
    RwLock::new(board)
}

/// `Mutex::new`: a lock that is free and holds the random source that it is
/// given.
#[verifier::external_body]
pub(crate) fn source_lock(source: RandomSource) -> (lock: Mutex<RandomSource>)
    ensures
        first_draws(lock) == source@,
{
    Mutex::new(source)
}

/// `RwLock::read`: waits for shared access, copies the board out, and lets
/// go.
#[verifier::external_body]
pub(crate) fn read_board(lock: &RwLock<Board>) -> Board {
    *lock.read()
}

/// `RwLock::write`: waits for exclusive access, puts the board in, and lets
/// go.
#[verifier::external_body]
pub(crate) fn write_board(lock: &RwLock<Board>, board: Board) {
    *lock.write() = board;
}

/// `RwLock::upgradable_read`: waits for upgradable access to the board.
#[verifier::external_body]
pub(crate) fn upgradable_read<'a>(lock: &'a RwLock<Board>) -> BoardGuard<'a> {
    BoardGuard { guard: lock.upgradable_read() }
}

/// The guard's `Deref::deref`: the board under an upgradable guard, copied
/// out.
#[verifier::external_body]
pub(crate) fn guarded_board(guard: &BoardGuard<'_>) -> Board {
    *guard.guard
}

/// `RwLockUpgradableReadGuard::upgrade`: makes the access exclusive without
/// letting go of the lock in between, puts the board in, and lets go.
#[verifier::external_body]
pub(crate) fn upgrade_and_write(guard: BoardGuard<'_>, board: Board) {
    *RwLockUpgradableReadGuard::upgrade(guard.guard) = board;
}

/// `Mutex::lock`: waits for exclusive access to the random source.
#[verifier::external_body]
pub(crate) fn lock_source<'a>(lock: &'a Mutex<RandomSource>) -> SourceGuard<'a> {
    SourceGuard { guard: lock.lock() }
}

/// The guard's `DerefMut::deref_mut`: the random source under its guard.
#[verifier::external_body]
pub(crate) fn guarded_source<'a, 'b>(guard: &'a mut SourceGuard<'b>) -> &'a mut RandomSource {
    &mut *guard.guard
}

} // verus!
