//! The lock of the standard library, as far as this crate uses it. Nothing
//! here is proved: the verifier takes these declarations as they stand.

use crate::counter::Counter;
use std::sync::LockResult;
use std::sync::Mutex;
use std::sync::MutexGuard;
use std::sync::PoisonError;
use vstd::prelude::*;

verus! {

/// `std::sync::Mutex`, opaque: what it holds can change under a shared
/// borrow, so no specification speaks of its present contents.
#[verifier::external_type_specification]
#[verifier::external_body]
#[verifier::reject_recursive_types(T)]
pub struct ExMutex<T: ?Sized>(Mutex<T>);

/// `std::sync::MutexGuard`, opaque: the proof that the lock is held. The
/// lock is released when the guard is dropped.
#[verifier::external_type_specification]
#[verifier::external_body]
#[verifier::reject_recursive_types(T)]
pub struct ExMutexGuard<'a, T: ?Sized + 'a>(MutexGuard<'a, T>);

/// `std::sync::PoisonError`, opaque: what `lock` returns in place of the
/// guard when an earlier holder panicked.
#[verifier::external_type_specification]
#[verifier::external_body]
#[verifier::reject_recursive_types(T)]
pub struct ExPoisonError<T>(PoisonError<T>);

/// The value of the counter that a lock was made with. It is a fact about
/// the lock's making and says nothing of what the lock holds later.
pub uninterp spec fn made_with(lock: Mutex<Counter>) -> int;

/// The value of the counter under a guard. While the guard lives no other
/// holder reaches the counter, so this changes only through a mutable borrow
/// of the guard itself.
pub uninterp spec fn held(guard: MutexGuard<'_, Counter>) -> int;

/// `Mutex::new` wraps the counter in an unlocked mutex. The contract records
/// the value that the counter had at that moment.
#[verifier::external_body]
pub(crate) fn new_lock(counter: Counter) -> (lock: Mutex<Counter>)
    ensures
        made_with(lock) == counter@,
{
    Mutex::new(counter)
}

/// `Mutex::lock` waits until the lock is free and returns its guard, or the
/// poison error if an earlier holder panicked while holding it. Which of the
/// two comes back, and what the counter under the guard holds, depends on the
/// other holders, so nothing is claimed of the result.
///
/// A thread that already holds the lock must not call this: `lock` might
/// then panic or never return. No `requires` can say so. The callers in this
/// crate hold one guard each and drop it before they return, and no guard
/// leaves the crate.
#[verifier::external_body]
pub(crate) fn acquire(lock: &Mutex<Counter>) -> (granted: LockResult<MutexGuard<'_, Counter>>) {
    lock.lock()
}

/// `Deref::deref` of a guard borrows the counter that the lock protects: the
/// counter under the guard.
#[verifier::external_body]
pub(crate) fn borrow_held<'a>(guard: &'a MutexGuard<'_, Counter>) -> (counter: &'a Counter)
    ensures
        counter@ == held(*guard),
{
    &**guard
}

/// `DerefMut::deref_mut` of a guard borrows the protected counter for
/// writing: it is the counter under the guard, and what the borrower leaves
/// in it is what the guard holds afterwards.
#[verifier::external_body]
pub(crate) fn borrow_held_mut<'a>(guard: &'a mut MutexGuard<'_, Counter>) -> (counter:
    &'a mut Counter)
    ensures
        counter@ == held(*old(guard)),
        final(counter)@ == held(*final(guard)),
{
    &mut **guard
}

} // verus!
