//! The shared state: the counter behind its lock, and the two commands that
//! reach it. The counter is private to the state and touched only while the
//! lock is held.

use crate::counter::Counter;
use crate::history::Command;
use crate::lock::acquire;
use crate::lock::borrow_held;
use crate::lock::borrow_held_mut;
use crate::lock::held;
use crate::lock::made_with;
use crate::lock::new_lock;
use std::sync::LockResult;
use std::sync::Mutex;
use std::sync::MutexGuard;
use vstd::prelude::*;

verus! {

/// Why a command could not be carried out.
#[derive(Debug, Clone, Copy, PartialEq, Eq, Structural)]
pub enum CounterError {
    /// An earlier holder of the lock panicked while holding it.
    Poisoned,
    /// The counter holds the largest value that fits and cannot grow.
    Overflow,
}

/// The state that the application manages for its whole lifetime.
pub struct AppState {
    counter: Mutex<Counter>,
}

impl AppState {
    /// The value that the counter had when the state was made.
    pub closed spec fn starts_at(&self) -> int {
        made_with(self.counter)
    }

    /// The state at startup: a fresh counter, which holds zero.
    pub fn new() -> (state: AppState)
        ensures
            state.starts_at() == 0,
    {
        AppState { counter: new_lock(Counter::new()) }
    }

    /// A state that goes on from `counter`.
    pub fn with_counter(counter: Counter) -> (state: AppState)
        ensures
            state.starts_at() == counter@,
    {
        AppState { counter: new_lock(counter) }
    }
}

/// Reads the counter under a guard and leaves it as it is: the guard is
/// borrowed shared.
pub fn read_guarded(guard: &MutexGuard<'_, Counter>) -> (value: i32)
    ensures
        value == Command::GetCounter.reply(held(*guard)),
        0 <= value,
{
    borrow_held(guard).get()
}

/// What `get_counter` answers to what the lock gave: the value of the
/// counter under the guard, or `Poisoned` where the lock gave no guard.
pub fn read_granted(granted: LockResult<MutexGuard<'_, Counter>>) -> (outcome: Result<
    i32,
    CounterError,
>)
    ensures
        match granted {
            Ok(guard) => {
                &&& outcome matches Ok(value)
                &&& value == Command::GetCounter.reply(held(guard))
                &&& 0 <= value
            },
            Err(_) => outcome == Err::<i32, CounterError>(CounterError::Poisoned),
        },
{
    match granted {
        Ok(guard) => Ok(read_guarded(&guard)),
        Err(_) => Err(CounterError::Poisoned),
    }
}

/// Takes the lock and reads the counter.
///
/// Whether the lock gives its guard, and what the counter under it holds,
/// depends on the commands that held the lock before. So the contract states
/// what holds of every answer of `read_granted`: a value that is read is
/// never negative, and the only error is `Poisoned`.
pub fn get_counter(state: &AppState) -> (outcome: Result<i32, CounterError>)
    ensures
        outcome matches Ok(value) ==> 0 <= value,
        outcome matches Err(error) ==> error == CounterError::Poisoned,
{
    read_granted(acquire(&state.counter))
}

/// What `increment_counter` does to the counter once it has it: it adds one
/// and answers with the new value, or reports that the counter is full and
/// leaves it alone.
pub fn increment_locked(counter: &mut Counter) -> (outcome: Result<i32, CounterError>)
    ensures
        match outcome {
            Ok(value) => {
                &&& old(counter)@ < i32::MAX
                &&& final(counter)@ == Command::IncrementCounter.apply(old(counter)@)
                &&& value == Command::IncrementCounter.reply(old(counter)@)
                &&& 1 <= value
            },
            Err(error) => {
                &&& error == CounterError::Overflow
                &&& old(counter)@ == i32::MAX
                &&& final(counter)@ == old(counter)@
            },
        },
{
    if counter.get() < i32::MAX {
        Ok(counter.increment())
    } else {
        Err(CounterError::Overflow)
    }
}

/// One increment of the counter under a guard: the guard then holds one
/// more and the answer is that new value, or the counter is full, the guard
/// holds what it held and the answer is `Overflow`.
pub fn increment_guarded(guard: &mut MutexGuard<'_, Counter>) -> (outcome: Result<
    i32,
    CounterError,
>)
    ensures
        match outcome {
            Ok(value) => {
                &&& held(*old(guard)) < i32::MAX
                &&& held(*final(guard)) == Command::IncrementCounter.apply(held(*old(guard)))
                &&& value == Command::IncrementCounter.reply(held(*old(guard)))
                &&& 1 <= value
            },
            Err(error) => {
                &&& error == CounterError::Overflow
                &&& held(*old(guard)) == i32::MAX
                &&& held(*final(guard)) == held(*old(guard))
            },
        },
{
    increment_locked(borrow_held_mut(guard))
}

/// What `increment_counter` answers to what the lock gave: the answer of
/// `increment_guarded` for the guard, or `Poisoned` where the lock gave no
/// guard.
pub fn increment_granted(granted: LockResult<MutexGuard<'_, Counter>>) -> (outcome: Result<
    i32,
    CounterError,
>)
    ensures
        match granted {
            Ok(guard) => match outcome {
                Ok(value) => {
                    &&& held(guard) < i32::MAX
                    &&& value == Command::IncrementCounter.reply(held(guard))
                    &&& 1 <= value
                },
                Err(error) => error == CounterError::Overflow && held(guard) == i32::MAX,
            },
            Err(_) => outcome == Err::<i32, CounterError>(CounterError::Poisoned),
        },
{
    match granted {
        Ok(mut guard) => increment_guarded(&mut guard),
        Err(_) => Err(CounterError::Poisoned),
    }
}

/// Takes the lock, adds one to the counter and returns the new value.
///
/// Whether the lock gives its guard, and what the counter under it holds,
/// depends on the commands that held the lock before. So the contract states
/// what holds of every answer of `increment_granted`: a new value is at
/// least one.
pub fn increment_counter(state: &AppState) -> (outcome: Result<i32, CounterError>)
    ensures
        outcome matches Ok(value) ==> 1 <= value,
{
    increment_granted(acquire(&state.counter))
}

} // verus!
