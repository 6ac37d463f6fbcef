//! The counter itself: one integer that starts at zero and only ever grows by
//! one.

use crate::history::Command;
use vstd::prelude::*;

verus! {

/// The counter value. It is never negative: a counter starts at zero or at a
/// value that is not negative, and the only mutation adds one.
pub struct Counter {
    value: i32,
}

impl View for Counter {
    type V = int;

    closed spec fn view(&self) -> int {
        self.value as int
    }
}

impl Counter {
    #[verifier::type_invariant]
    spec fn non_negative(self) -> bool {
        0 <= self.value
    }

    /// A fresh counter holds zero.
    pub fn new() -> (counter: Counter)
        ensures
            counter@ == 0,
    {
        Counter { value: 0 }
    }

    /// A counter that goes on from `value`; there is none for a negative
    /// `value`.
    pub fn with_value(value: i32) -> (outcome: Option<Counter>)
        ensures
            match outcome {
                Some(counter) => 0 <= value && counter@ == value,
                None => value < 0,
            },
    {
        if value < 0 {
            None
        } else {
            Some(Counter { value })
        }
    }

    /// Reads the current value. The counter is borrowed shared, so it stays
    /// as it is.
    pub fn get(&self) -> (value: i32)
        ensures
            value == Command::GetCounter.reply(self@),
            0 <= value,
    {
        proof {
            use_type_invariant(self);
        }
        self.value
    }

    /// Adds one and returns the new value. The counter must not yet hold the
    /// largest value that fits.
    pub fn increment(&mut self) -> (value: i32)
        requires
            old(self)@ < i32::MAX,
        ensures
            final(self)@ == Command::IncrementCounter.apply(old(self)@),
            value == Command::IncrementCounter.reply(old(self)@),
            1 <= value,
    {
        proof {
            use_type_invariant(&*self);
        }
        self.value = self.value + 1;
        self.value
    }
}

} // verus!
