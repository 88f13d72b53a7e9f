//! The counter and its operations.

use crate::model::wrap;
use vstd::prelude::*;

verus! {

/// A counter over the signed 32-bit integers.
///
/// Stepping up from `i32::MAX` gives `i32::MIN`, and stepping down from
/// `i32::MIN` gives `i32::MAX`: the range is a ring, and no step fails.
pub struct Counter {
    value: i32,
}

impl View for Counter {
    type V = i32;

    /// The value that the counter holds.
    closed spec fn view(&self) -> i32 {
        self.value
    }
}

impl Counter {
    /// Makes a counter that holds `init_value`.
    pub fn new(init_value: i32) -> (c: Self)
        ensures
            c@ == init_value,
    {
        Self { value: init_value }
    }

    /// Makes a counter that holds 0.
    pub fn default() -> (c: Self)
        ensures
            c@ == 0,
    {
        Self { value: 0 }
    }

    /// Steps the counter up by one, wrapping from `i32::MAX` to `i32::MIN`.
    pub fn increment(&mut self)
        ensures
            final(self)@ == wrap(old(self)@ + 1),
    {
        self.value = self.value.wrapping_add(1);
    }

    /// Steps the counter down by one, wrapping from `i32::MIN` to `i32::MAX`.
    pub fn decrement(&mut self)
        ensures
            final(self)@ == wrap(old(self)@ - 1),
    {
        self.value = self.value.wrapping_sub(1);
    }

    /// Reads the value that the counter holds.
    pub fn get(&self) -> (v: i32)
        ensures
            v == self@,
    {
        self.value
    }
}

} // verus!
