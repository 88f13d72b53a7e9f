//! A signed 32-bit counter with wrap-around stepping.
//!
//! [`Counter`] holds one `i32`. It can be made from a starting value, stepped
//! up or down by one, and read. A step past either end of the `i32` range
//! lands on the other end, so every operation is total.
//!
//! The `model` module gives the arithmetic that the contracts speak of, and
//! the `laws` module proves what holds of runs of steps.

pub mod counter;
pub mod laws;
pub mod model;

pub use crate::counter::Counter;
