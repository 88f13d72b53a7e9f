//! What holds of runs of steps, proved over the arithmetic of `model`.

use crate::model::{after_decrements, after_increments, wrap};
use vstd::prelude::*;

verus! {

/// Wrapping lands in the `i32` range, moves a value by a multiple of 2^32, and
/// leaves a value in range as it is.
pub proof fn lemma_wrap_range(n: int)
    ensures
        i32::MIN <= wrap(n) <= i32::MAX,
        (wrap(n) - n) % 0x1_0000_0000 == 0,
        i32::MIN <= n <= i32::MAX ==> wrap(n) == n,
{
}

/// Wrapping a sum gives the same whether or not one term was wrapped before.
pub proof fn lemma_wrap_absorbs(a: int, b: int)
    ensures
        wrap(wrap(a) + b) == wrap(a + b),
{
}

/// A step up wraps only at the top of the range, and a step down only at the
/// bottom.
pub proof fn lemma_single_step(v: i32)
    ensures
        v < i32::MAX ==> wrap(v + 1) == v + 1,
        v == i32::MAX ==> wrap(v + 1) == i32::MIN,
        v > i32::MIN ==> wrap(v - 1) == v - 1,
        v == i32::MIN ==> wrap(v - 1) == i32::MAX,
{
}

/// `k` steps up from `v` reach `v + k` carried round the range, and so `v + k`
/// itself as long as that does not pass `i32::MAX`.
pub proof fn lemma_increments(v: i32, k: nat)
    ensures
        after_increments(v as int, k) == wrap(v + k),
        v + k <= i32::MAX ==> after_increments(v as int, k) == v + k,
    decreases k,
{
    if k > 0 {
        lemma_increments(v, (k - 1) as nat);
        lemma_wrap_absorbs(v + k - 1, 1);
    }
    lemma_wrap_range(v + k);
}

/// `k` steps down from `v` reach `v - k` carried round the range, and so
/// `v - k` itself as long as that does not pass `i32::MIN`.
pub proof fn lemma_decrements(v: i32, k: nat)
    ensures
        after_decrements(v as int, k) == wrap(v - k),
        v - k >= i32::MIN ==> after_decrements(v as int, k) == v - k,
    decreases k,
{
    if k > 0 {
        lemma_decrements(v, (k - 1) as nat);
        lemma_wrap_absorbs(v - k + 1, -1);
    }
    lemma_wrap_range(v - k);
}

/// A step up followed by a step down comes back to the start, from every
/// starting value, and so does a step down followed by a step up.
pub proof fn lemma_steps_cancel(v: i32)
    ensures
        wrap(wrap(v + 1) - 1) == v,
        wrap(wrap(v - 1) + 1) == v,
{
}

} // verus!
