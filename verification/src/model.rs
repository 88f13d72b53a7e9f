//! The arithmetic of a counter, over mathematical integers.

use vstd::prelude::*;

verus! {

/// The one value in the `i32` range that differs from `n` by a multiple of
/// 2^32: `n` itself where it is in range, and `n` carried round the range
/// where it is not.
pub open spec fn wrap(n: int) -> int {
    (n - i32::MIN) % 0x1_0000_0000 + i32::MIN
}

/// The value reached from `v` by `k` steps up, one at a time.
pub open spec fn after_increments(v: int, k: nat) -> int
    decreases k,
{
    if k == 0 {
        v
    } else {
        wrap(after_increments(v, (k - 1) as nat) + 1)
    }
}

/// The value reached from `v` by `k` steps down, one at a time.
pub open spec fn after_decrements(v: int, k: nat) -> int
    decreases k,
{
    if k == 0 {
        v
    } else {
        wrap(after_decrements(v, (k - 1) as nat) - 1)
    }
}

} // verus!
