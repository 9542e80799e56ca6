//! The monotonic sequence counter: a 32-bit signed counter that advances by
//! one on every push and wraps silently at the top of the range.

use vstd::prelude::*;

verus! {

/// The counter value that follows `c`: one more, wrapping from `i32::MAX`
/// to `i32::MIN`. Wraparound is a documented limitation of the counter, not
/// an error.
pub open spec fn wrap_next(c: i32) -> i32 {
    if c == i32::MAX {
        i32::MIN
    } else {
        (c + 1) as i32
    }
}

/// The counter value after `n` pushes starting from `init`.
pub open spec fn counter_after(init: i32, n: nat) -> i32
    decreases n,
{
    if n == 0 {
        init
    } else {
        wrap_next(counter_after(init, (n - 1) as nat))
    }
}

/// The value returned (and published) by push number `n` (counting from 0)
/// when the counter started at `init`: a push hands out the counter value it
/// found and then advances it.
pub open spec fn push_value(init: i32, n: nat) -> i32 {
    counter_after(init, n)
}

/// While the counter has not wrapped, `n` pushes advance it by exactly `n`.
pub proof fn lemma_counter_after_no_wrap(init: i32, n: nat)
    requires
        init + n <= i32::MAX,
    ensures
        counter_after(init, n) == init + n,
    decreases n,
{
    if n > 0 {
        lemma_counter_after_no_wrap(init, (n - 1) as nat);
    }
}

/// Monotonicity: among sequential pushes, as long as the counter has not
/// wrapped, a later push returns a value strictly greater than every earlier
/// push's value.
pub proof fn lemma_push_values_monotonic(init: i32, i: nat, j: nat)
    requires
        i < j,
        init + j <= i32::MAX,
    ensures
        push_value(init, i) < push_value(init, j),
{
    lemma_counter_after_no_wrap(init, i);
    lemma_counter_after_no_wrap(init, j);
}

/// Advance the counter: return its current value and the wrapped successor.
pub fn advance(c: i32) -> (r: (i32, i32))
    ensures
        r.0 == c,
        r.1 == wrap_next(c),
{
    if c == i32::MAX {
        (c, i32::MIN)
    } else {
        (c, c + 1)
    }
}

} // verus!
