//! Futexes: what the futex system calls' results mean.
use vstd::prelude::*;

verus! {

/// Whether a `futex_wait` that returned `ret` ended for another reason
/// than its timeout: the timeout is reported as the negated `ETIMEDOUT`
/// (whose value is `etimedout`); a wake-up, a changed value or any other
/// error all count as not timed out.
pub fn futex_wait_result(ret: i32, etimedout: i32) -> (r: bool)
    ensures
        r == (ret as int != -(etimedout as int)),
{
    (ret as i64) != -(etimedout as i64)
}

/// Whether a `futex_wake` that returned `ret` woke a waiter: the call
/// returns how many it woke.
pub fn futex_wake_result(ret: i32) -> (r: bool)
    ensures
        r == (ret > 0),
{
    ret > 0
}

} // verus!
