//! Retry delays for sources that keep failing.

use vstd::prelude::*;
use vstd::arithmetic::power2::{lemma2_to64, pow2};

verus! {

/// The delay in minutes after the `n`-th failure in a row: it doubles from one
/// minute and is capped at thirty.
pub open spec fn backoff_minutes(n: nat) -> nat {
    let steps: nat = if n <= 1 {
        0
    } else if n >= 6 {
        5
    } else {
        (n - 1) as nat
    };
    if pow2(steps) <= 30 {
        pow2(steps)
    } else {
        30
    }
}

/// The delay in seconds before a source that failed `failure_count` times in a
/// row is tried again.
pub fn calculate_backoff(failure_count: u32) -> (secs: u64)
    ensures
        secs == backoff_minutes(failure_count as nat) * 60,
{
    proof {
        lemma2_to64();
    }
    let mins: u64 = if failure_count <= 1 {
        1
    } else if failure_count == 2 {
        2
    } else if failure_count == 3 {
        4
    } else if failure_count == 4 {
        8
    } else if failure_count == 5 {
        16
    } else {
        30
    };
    mins * 60
}

/// The delay never shrinks as failures accumulate and never exceeds thirty
/// minutes.
pub proof fn lemma_backoff_monotone(a: nat, b: nat)
    requires
        a <= b,
    ensures
        backoff_minutes(a) <= backoff_minutes(b),
        backoff_minutes(b) <= 30,
        backoff_minutes(a) >= 1,
{
    lemma2_to64();
}

} // verus!
