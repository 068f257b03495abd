use vstd::prelude::*;

verus! {

/// Delay before the first reconnection attempt, in seconds.
pub const BACKOFF_BASE_SECS: u64 = 5;

/// Largest delay between two reconnection attempts, in seconds.
pub const BACKOFF_MAX_SECS: u64 = 60;

/// Two to the power `n`.
pub open spec fn pow2(n: nat) -> nat
    decreases n,
{
    if n == 0 {
        1
    } else {
        2 * pow2((n - 1) as nat)
    }
}

/// The capped exponential delay, in seconds, after `attempt` failed attempts:
/// `min(5 * 2^attempt, 60)`.
pub open spec fn backoff_secs(attempt: nat) -> nat {
    let d = BACKOFF_BASE_SECS * pow2(attempt);
    if d <= BACKOFF_MAX_SECS {
        d as nat
    } else {
        BACKOFF_MAX_SECS as nat
    }
}

proof fn lemma_pow2_grows(a: nat, b: nat)
    requires
        a <= b,
    ensures
        pow2(a) <= pow2(b),
    decreases b,
{
    if a < b {
        lemma_pow2_grows(a, (b - 1) as nat);
    }
}

proof fn lemma_pow2_small()
    ensures
        pow2(0) == 1,
        pow2(1) == 2,
        pow2(2) == 4,
        pow2(3) == 8,
        pow2(4) == 16,
{
    reveal_with_fuel(pow2, 5);
}

/// Seconds to sleep before the next connection attempt, given how many
/// attempts have failed since the last successful connection.
pub fn calculate_backoff(attempt: u32) -> (secs: u64)
    ensures
        secs == backoff_secs(attempt as nat),
{
    proof {
        lemma_pow2_small();
    }
    if attempt >= 4 {
        proof {
            lemma_pow2_grows(4, attempt as nat);
        }
        BACKOFF_MAX_SECS
    } else {
        let factor: u64 = if attempt == 0 {
            1
        } else if attempt == 1 {
            2
        } else if attempt == 2 {
            4
        } else {
            8
        };
        BACKOFF_BASE_SECS * factor
    }
}

/// Every delay lies between the base delay and the cap.
pub proof fn lemma_backoff_bounded(attempt: nat)
    ensures
        BACKOFF_BASE_SECS <= backoff_secs(attempt) <= BACKOFF_MAX_SECS,
{
    lemma_pow2_grows(0, attempt);
    reveal_with_fuel(pow2, 1);
}

/// More failed attempts never give a shorter delay.
pub proof fn lemma_backoff_monotonic(a: nat, b: nat)
    requires
        a <= b,
    ensures
        backoff_secs(a) <= backoff_secs(b),
{
    lemma_pow2_grows(a, b);
}

/// The delay doubles from 5 s until it saturates at 60 s, from the fifth
/// attempt on.
pub proof fn lemma_backoff_values(attempt: nat)
    ensures
        backoff_secs(0) == 5,
        backoff_secs(1) == 10,
        backoff_secs(2) == 20,
        backoff_secs(3) == 40,
        attempt >= 4 ==> backoff_secs(attempt) == 60,
{
    lemma_pow2_small();
    if attempt >= 4 {
        lemma_pow2_grows(4, attempt);
    }
}

} // verus!
