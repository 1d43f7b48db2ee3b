//! The retry policy: whether a failed attempt is followed by another, and how
//! long to wait before it.

use vstd::prelude::*;
use vstd::arithmetic::power2::{pow2, lemma2_to64, lemma_pow2_strictly_increases, lemma_pow2_unfold};
use vstd::arithmetic::mul::lemma_mul_inequality;
use crate::error::ErrorKind;

verus! {

/// The number of attempts that a job gets unless the caller says otherwise.
pub const DEFAULT_MAX_RETRIES: u16 = 3;

/// The delay before the second attempt unless the caller says otherwise, in
/// milliseconds.
pub const DEFAULT_BASE_DELAY_MS: u64 = 500;

/// The longest delay between two attempts unless the caller says otherwise,
/// in milliseconds.
pub const DEFAULT_MAX_DELAY_MS: u64 = 30000;

/// Decides on further attempts. Attempts are numbered from 1.
#[derive(Clone, Copy, Debug, PartialEq, Eq, Structural)]
pub struct RetryPolicy {
    /// The number of the last attempt that a job may get.
    pub max_retries: u16,
    /// The delay after the first attempt, in milliseconds.
    pub base_delay_ms: u64,
    /// The bound that no delay exceeds, in milliseconds.
    pub max_delay_ms: u64,
}

/// The smaller of two numbers.
pub open spec fn least(a: nat, b: nat) -> nat {
    if a <= b {
        a
    } else {
        b
    }
}

impl RetryPolicy {
    /// Whether attempt `attempt_number`, having failed with `kind`, is
    /// followed by another: the kind must be retryable and the attempt must
    /// not be the last one allowed.
    pub open spec fn retries(self, attempt_number: u32, kind: ErrorKind) -> bool {
        attempt_number < self.max_retries && kind.retryable()
    }

    /// The delay after attempt `attempt_number`, in milliseconds: the base
    /// delay after the first attempt, twice as much after each further one,
    /// and never more than the bound.
    pub open spec fn delay_ms(self, attempt_number: u32) -> nat {
        let doublings: nat = if attempt_number == 0 {
            0
        } else {
            (attempt_number - 1) as nat
        };
        least(self.max_delay_ms as nat, self.base_delay_ms as nat * pow2(doublings))
    }

    /// The number of attempts of a job whose every attempt fails with a
    /// retryable error: as many as the policy allows, and the first in any
    /// case.
    pub open spec fn attempts_allowed(self) -> nat {
        if self.max_retries == 0 {
            1
        } else {
            self.max_retries as nat
        }
    }

    /// A policy of at most `max_retries` attempts.
    pub fn new(max_retries: u16, base_delay_ms: u64, max_delay_ms: u64) -> (p: Self)
        ensures
            p == (RetryPolicy { max_retries, base_delay_ms, max_delay_ms }),
    {
        RetryPolicy { max_retries, base_delay_ms, max_delay_ms }
    }

    /// A policy of at most `max_retries` attempts with the default delays.
    pub fn with_max_retries(max_retries: u16) -> (p: Self)
        ensures
            p == (RetryPolicy {
                max_retries,
                base_delay_ms: DEFAULT_BASE_DELAY_MS,
                max_delay_ms: DEFAULT_MAX_DELAY_MS,
            }),
    {
        RetryPolicy {
            max_retries,
            base_delay_ms: DEFAULT_BASE_DELAY_MS,
            max_delay_ms: DEFAULT_MAX_DELAY_MS,
        }
    }

    /// Computes [`RetryPolicy::retries`].
    pub fn should_retry(&self, attempt_number: u32, kind: ErrorKind) -> (r: bool)
        ensures
            r == self.retries(attempt_number, kind),
    {
        let last: u32 = self.max_retries.into();
        attempt_number < last && kind.is_retryable()
    }

    /// Computes [`RetryPolicy::delay_ms`].
    pub fn backoff(&self, attempt_number: u32) -> (delay: u64)
        ensures
            delay == self.delay_ms(attempt_number),
    {
        let cap = self.max_delay_ms;
        let doublings: u32 = if attempt_number == 0 {
            0
        } else {
            attempt_number - 1
        };
        let mut delay: u64 = if self.base_delay_ms <= cap {
            self.base_delay_ms
        } else {
            cap
        };
        let mut done: u32 = 0;
        proof {
            lemma2_to64();
        }
        if delay == 0 {
            assert(self.base_delay_ms == 0 || cap == 0);
            return 0;
        }
        while done < doublings && delay < cap
            invariant
                done <= doublings,
                cap == self.max_delay_ms,
                0 < delay <= cap,
                0 < self.base_delay_ms,
                delay == least(cap as nat, self.base_delay_ms as nat * pow2(done as nat)),
            decreases doublings - done,
        {
            proof {
                lemma_pow2_unfold((done + 1) as nat);
                assert(self.base_delay_ms as nat * (2 * pow2(done as nat)) == 2 * (
                self.base_delay_ms as nat * pow2(done as nat))) by (nonlinear_arith);
            }
            delay = if delay >= cap - delay {
                cap
            } else {
                delay + delay
            };
            done = done + 1;
        }
        proof {
            if done < doublings {
                lemma_pow2_strictly_increases(done as nat, doublings as nat);
                lemma_mul_inequality(
                    pow2(done as nat) as int,
                    pow2(doublings as nat) as int,
                    self.base_delay_ms as int,
                );
                assert(self.base_delay_ms as nat * pow2(done as nat) == pow2(done as nat)
                    * self.base_delay_ms as nat) by (nonlinear_arith);
                assert(self.base_delay_ms as nat * pow2(doublings as nat) == pow2(
                    doublings as nat,
                ) * self.base_delay_ms as nat) by (nonlinear_arith);
            }
        }
        delay
    }
}

/// The delay never shrinks from one attempt to the next, and never exceeds
/// the bound of the policy.
pub proof fn backoff_monotonic(policy: RetryPolicy, earlier: u32, later: u32)
    requires
        earlier <= later,
    ensures
        policy.delay_ms(earlier) <= policy.delay_ms(later),
        policy.delay_ms(later) <= policy.max_delay_ms,
{
    let a: nat = if earlier == 0 { 0 } else { (earlier - 1) as nat };
    let b: nat = if later == 0 { 0 } else { (later - 1) as nat };
    if a < b {
        lemma_pow2_strictly_increases(a, b);
    }
    lemma_mul_inequality(pow2(a) as int, pow2(b) as int, policy.base_delay_ms as int);
    assert(policy.base_delay_ms as nat * pow2(a) == pow2(a) * policy.base_delay_ms as nat)
        by (nonlinear_arith);
    assert(policy.base_delay_ms as nat * pow2(b) == pow2(b) * policy.base_delay_ms as nat)
        by (nonlinear_arith);
}

/// An error that is not retryable ends the job at once, whatever the number
/// of the attempt; the last attempt allowed is never followed by another.
pub proof fn no_retry_without_cause(policy: RetryPolicy, attempt_number: u32, kind: ErrorKind)
    ensures
        !kind.retryable() ==> !policy.retries(attempt_number, kind),
        attempt_number >= policy.max_retries ==> !policy.retries(attempt_number, kind),
{
}

} // verus!
