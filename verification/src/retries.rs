//! How often a failed piece of stage work is tried again, and how long the
//! stage holds back before it does.
use vstd::arithmetic::power::*;
use vstd::prelude::*;

verus! {

/// A span of time in nanoseconds.
pub type Nanos = u128;

/// The limits that govern the retries of one kind of work.
#[derive(Clone, Copy, Debug, PartialEq, Eq, Structural)]
pub struct Policy {
    /// How many times work may be tried again after its first attempt.
    pub max_retries: usize,
    /// The delay that the factor multiplies.
    pub backoff_unit: Nanos,
    /// By how much the delay grows with each retry.
    pub backoff_factor: u32,
    /// No delay is longer than this.
    pub max_backoff: Nanos,
}

impl Policy {
    /// The policy under which work is attempted once and never tried again.
    #[verifier::allow_in_spec]
    pub fn no_retry() -> Policy
        returns
            (Policy { max_retries: 0, backoff_unit: 0, backoff_factor: 0, max_backoff: 0 }),
        opens_invariants none
    {
        Policy { max_retries: 0, backoff_unit: 0, backoff_factor: 0, max_backoff: 0 }
    }
}

/// The retries of one piece of work, counted from its first attempt.
#[derive(Clone, Copy, Debug, PartialEq, Eq, Structural)]
pub struct Retry {
    /// How many attempts have failed so far.
    pub failed: usize,
}

/// A delay, or the maximum where the delay is longer.
pub open spec fn cut_off(delay: int, policy: Policy) -> int {
    if delay < policy.max_backoff {
        delay
    } else {
        policy.max_backoff as int
    }
}

impl Retry {
    /// The count of work that has not been attempted yet.
    #[verifier::allow_in_spec]
    pub fn new() -> Retry
        returns
            (Retry { failed: 0 }),
        opens_invariants none
    {
        Retry { failed: 0 }
    }

    /// The count after one more failed attempt. It stays at `usize::MAX` once
    /// it has got there.
    #[verifier::allow_in_spec]
    pub fn next(self) -> Retry
        returns
            (if self.failed < usize::MAX {
                Retry { failed: (self.failed + 1) as usize }
            } else {
                self
            }),
        opens_invariants none
    {
        if self.failed < usize::MAX {
            Retry { failed: self.failed + 1 }
        } else {
            self
        }
    }

    /// Whether `policy` allows another attempt.
    #[verifier::allow_in_spec]
    pub fn has_next(&self, policy: &Policy) -> bool
        returns
            self.failed <= policy.max_retries,
        opens_invariants none
    {
        self.failed <= policy.max_retries
    }

    /// The delay that `policy` asks for ahead of the next attempt: none ahead
    /// of the first one, and after that the unit times the factor to the power
    /// of the failed attempts, cut off at the maximum.
    pub open spec fn delay(self, policy: Policy) -> int {
        let grown = policy.backoff_unit * pow(policy.backoff_factor as int, self.failed as nat);
        if self.failed == 0 {
            0
        } else if grown < policy.max_backoff {
            grown
        } else {
            policy.max_backoff as int
        }
    }

    /// How long to hold back ahead of the next attempt.
    pub fn backoff_delay(&self, policy: &Policy) -> (delay: Nanos)
        ensures
            delay == self.delay(*policy),
    {
        let unit: Nanos = policy.backoff_unit;
        let factor: u32 = policy.backoff_factor;
        let max: Nanos = policy.max_backoff;
        if self.failed == 0 {
            return 0;
        }
        if factor == 0 || unit == 0 {
            proof {
                let power = pow(factor as int, self.failed as nat);
                if factor == 0 {
                    lemma0_pow(self.failed as nat);
                }
                assert(unit * power == 0) by (nonlinear_arith)
                    requires
                        unit == 0 || power == 0,
                ;
            }
            return 0;
        }
        if factor == 1 {
            proof {
                lemma1_pow(self.failed as nat);
            }
            return if unit < max {
                unit
            } else {
                max
            };
        }
        let mut grown: Nanos = unit;
        let mut count: usize = 0;
        proof {
            lemma_pow0(factor as int);
        }
        while count < self.failed
            invariant
                count <= self.failed,
                0 < self.failed,
                0 < factor,
                unit == policy.backoff_unit,
                factor == policy.backoff_factor,
                max == policy.max_backoff,
                grown == unit * pow(factor as int, count as nat),
                0 < count ==> grown < max,
            decreases self.failed - count,
        {
            proof {
                self.lemma_growth(*policy, count as nat);
            }
            match grown.checked_mul(factor as u128) {
                Some(product) if product < max => {
                    grown = product;
                },
                _ => {
                    return max;
                },
            }
            count = count + 1;
        }
        grown
    }

    /// A count starts at zero and each failure raises it by one, up to `usize::MAX`.
    /// Another attempt is allowed for as long as the count has not passed the
    /// limit.
    pub proof fn counting_is_by_ones(self, policy: Policy)
        ensures
            Retry::new().failed == 0,
            self.failed < usize::MAX ==> self.next().failed == self.failed + 1,
            self.failed == usize::MAX ==> self.next() == self,
            self.has_next(&policy) <==> self.failed <= policy.max_retries,
    {
    }

    /// The policy without retries allows none, and it never asks for a delay.
    pub proof fn no_retry_never_waits(self)
        ensures
            Policy::no_retry().max_retries == 0,
            self.delay(Policy::no_retry()) == 0,
    {
        let unit: int = 0;
        let power = pow(0, self.failed as nat);
        assert(unit * power == 0) by (nonlinear_arith)
            requires
                unit == 0,
        ;
    }

    /// There is no delay ahead of the first attempt, and ahead of the second one it
    /// is the unit times the factor, cut off at the maximum. From then on each
    /// delay is the one before it times the factor, cut off again, and a delay that
    /// has got to the maximum stays there.
    pub proof fn delay_grows_by_the_factor(self, next: Retry, policy: Policy)
        requires
            next.failed == self.failed + 1,
        ensures
            self.failed == 0 ==> self.delay(policy) == 0,
            self.failed == 0 ==> next.delay(policy) == cut_off(
                policy.backoff_unit * policy.backoff_factor,
                policy,
            ),
            self.failed > 0 && self.delay(policy) < policy.max_backoff ==> next.delay(policy)
                == cut_off(self.delay(policy) * policy.backoff_factor, policy),
            self.failed > 0 && self.delay(policy) == policy.max_backoff && policy.backoff_factor
                > 0 ==> next.delay(policy) == policy.max_backoff,
            self.failed > 0 && policy.backoff_factor == 0 ==> self.delay(policy) == 0,
            0 <= self.delay(policy) <= policy.max_backoff,
    {
        let unit = policy.backoff_unit as int;
        let factor = policy.backoff_factor as int;
        let count = self.failed as nat;
        let power = pow(factor, count);
        lemma_pow0(factor);
        lemma_pow1(factor);
        lemma_pow_adds(factor, count, 1);
        assert(unit * (power * factor) == (unit * power) * factor) by (nonlinear_arith);
        if factor == 0 {
            if count > 0 {
                lemma0_pow(count);
            }
            assert(unit * power == 0 || count == 0) by (nonlinear_arith)
                requires
                    power == 0 || count == 0,
            ;
        } else {
            lemma_pow_positive(factor, count);
            assert(unit * power <= (unit * power) * factor) by (nonlinear_arith)
                requires
                    0 <= unit,
                    0 < power,
                    1 <= factor,
            ;
            assert(0 <= unit * power) by (nonlinear_arith)
                requires
                    0 <= unit,
                    0 < power,
            ;
        }
    }

    /// The delay, before it is cut off, grows by the factor with each retry and never
    /// shrinks on the way to the last one.
    proof fn lemma_growth(self, policy: Policy, count: nat)
        requires
            count < self.failed,
            0 < policy.backoff_factor,
        ensures
            ({
                let unit = policy.backoff_unit as int;
                let factor = policy.backoff_factor as int;
                &&& unit * pow(factor, count + 1) == (unit * pow(factor, count)) * factor
                &&& unit * pow(factor, count + 1) <= unit * pow(factor, self.failed as nat)
            }),
    {
        let unit = policy.backoff_unit as int;
        let factor = policy.backoff_factor as int;
        let power = pow(factor, count);
        let last = pow(factor, self.failed as nat);
        lemma_pow1(factor);
        lemma_pow_adds(factor, count, 1);
        lemma_pow_increases(factor as nat, count + 1, self.failed as nat);
        assert(unit * (power * factor) == (unit * power) * factor) by (nonlinear_arith);
        assert(unit * (power * factor) <= unit * last) by (nonlinear_arith)
            requires
                0 <= unit,
                power * factor <= last,
        ;
    }
}

} // verus!
