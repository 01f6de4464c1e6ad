use vstd::prelude::*;
use rand::rngs::StdRng;

verus! {

#[verifier::external_type_specification]
#[verifier::external_body]
pub struct ExStdRng(rand::rngs::StdRng);

/// Relies on `rand::Rng::gen_range` over the half-open range `0..bound`: the
/// value drawn lies in that range. It panics on an empty range, which the
/// `requires` rules out.
#[verifier::external_body]
fn draw_below(rng: &mut StdRng, bound: u64) -> (r: u64)
    requires
        bound > 0,
    ensures
        r < bound,
{
    rand::Rng::gen_range(rng, 0..bound)
}

/// Two to the power `n`.
pub open spec fn two_to_the(n: nat) -> int
    decreases n,
{
    if n == 0 {
        1
    } else {
        2 * two_to_the((n - 1) as nat)
    }
}

/// The largest delay after failed attempt number `attempt`: the base unit
/// doubled once per attempt, but never more than `max_delay`.
pub open spec fn backoff_cap(base: int, max_delay: int, attempt: nat) -> int {
    if base * two_to_the(attempt) < max_delay {
        base * two_to_the(attempt)
    } else {
        max_delay
    }
}

proof fn lemma_two_to_the_monotonic(a: nat, b: nat)
    requires
        a <= b,
    ensures
        1 <= two_to_the(a) <= two_to_the(b),
    decreases b,
{
    if b > 0 {
        if a < b {
            lemma_two_to_the_monotonic(a, (b - 1) as nat);
        } else {
            lemma_two_to_the_monotonic((a - 1) as nat, (b - 1) as nat);
        }
    }
}

/// The "full jitter" retry policy: after a failure the delay is drawn
/// uniformly below an exponentially growing, capped bound.
#[derive(Clone, Copy, Debug, PartialEq, Eq)]
pub struct BackoffPolicy {
    /// The time unit that is doubled once per attempt.
    pub base: u64,
    /// The bound that no delay reaches.
    pub max_delay: u64,
}

impl BackoffPolicy {
    /// The bound below which the delay after attempt `attempt` is drawn.
    pub open spec fn spec_cap(&self, attempt: nat) -> int {
        backoff_cap(self.base as int, self.max_delay as int, attempt)
    }

    /// Creates a policy with base unit `base` and bound `max_delay`.
    pub fn new(base: u64, max_delay: u64) -> (r: BackoffPolicy)
        ensures
            r.base == base,
            r.max_delay == max_delay,
    {
        BackoffPolicy { base, max_delay }
    }

    /// The usual policy: a base unit of one second and a bound of sixty.
    pub fn standard() -> (r: BackoffPolicy)
        ensures
            r.base == 1,
            r.max_delay == 60,
    {
        BackoffPolicy { base: 1, max_delay: 60 }
    }

    /// Returns `min(base * 2^attempt, max_delay)`, computed without overflow.
    pub fn cap(&self, attempt: u32) -> (r: u64)
        ensures
            r == self.spec_cap(attempt as nat),
    {
        let base = self.base;
        let max = self.max_delay;
        proof {
            lemma_two_to_the_monotonic(0, attempt as nat);
        }
        if base == 0 {
            return 0;
        }
        if base >= max {
            assert(base * two_to_the(attempt as nat) >= base) by (nonlinear_arith)
                requires
                    two_to_the(attempt as nat) >= 1,
                    base >= 1,
            ;
            return max;
        }
        let mut c: u64 = base;
        let mut i: u32 = 0;
        while i < attempt
            invariant
                base == self.base,
                max == self.max_delay,
                1 <= base < max,
                i <= attempt,
                1 <= c <= max,
                c == base * two_to_the(i as nat),
            decreases attempt - i,
        {
            if c > max / 2 {
                proof {
                    lemma_two_to_the_monotonic((i + 1) as nat, attempt as nat);
                    let p = two_to_the(attempt as nat);
                    let q = two_to_the((i + 1) as nat);
                    assert(q == 2 * two_to_the(i as nat));
                    assert(base * q == 2 * c) by (nonlinear_arith)
                        requires
                            q == 2 * two_to_the(i as nat),
                            c == base * two_to_the(i as nat),
                    ;
                    assert(2 * c > max);
                    assert(base * p >= base * q) by (nonlinear_arith)
                        requires
                            p >= q,
                            base >= 1,
                    ;
                }
                return max;
            }
            proof {
                assert(2 * c == base * two_to_the((i + 1) as nat)) by (nonlinear_arith)
                    requires
                        two_to_the((i + 1) as nat) == 2 * two_to_the(i as nat),
                        c == base * two_to_the(i as nat),
                ;
            }
            c = c * 2;
            i = i + 1;
        }
        c
    }

    /// Draws the delay that follows failed attempt number `attempt`: uniformly
    /// from `[0, cap)`, where `cap` is `min(base * 2^attempt, max_delay)`; zero
    /// where that bound is zero.
    pub fn full_jitter(&self, rng: &mut StdRng, attempt: u32) -> (d: u64)
        ensures
            self.spec_cap(attempt as nat) == 0 ==> d == 0,
            self.spec_cap(attempt as nat) > 0 ==> d < self.spec_cap(attempt as nat),
    {
        let cap = self.cap(attempt);
        if cap == 0 {
            0
        } else {
            draw_below(rng, cap)
        }
    }
}

/// The bound on the delay never exceeds the policy's maximum, never falls
/// below zero, and never shrinks as the attempts go on.
pub proof fn lemma_cap_bounded_and_monotonic(policy: BackoffPolicy, a: nat, b: nat)
    requires
        a <= b,
    ensures
        0 <= policy.spec_cap(a) <= policy.max_delay,
        policy.spec_cap(a) <= policy.spec_cap(b),
{
    lemma_two_to_the_monotonic(a, b);
    let base = policy.base as int;
    assert(base * two_to_the(a) <= base * two_to_the(b)) by (nonlinear_arith)
        requires
            two_to_the(a) <= two_to_the(b),
            base >= 0,
    ;
    assert(base * two_to_the(a) >= 0) by (nonlinear_arith)
        requires
            two_to_the(a) >= 1,
            base >= 0,
    ;
}

} // verus!
