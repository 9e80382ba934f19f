//! The unit of work and the runner that drives it.
//!
//! One unit of work is a primality test by trial division on the runner's
//! current candidate. The candidates walk upward from 2 and return to 2 when
//! the 64-bit range is exhausted.

use vstd::arithmetic::div_mod::{lemma_fundamental_div_mod, lemma_mod_multiples_basic};
use vstd::prelude::*;

verus! {

/// How long a parked worker sleeps before it looks at the mode state again.
pub const POLL_INTERVAL_MS: u64 = 100;

/// The smallest candidate a runner ever tests.
pub const FIRST_CANDIDATE: u64 = 2;

/// `n` is a prime number.
pub open spec fn spec_is_prime(n: nat) -> bool {
    n >= 2 && forall|d: nat| 2 <= d < n ==> #[trigger] (n % d) != 0
}

/// The candidate that follows `n`: its successor, or 2 where the successor
/// would leave the domain `2..=u64::MAX`.
pub open spec fn spec_next_candidate(n: u64) -> u64 {
    if n == 0 || n == u64::MAX {
        FIRST_CANDIDATE
    } else {
        (n + 1) as u64
    }
}

/// The candidate tested by the unit with index `i` of a run that starts afresh.
pub open spec fn candidate_at(i: nat) -> u64
    decreases i,
{
    if i == 0 {
        FIRST_CANDIDATE
    } else {
        spec_next_candidate(candidate_at((i - 1) as nat))
    }
}

/// Among the first `n` units of a fresh run, the number whose candidate is prime.
pub open spec fn units_held(n: nat) -> nat
    decreases n,
{
    if n == 0 {
        0
    } else {
        units_held((n - 1) as nat) + if spec_is_prime(candidate_at((n - 1) as nat) as nat) {
            1nat
        } else {
            0nat
        }
    }
}

/// A number with an even divisor is even.
proof fn lemma_even_divisor(n: nat, d: nat)
    requires
        d > 0,
        d % 2 == 0,
        n % d == 0,
    ensures
        n % 2 == 0,
{
    let q = n / d;
    let h = d / 2;
    lemma_fundamental_div_mod(n as int, d as int);
    lemma_fundamental_div_mod(d as int, 2);
    assert(n == 2 * (h * q)) by (nonlinear_arith)
        requires
            n == d * q,
            d == 2 * h,
    ;
    lemma_mod_multiples_basic((h * q) as int, 2);
    assert((h * q) * 2 == 2 * (h * q)) by (nonlinear_arith);
}

/// A number without a divisor in `2..i`, where `i * i` exceeds it, has no
/// divisor in `2..n` at all.
proof fn lemma_no_divisor_below_root(n: nat, i: nat)
    requires
        n >= 2,
        i >= 2,
        i * i > n,
        forall|d: nat| 2 <= d < i ==> #[trigger] (n % d) != 0,
    ensures
        spec_is_prime(n),
{
    assert forall|d: nat| 2 <= d < n implies #[trigger] (n % d) != 0 by {
        if n % d == 0 {
            let q = n / d;
            lemma_fundamental_div_mod(n as int, d as int);
            assert(n == d * q);
            assert(q >= 2) by (nonlinear_arith)
                requires
                    n == d * q,
                    d < n,
                    d >= 2,
            ;
            assert(q < n) by (nonlinear_arith)
                requires
                    n == d * q,
                    d >= 2,
                    q >= 2,
            ;
            lemma_mod_multiples_basic(d as int, q as int);
            assert(n % q == 0);
            if d >= i && q >= i {
                assert(d * q >= i * i) by (nonlinear_arith)
                    requires
                        d >= i,
                        q >= i,
                        i >= 2,
                ;
            }
        }
    }
}

/// One unit of work: decides whether `n` is prime, by trial division with the
/// odd numbers up to its square root.
pub fn is_prime(n: u64) -> (held: bool)
    ensures
        held == spec_is_prime(n as nat),
{
    if n < 2 {
        return false;
    }
    if n == 2 {
        return true;
    }
    if n % 2 == 0 {
        assert(2 <= 2nat < n as nat && (n as nat) % 2nat == 0);
        return false;
    }
    let mut i: u64 = 3;
    while i <= n / i
        invariant
            n >= 3,
            3 <= i <= n,
            i % 2 == 1,
            n % 2 == 1,
            forall|d: nat| 2 <= d < i ==> #[trigger] ((n as nat) % d) != 0,
        decreases n - i,
    {
        assert(i * i <= n) by (nonlinear_arith)
            requires
                i <= n / i,
                i >= 3,
        ;
        if n % i == 0 {
            assert(2 <= i as nat && (i as nat) < n as nat && (n as nat) % (i as nat) == 0)
                by (nonlinear_arith)
                requires
                    i * i <= n,
                    i >= 3,
                    n % i == 0,
            ;
            return false;
        }
        assert(i + 2 <= n) by (nonlinear_arith)
            requires
                i * i <= n,
                i >= 3,
        ;
        proof {
            let e = (i + 1) as nat;
            if (n as nat) % e == 0 {
                lemma_even_divisor(n as nat, e);
            }
        }
        i = i + 2;
    }
    proof {
        lemma_fundamental_div_mod(n as int, i as int);
        assert(i * i > n) by (nonlinear_arith)
            requires
                i > n / i,
                i >= 3,
                n == i * (n / i) + n % i,
                n % i < i,
        ;
        lemma_no_divisor_below_root(n as nat, i as nat);
    }
    true
}

/// Advances a candidate by one, with wrap-around that never leaves the domain
/// `2..=u64::MAX`.
pub fn next_candidate(n: u64) -> (next: u64)
    ensures
        next == spec_next_candidate(n),
        next >= FIRST_CANDIDATE,
{
    let m: u64 = n.wrapping_add(1);
    if m < 2 {
        2
    } else {
        m
    }
}

/// Executes exactly `n` units back to back, on the candidates of a fresh run,
/// and returns the number of them whose candidate was prime: the count that a
/// disposable worker process reports.
pub fn run_fixed(n: u64) -> (count: u64)
    ensures
        count == units_held(n as nat),
        count <= n,
{
    let mut count: u64 = 0;
    let mut candidate: u64 = FIRST_CANDIDATE;
    let mut done: u64 = 0;
    while done < n
        invariant
            done <= n,
            count <= done,
            count == units_held(done as nat),
            candidate == candidate_at(done as nat),
        decreases n - done,
    {
        if is_prime(candidate) {
            count = count + 1;
        }
        candidate = next_candidate(candidate);
        done = done + 1;
    }
    count
}

/// What one step of a continuous runner did, or asks its caller to do.
#[derive(Clone, Copy, Debug, PartialEq, Eq, Structural)]
pub enum RunnerAction {
    /// The runner is not active: sleep this long, then step again.
    Park { millis: u64 },
    /// One unit was completed, to be recorded once; `held` says whether its
    /// candidate was prime.
    UnitDone { held: bool },
}

/// A continuous runner: the state of one worker's endless loop over the unit
/// of work. Its caller steps it, records the completed units and sleeps when
/// told to park.
#[derive(Clone, Copy, Debug)]
pub struct Runner {
    candidate: u64,
}

impl Runner {
    /// Every candidate lies in the unit's domain.
    #[verifier::type_invariant]
    closed spec fn in_domain(&self) -> bool {
        self.candidate >= FIRST_CANDIDATE
    }

    /// The candidate that the next unit tests.
    pub closed spec fn spec_candidate(&self) -> u64 {
        self.candidate
    }

    /// A runner at the start of its sequence.
    pub fn new() -> (runner: Runner)
        ensures
            runner.spec_candidate() == FIRST_CANDIDATE,
    {
        Runner { candidate: FIRST_CANDIDATE }
    }

    /// The candidate that the next unit tests; never below 2.
    pub fn candidate(&self) -> (candidate: u64)
        ensures
            candidate == self.spec_candidate(),
            candidate >= FIRST_CANDIDATE,
    {
        proof {
            use_type_invariant(self);
        }
        self.candidate
    }

    /// One iteration of the continuous loop. While active, it executes one
    /// unit on the current candidate and advances to the next; otherwise it
    /// leaves the sequence where it is and asks for the poll sleep.
    pub fn step(&mut self, active: bool) -> (action: RunnerAction)
        ensures
            active ==> action == (RunnerAction::UnitDone {
                held: spec_is_prime(old(self).spec_candidate() as nat),
            }),
            active ==> final(self).spec_candidate() == spec_next_candidate(
                old(self).spec_candidate(),
            ),
            !active ==> action == (RunnerAction::Park { millis: POLL_INTERVAL_MS }),
            !active ==> final(self).spec_candidate() == old(self).spec_candidate(),
    {
        if active {
            let held: bool = is_prime(self.candidate);
            self.candidate = next_candidate(self.candidate);
            RunnerAction::UnitDone { held }
        } else {
            RunnerAction::Park { millis: POLL_INTERVAL_MS }
        }
    }
}

/// No candidate of a run lies below 2, however long the run.
pub proof fn lemma_candidates_stay_in_domain(n: nat)
    ensures
        candidate_at(n) >= FIRST_CANDIDATE,
    decreases n,
{
    if n > 0 {
        lemma_candidates_stay_in_domain((n - 1) as nat);
    }
}

} // verus!
