//! Group-parameter generation for the Chaum-Pedersen protocol.
//!
//! The protocol needs a prime modulus `p`, a prime order `q` dividing
//! `p - 1`, and two distinct generators `g`, `h` of the order-`q` subgroup
//! of `(Z/pZ)*`. Starting from a randomly chosen lower bound we take the
//! next prime `q`, search small multipliers `n` for a prime `p = n*q + 1`
//! (which guarantees `q | p - 1`), and then draw random group elements and
//! raise them to the power `(p-1)/q` until two distinct subgroup generators
//! are found. Candidates are accepted only after their order is checked, so
//! every returned parameter set provably satisfies [`ChaumPedersenAttrs::wf`].

use vstd::prelude::*;
use vstd::arithmetic::power::pow;
use vstd::arithmetic::div_mod::lemma_mod_multiples_basic;
use crate::modular::mod_pow;
use primes::PrimeSet;
use rand::Rng;

verus! {

/// Primality over the mathematical integers: `n` is at least 2 and has no
/// divisor strictly between 1 and itself.
pub open spec fn is_prime_spec(n: int) -> bool {
    n >= 2 && forall|d: int| 2 <= d < n ==> #[trigger] (n % d) != 0
}

/// Group parameters for one server lifetime: a prime modulus, the prime
/// order of the working subgroup, and two generators of that subgroup.
#[derive(Clone, Copy, Debug, PartialEq, Eq, Structural)]
pub struct ChaumPedersenAttrs {
    pub modulus: u64,
    pub order: u64,
    pub first_generator: u64,
    pub second_generator: u64,
}

impl ChaumPedersenAttrs {
    /// The invariant every generated parameter set satisfies: `p` and `q`
    /// are prime, `q` divides `p - 1`, and the two generators are distinct
    /// elements of `(1, p)` whose `q`-th power is 1 modulo `p`.
    pub open spec fn wf(self) -> bool {
        &&& is_prime_spec(self.modulus as int)
        &&& is_prime_spec(self.order as int)
        &&& (self.modulus - 1) % (self.order as int) == 0
        &&& 1 < self.first_generator < self.modulus
        &&& 1 < self.second_generator < self.modulus
        &&& self.first_generator != self.second_generator
        &&& pow(self.first_generator as int, self.order as nat) % (self.modulus as int) == 1
        &&& pow(self.second_generator as int, self.order as nat) % (self.modulus as int) == 1
    }
}

/// Smallest lower bound ever handed to the prime search.
pub const PRIME_LOWER_MIN: u64 = 7;
/// Upper end of the range the random lower bound is drawn from. Kept small
/// so the demonstration group fits comfortably in native integer width.
pub const PRIME_LOWER_MAX: u64 = 200;
/// How many `(q, p)` candidate pairs are tried before generation gives up.
pub const MAX_GENERATION_ATTEMPTS: u64 = 1000;

/// Relies on `rand::Rng::gen_range` on a `u64` range: returns a value in
/// `[low, high)`; panics only on an empty range, which `requires` rules out.
#[verifier::external_body]
pub(crate) fn random_in_range(low: u64, high: u64) -> (r: u64)
    requires
        low < high,
    ensures
        low <= r < high,
{
    rand::thread_rng().gen_range(low..high)
}

/// Relies on `primes::PrimeSet::find` on a `primes::Sieve`: returns the
/// smallest prime greater than or equal to `n`. The bound on `n` keeps the
/// sieve small enough to expand without excessive cost.
#[verifier::external_body]
fn next_prime(n: u64) -> (r: u64)
    requires
        n <= 1000000,
    ensures
        is_prime_spec(r as int),
        r >= n,
{
    let mut sieve = primes::Sieve::new();
    sieve.find(n).1
}

/// Relies on `primes::is_prime`: exact trial division up to the square
/// root, so the result coincides with `is_prime_spec`. The bound on `n`
/// keeps the internal `m * m` trial bound within `u64`.
#[verifier::external_body]
fn is_prime_u64(n: u64) -> (r: bool)
    requires
        n < 0x4000000000000000,
    ensures
        r == is_prime_spec(n as int),
{
    primes::is_prime(n)
}

/// Find a prime modulus for a group of prime order `q`: the first prime of
/// the form `n*q + 1` with `2 <= n < 100`, or 0 when no multiplier in that
/// range yields a prime.
pub fn find_modulus(q: u64) -> (p: u64)
    requires
        2 <= q <= 1000003,
    ensures
        p == 0 ==> forall|m: int| 2 <= m < 100 ==> !#[trigger] is_prime_spec(m * q + 1),
        p != 0 ==> is_prime_spec(p as int)
            && (p - 1) % (q as int) == 0
            && p >= 2 * q + 1
            && (exists|m: int|
                2 <= m < 100 && p == #[trigger] (m * q) + 1
                && (forall|l: int| 2 <= l < m ==> !#[trigger] is_prime_spec(l * q + 1))),
{
    let mut n: u64 = 2;
    while n < 100
        invariant
            2 <= q <= 1000003,
            2 <= n <= 100,
            forall|m: int| 2 <= m < n ==> !#[trigger] is_prime_spec(m * q + 1),
        decreases 100 - n,
    {
        proof {
            vstd::arithmetic::mul::lemma_mul_upper_bound(n as int, 99, q as int, 1000003);
        }
        let p = n * q + 1;
        if is_prime_u64(p) {
            proof {
                lemma_mod_multiples_basic(n as int, q as int);
                assert((p - 1) as int == n as int * q as int);
                vstd::arithmetic::mul::lemma_mul_inequality(2, n as int, q as int);
                assert(2 <= n < 100 && p == n as int * q + 1);
            }
            return p;
        }
        n = n + 1;
    }
    0
}

/// Search for a generator of the order-`q` subgroup of `(Z/pZ)*`: draw a
/// random element, raise it to the power `(p-1)/q`, and accept the result
/// only if it is a non-trivial element whose `q`-th power is 1 modulo `p`.
/// Returns 1 when the attempt budget of `p/2` draws is exhausted.
pub fn find_group_generator(p: u64, q: u64) -> (key: u64)
    requires
        4 <= p,
        1 <= q,
    ensures
        key == 1 || (1 < key < p && pow(key as int, q as nat) % (p as int) == 1),
{
    let quotient = (p - 1) / q;
    let mut key: u64 = 1;
    let mut try_count: u64 = 0;
    while key == 1 && try_count < p / 2
        invariant
            4 <= p,
            1 <= q,
            key == 1 || (1 < key < p && pow(key as int, q as nat) % (p as int) == 1),
        decreases p / 2 - try_count,
    {
        let random = random_in_range(2, p - 1);
        let candidate = mod_pow(random, quotient, p);
        if candidate > 1 && mod_pow(candidate, q, p) == 1 {
            key = candidate;
        }
        try_count = try_count + 1;
    }
    key
}

/// Generate a full set of Chaum-Pedersen group parameters.
///
/// Retries random lower bounds until a prime pair `(q, p)` and two distinct
/// subgroup generators are found; gives up after a bounded number of
/// attempts and returns `None`, which callers must treat as fatal at
/// startup. Every returned parameter set satisfies the group invariant.
pub fn generate_keys() -> (r: Option<ChaumPedersenAttrs>)
    ensures
        match r {
            Some(attrs) => attrs.wf(),
            None => true,
        },
{
    let mut attempts: u64 = 0;
    while attempts < MAX_GENERATION_ATTEMPTS
        invariant
            attempts <= MAX_GENERATION_ATTEMPTS,
        decreases MAX_GENERATION_ATTEMPTS - attempts,
    {
        attempts = attempts + 1;
        let lower = random_in_range(PRIME_LOWER_MIN, PRIME_LOWER_MAX);
        let q = next_prime(lower);
        if q > 1000003 {
            continue;
        }
        let p = find_modulus(q);
        if p == 0 {
            continue;
        }
        let g = find_group_generator(p, q);
        if g == 1 {
            continue;
        }
        let h = find_group_generator(p, q);
        if h == 1 || h == g {
            continue;
        }
        return Some(ChaumPedersenAttrs {
            modulus: p,
            order: q,
            first_generator: g,
            second_generator: h,
        });
    }
    None
}

} // verus!
