//! Modular arithmetic over `u64`, with `u128` intermediates so that no
//! operation can overflow. Exponentiation is square-and-multiply, proved
//! equal to `pow(base, exp) % modulus` over the mathematical integers.

use vstd::prelude::*;
use vstd::arithmetic::power::{
    pow, lemma_pow1, lemma_pow_adds, lemma_pow_multiplies, lemma_pow_mod_noop,
    lemma_square_is_pow2,
};
use vstd::arithmetic::div_mod::{lemma_mul_mod_noop_general, lemma_mod_bound};

verus! {

/// Product of two residues, reduced modulo `m`.
pub fn mul_mod(a: u64, b: u64, m: u64) -> (r: u64)
    requires
        m > 1,
    ensures
        r == (a * b) % (m as int),
        r < m,
{
    proof {
        vstd::arithmetic::mul::lemma_mul_upper_bound(a as int, u64::MAX as int, b as int, u64::MAX as int);
        lemma_mod_bound(a as int * b as int, m as int);
    }
    (((a as u128) * (b as u128)) % (m as u128)) as u64
}

/// `base^exp % modulus` by square-and-multiply.
pub fn mod_pow(base: u64, exp: u64, modulus: u64) -> (r: u64)
    requires
        modulus > 1,
    ensures
        r == pow(base as int, exp as nat) % (modulus as int),
        r < modulus,
{
    let mut result: u64 = 1;
    let mut b: u64 = base % modulus;
    let mut e: u64 = exp;
    proof {
        lemma_pow_mod_noop(base as int, exp as nat, modulus as int);
    }
    while e > 0
        invariant
            modulus > 1,
            result < modulus,
            b < modulus,
            (result * pow(b as int, e as nat)) % (modulus as int)
                == pow(base as int, exp as nat) % (modulus as int),
        decreases e,
    {
        let ghost m = modulus as int;
        let ghost r0 = result as int;
        let ghost b0 = b as int;
        let ghost e0 = e as nat;
        if e % 2 == 1 {
            result = mul_mod(result, b, modulus);
            proof {
                // pow(b0, e0) == b0 * pow(b0 * b0, (e0 - 1) / 2)
                lemma_split_odd_exponent(b0, e0);
                lemma_step(r0, b0, e0, m, (e0 - 1) as nat / 2, result as int, true);
            }
        } else {
            proof {
                lemma_split_even_exponent(b0, e0);
                lemma_step(r0, b0, e0, m, e0 / 2, r0 % m, false);
                // result is already reduced, so r0 % m == r0
                lemma_mod_bound(r0, m);
                assert(r0 % m == r0) by {
                    vstd::arithmetic::div_mod::lemma_small_mod(r0 as nat, m as nat);
                }
            }
        }
        b = mul_mod(b, b, modulus);
        e = e / 2;
    }
    proof {
        lemma_pow1(result as int);
        assert(pow(b as int, 0) == 1) by {
            vstd::arithmetic::power::lemma_pow0(b as int);
        }
        lemma_mod_bound(result as int, modulus as int);
        vstd::arithmetic::div_mod::lemma_small_mod(result as nat, modulus as nat);
    }
    result
}

/// For odd `e`, `b^e == b * (b*b)^((e-1)/2)`.
proof fn lemma_split_odd_exponent(b: int, e: nat)
    requires
        e % 2 == 1,
    ensures
        pow(b, e) == b * pow(b * b, ((e - 1) as nat) / 2),
{
    let k = ((e - 1) as nat) / 2;
    assert(e == 2 * k + 1);
    lemma_pow_adds(b, 1, (2 * k) as nat);
    lemma_pow1(b);
    lemma_square_is_pow2(b);
    lemma_pow_multiplies(b, 2, k);
    assert(pow(b, (2 * k) as nat) == pow(pow(b, 2), k));
    assert(pow(b, 2) == b * b);
}

/// For even `e`, `b^e == (b*b)^(e/2)`.
proof fn lemma_split_even_exponent(b: int, e: nat)
    requires
        e % 2 == 0,
    ensures
        pow(b, e) == pow(b * b, e / 2),
{
    let k = e / 2;
    assert(e == 2 * k);
    lemma_square_is_pow2(b);
    lemma_pow_multiplies(b, 2, k);
    assert(pow(b, (2 * k) as nat) == pow(pow(b, 2), k));
    assert(pow(b, 2) == b * b);
}

/// One square-and-multiply step keeps the loop invariant: with the exponent
/// halved and the base squared (both modulo `m`), the partial product still
/// stands for the same power.
proof fn lemma_step(r0: int, b0: int, e0: nat, m: int, e1: nat, r1: int, odd: bool)
    requires
        m > 1,
        odd ==> e0 % 2 == 1 && r1 == (r0 * b0) % m,
        !odd ==> e0 % 2 == 0 && r1 == r0 % m,
        odd ==> pow(b0, e0) == b0 * pow(b0 * b0, e1),
        !odd ==> pow(b0, e0) == pow(b0 * b0, e1),
    ensures
        (r1 * pow((b0 * b0) % m, e1)) % m == (r0 * pow(b0, e0)) % m,
{
    let bb = b0 * b0;
    lemma_pow_mod_noop(bb, e1, m);
    // (r1 * pow(bb % m, e1)) % m == (r1 * pow(bb, e1)) % m
    lemma_mul_mod_noop_general(r1, pow(bb % m, e1), m);
    lemma_mul_mod_noop_general(r1, pow(bb, e1), m);
    assert((r1 * pow(bb % m, e1)) % m == ((r1 % m) * (pow(bb % m, e1) % m)) % m);
    assert((r1 * pow(bb, e1)) % m == ((r1 % m) * (pow(bb, e1) % m)) % m);
    if odd {
        // r1 == (r0 * b0) % m, so r1 * pow(bb, e1) ~ r0 * b0 * pow(bb, e1) (mod m)
        lemma_mul_mod_noop_general(r0 * b0, pow(bb, e1), m);
        assert(((r0 * b0) % m * (pow(bb, e1) % m)) % m == ((r0 * b0) * pow(bb, e1)) % m);
        assert(r1 % m == (r0 * b0) % m) by {
            vstd::arithmetic::div_mod::lemma_mod_twice(r0 * b0, m);
        }
        assert((r1 * pow(bb, e1)) % m == ((r0 * b0) * pow(bb, e1)) % m);
        assert((r0 * b0) * pow(bb, e1) == r0 * (b0 * pow(bb, e1))) by {
            vstd::arithmetic::mul::lemma_mul_is_associative(r0, b0, pow(bb, e1));
        }
        assert((r1 * pow(bb % m, e1)) % m == (r0 * pow(b0, e0)) % m);
    } else {
        lemma_mul_mod_noop_general(r0, pow(bb, e1), m);
        assert(r1 % m == r0 % m) by {
            vstd::arithmetic::div_mod::lemma_mod_twice(r0, m);
        }
        assert((r1 * pow(bb % m, e1)) % m == (r0 * pow(bb, e1)) % m);
    }
}

} // verus!
