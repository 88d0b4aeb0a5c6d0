//! Verifier side of the Chaum-Pedersen protocol.
//!
//! Given a stored registration `(y1, y2)`, a stored pending authentication
//! `(r1, r2, c)` and a claimed response `s`, the verifier reconstructs the
//! prover's commitments: it accepts exactly when `g^s * y1^c == r1 (mod p)`
//! and `h^s * y2^c == r2 (mod p)`. All arithmetic is exact modular
//! arithmetic on integers. The completeness law — an honest prover's
//! response is always accepted — is proved in [`lemma_completeness`].
//!
//! The trait [`ZKPVerifier`] is the substitution point for other proof
//! systems, for instance elliptic-curve based ones.

use vstd::prelude::*;
use vstd::arithmetic::power::{
    pow, lemma1_pow, lemma_pow_adds, lemma_pow_multiplies, lemma_pow_mod_noop,
};
use vstd::arithmetic::div_mod::{
    lemma_mul_mod_noop_general, lemma_add_mod_noop_right, lemma_fundamental_div_mod,
    lemma_mod_bound, lemma_small_mod,
};
use crate::modular::{mod_pow, mul_mod};
use crate::store::{Authentication, RegistrationSecret};
use crate::zkp_crypto::ChaumPedersenAttrs;
use crate::prover::{ChaumPedersenProver, ZKPProver};

verus! {

/// The quantity the verifier compares against a commitment:
/// `(y^c * g^s) mod p`.
pub open spec fn product_spec(y: int, c: nat, generator: int, s: nat, modulus: int) -> int {
    (pow(y, c) * pow(generator, s)) % modulus
}

/// Compute `(y^c * generator^s) mod modulus` in exact integer arithmetic.
pub fn calculate_product(y: u64, c: u64, generator: u64, s: u64, modulus: u64) -> (r: u64)
    requires
        modulus > 1,
    ensures
        r as int == product_spec(y as int, c as nat, generator as int, s as nat, modulus as int),
{
    let first = mod_pow(y, c, modulus);
    let second = mod_pow(generator, s, modulus);
    proof {
        lemma_mul_mod_noop_general(
            pow(y as int, c as nat),
            pow(generator as int, s as nat),
            modulus as int,
        );
    }
    mul_mod(first, second, modulus)
}

/// A Chaum-Pedersen verifier over a fixed set of group parameters.
#[derive(Clone, Copy, Debug)]
pub struct ChaumPedersenVerifier {
    pub attrs: ChaumPedersenAttrs,
}

/// The verifier capability: decide whether a response authenticates a
/// stored registration against a stored pending authentication. Each
/// implementor fixes the meaning of acceptance through `verify_spec`.
pub trait ZKPVerifier {
    /// When the verifier's parameters are usable.
    spec fn wf(&self) -> bool;

    /// The acceptance condition this verifier decides.
    spec fn verify_spec(
        &self,
        secret: RegistrationSecret,
        authentication: Authentication,
        challenge: u64,
    ) -> bool;

    /// Decide whether response `challenge` is accepted for the given
    /// registration and pending authentication.
    fn verify(
        &self,
        secret: RegistrationSecret,
        authentication: &Authentication,
        challenge: u64,
    ) -> (r: bool)
        requires
            self.wf(),
        ensures
            r == self.verify_spec(secret, *authentication, challenge),
    ;
}

impl ZKPVerifier for ChaumPedersenVerifier {
    open spec fn wf(&self) -> bool {
        self.attrs.modulus > 1
    }

    /// Acceptance for Chaum-Pedersen: both reconstructed commitments match,
    /// modulo `p`: `y1^c * g^s == r1` and `y2^c * h^s == r2`.
    open spec fn verify_spec(
        &self,
        secret: RegistrationSecret,
        authentication: Authentication,
        challenge: u64,
    ) -> bool {
        &&& product_spec(
            secret.y1 as int,
            authentication.c as nat,
            self.attrs.first_generator as int,
            challenge as nat,
            self.attrs.modulus as int,
        ) == authentication.r1 as int
        &&& product_spec(
            secret.y2 as int,
            authentication.c as nat,
            self.attrs.second_generator as int,
            challenge as nat,
            self.attrs.modulus as int,
        ) == authentication.r2 as int
    }

    fn verify(
        &self,
        secret: RegistrationSecret,
        authentication: &Authentication,
        challenge: u64,
    ) -> (r: bool) {
        let first = calculate_product(
            secret.y1,
            authentication.c,
            self.attrs.first_generator,
            challenge,
            self.attrs.modulus,
        );
        let second = calculate_product(
            secret.y2,
            authentication.c,
            self.attrs.second_generator,
            challenge,
            self.attrs.modulus,
        );
        first == authentication.r1 && second == authentication.r2
    }
}

/// An exponent can be reduced modulo the order of the base: when
/// `b^q == 1 (mod m)`, the power `b^e (mod m)` depends only on `e % q`.
proof fn lemma_pow_mod_order(b: int, q: nat, e: nat, m: int)
    requires
        m > 1,
        q > 0,
        pow(b, q) % m == 1,
    ensures
        pow(b, e) % m == pow(b, e % q) % m,
{
    let d = e / q;
    let r = e % q;
    lemma_fundamental_div_mod(e as int, q as int);
    assert(e == q * d + r);
    lemma_pow_adds(b, (q * d) as nat, r);
    assert(pow(b, e) == pow(b, (q * d) as nat) * pow(b, r));
    lemma_pow_multiplies(b, q, d);
    assert(pow(b, (q * d) as nat) == pow(pow(b, q), d));
    lemma_pow_mod_noop(pow(b, q), d, m);
    assert(pow(pow(b, q) % m, d) % m == pow(pow(b, q), d) % m);
    lemma1_pow(d);
    assert(pow(1, d) == 1);
    lemma_small_mod(1, m as nat);
    assert(pow(pow(b, q), d) % m == 1);
    lemma_mul_mod_noop_general(pow(pow(b, q), d), pow(b, r), m);
    assert((pow(pow(b, q), d) * pow(b, r)) % m == ((pow(pow(b, q), d) % m) * pow(b, r)) % m);
    lemma_mul_mod_noop_general(1, pow(b, r), m);
    assert(pow(b, e) % m == pow(b, r) % m);
}

/// For one generator: the verifier's reconstruction
/// `(g^x mod p)^c * g^s (mod p)` equals the commitment `g^k mod p` when
/// `s == (k - c*x) mod q` and `g^q == 1 (mod p)`.
proof fn lemma_completeness_one_generator(g: int, x: u64, k: u64, c: u64, s: u64, q: u64, p: int)
    requires
        p > 1,
        q >= 1,
        pow(g, q as nat) % p == 1,
        s as int == (k - c * x) % (q as int),
    ensures
        product_spec(pow(g, x as nat) % p, c as nat, g, s as nat, p) == pow(g, k as nat) % p,
{
    let y = pow(g, x as nat) % p;
    // y^c == g^(x*c) (mod p)
    lemma_pow_mod_noop(pow(g, x as nat), c as nat, p);
    lemma_pow_multiplies(g, x as nat, c as nat);
    assert(pow(y, c as nat) % p == pow(g, (x as nat * c as nat) as nat) % p);
    // y^c * g^s == g^(x*c) * g^s == g^(x*c + s) (mod p)
    lemma_mul_mod_noop_general(pow(y, c as nat), pow(g, s as nat), p);
    lemma_mul_mod_noop_general(pow(g, (x as nat * c as nat) as nat), pow(g, s as nat), p);
    lemma_pow_adds(g, (x as nat * c as nat) as nat, s as nat);
    let e = (x as nat * c as nat + s as nat) as nat;
    assert(product_spec(y, c as nat, g, s as nat, p) == pow(g, e) % p);
    // (x*c + s) % q == k % q, because s == (k - c*x) % q
    assert(e % (q as nat) == (k as nat) % (q as nat)) by {
        lemma_add_mod_noop_right(x as int * c as int, k as int - c as int * x as int, q as int);
        assert((x as int * c as int + (k as int - c as int * x as int) % (q as int)) % (q as int)
            == (x as int * c as int + (k as int - c as int * x as int)) % (q as int));
        vstd::arithmetic::mul::lemma_mul_is_commutative(x as int, c as int);
        assert(x as int * c as int + (k as int - c as int * x as int) == k as int);
    }
    // reduce both exponents modulo the order q
    lemma_pow_mod_order(g, q as nat, e, p);
    lemma_pow_mod_order(g, q as nat, k as nat, p);
}

/// Completeness law: for every well-formed set of group parameters, every
/// secret `x`, nonce `k` and challenge `c`, the verifier accepts the
/// response an honest prover produces for its own registration keys and
/// commitment.
pub proof fn lemma_completeness(attrs: ChaumPedersenAttrs, x: u64, k: u64, c: u64, s: u64, user: String)
    requires
        attrs.wf(),
        ({
            let prover = ChaumPedersenProver {
                g: attrs.first_generator,
                h: attrs.second_generator,
                q: attrs.order,
                p: attrs.modulus,
            };
            s as int == prover.response_spec(k, x, c)
        }),
    ensures
        ({
            let prover = ChaumPedersenProver {
                g: attrs.first_generator,
                h: attrs.second_generator,
                q: attrs.order,
                p: attrs.modulus,
            };
            let verifier = ChaumPedersenVerifier { attrs };
            let (y1, y2) = prover.registration_keys_spec(x);
            let (r1, r2) = prover.commitment_spec(k);
            verifier.verify_spec(
                RegistrationSecret { y1: y1 as u64, y2: y2 as u64 },
                Authentication { r1: r1 as u64, r2: r2 as u64, c, user },
                s,
            )
        }),
{
    let p = attrs.modulus as int;
    let g = attrs.first_generator as int;
    let h = attrs.second_generator as int;
    let q = attrs.order;
    lemma_mod_bound(pow(g, x as nat), p);
    lemma_mod_bound(pow(h, x as nat), p);
    lemma_mod_bound(pow(g, k as nat), p);
    lemma_mod_bound(pow(h, k as nat), p);
    lemma_completeness_one_generator(g, x, k, c, s, q, p);
    lemma_completeness_one_generator(h, x, k, c, s, q, p);
}

} // verus!
