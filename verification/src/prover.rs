//! Prover side of the Chaum-Pedersen protocol.
//!
//! A prover holds the group parameters and, given the secret exponent `x`,
//! computes the registration commitments `(g^x, h^x) mod p`, a per-session
//! commitment `(g^k, h^k) mod p` for a fresh nonce `k`, and the response
//! `s = (k - c*x) mod q` to a challenge `c`. All three are pure functions
//! of their arguments; the response uses true modular reduction into
//! `[0, q)`, never a truncating remainder.

use vstd::prelude::*;
use vstd::arithmetic::power::pow;
use vstd::arithmetic::div_mod::{
    lemma_sub_mod_noop, lemma_mod_add_multiples_vanish, lemma_mod_bound,
};
use crate::modular::mod_pow;

verus! {

/// A Chaum-Pedersen prover: the two generators, the subgroup order and the
/// modulus of the working group.
pub struct ChaumPedersenProver {
    /// First generator.
    pub g: u64,
    /// Second generator.
    pub h: u64,
    /// Group order.
    pub q: u64,
    /// Group modulus.
    pub p: u64,
}

/// The prover capability: registration keys, per-session commitment, and
/// the response to a challenge. Each implementor fixes the meaning of its
/// three operations through the paired spec functions, so callers get exact
/// contracts whatever proof system stands behind the trait.
pub trait ZKPProver {
    /// When the prover's parameters are usable.
    spec fn wf(&self) -> bool;

    /// The pair of registration commitments this prover owes for `secret`.
    spec fn registration_keys_spec(&self, secret: u64) -> (int, int);

    /// The pair of session commitments this prover owes for the nonce `k`.
    spec fn commitment_spec(&self, k: u64) -> (int, int);

    /// The response this prover owes for nonce `k`, secret and challenge.
    spec fn response_spec(&self, k: u64, secret: u64, c: u64) -> int;

    /// Compute the registration commitments bound to `secret`.
    fn generate_registration_keys(&self, secret: u64) -> (keys: (u64, u64))
        requires
            self.wf(),
        ensures
            (keys.0 as int, keys.1 as int) == self.registration_keys_spec(secret),
    ;

    /// Compute the per-session commitments for the fresh nonce `k`.
    fn generate_commitment(&self, k: u64) -> (commitment: (u64, u64))
        requires
            self.wf(),
        ensures
            (commitment.0 as int, commitment.1 as int) == self.commitment_spec(k),
    ;

    /// Compute the response to challenge `c` for nonce `k` and the secret.
    fn generate_challenge(&self, k: u64, secret: u64, c: u64) -> (s: u64)
        requires
            self.wf(),
        ensures
            s as int == self.response_spec(k, secret, c),
    ;
}

impl ZKPProver for ChaumPedersenProver {
    open spec fn wf(&self) -> bool {
        self.p > 1 && self.q >= 1
    }

    open spec fn registration_keys_spec(&self, secret: u64) -> (int, int) {
        (
            pow(self.g as int, secret as nat) % (self.p as int),
            pow(self.h as int, secret as nat) % (self.p as int),
        )
    }

    open spec fn commitment_spec(&self, k: u64) -> (int, int) {
        (
            pow(self.g as int, k as nat) % (self.p as int),
            pow(self.h as int, k as nat) % (self.p as int),
        )
    }

    open spec fn response_spec(&self, k: u64, secret: u64, c: u64) -> int {
        (k - c * secret) % (self.q as int)
    }

    fn generate_registration_keys(&self, secret: u64) -> (keys: (u64, u64)) {
        let first = mod_pow(self.g, secret, self.p);
        let second = mod_pow(self.h, secret, self.p);
        (first, second)
    }

    fn generate_commitment(&self, k: u64) -> (commitment: (u64, u64)) {
        let first = mod_pow(self.g, k, self.p);
        let second = mod_pow(self.h, k, self.p);
        (first, second)
    }

    fn generate_challenge(&self, k: u64, secret: u64, c: u64) -> (s: u64) {
        let q = self.q;
        let km = k % q;
        proof {
            vstd::arithmetic::mul::lemma_mul_upper_bound(
                c as int, u64::MAX as int, secret as int, u64::MAX as int,
            );
            lemma_mod_bound(c as int * secret as int, q as int);
        }
        let cxm = (((c as u128) * (secret as u128)) % (q as u128)) as u64;
        proof {
            let ghost a = km as int;
            let ghost b = cxm as int;
            let ghost qi = q as int;
            // (a + q - b) % q == (a - b) % q == (k - c*secret) % q
            lemma_mod_add_multiples_vanish(a - b, qi);
            lemma_sub_mod_noop(k as int, c as int * secret as int, qi);
            lemma_mod_bound(a + qi - b, qi);
        }
        (((km as u128) + (q as u128) - (cxm as u128)) % (q as u128)) as u64
    }
}

} // verus!
