//! A Chaum-Pedersen zero-knowledge-proof authentication library.
//!
//! A prover demonstrates knowledge of a secret exponent `x` behind two
//! discrete-log commitments `y1 = g^x mod p` and `y2 = h^x mod p` without
//! revealing `x`. The library provides group-parameter generation, the
//! prover's commitment/response arithmetic, the verifier's equality check,
//! and the session bookkeeping that correlates a challenge with its response.

pub mod modular;
pub mod prover;
pub mod server;
pub mod store;
pub mod verification;
pub mod zkp_crypto;
