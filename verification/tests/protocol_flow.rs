use zkp_auth::prover::{ChaumPedersenProver, ZKPProver};
use zkp_auth::server::{AuthError, MyAuth};
use zkp_auth::store::{Authentication, RegistrationSecret};
use zkp_auth::verification::{calculate_product, ChaumPedersenVerifier, ZKPVerifier};
use zkp_auth::zkp_crypto::ChaumPedersenAttrs;

fn demo_attrs() -> ChaumPedersenAttrs {
    // the order-11 subgroup of (Z/23Z)*, generated by 4 and 9
    ChaumPedersenAttrs { modulus: 23, order: 11, first_generator: 4, second_generator: 9 }
}

#[test]
fn fixed_scenario_accepts_honest_response() {
    let attrs = demo_attrs();
    let prover = ChaumPedersenProver {
        g: attrs.first_generator,
        h: attrs.second_generator,
        q: attrs.order,
        p: attrs.modulus,
    };
    let (y1, y2) = prover.generate_registration_keys(3);
    assert_eq!((18, 16), (y1, y2)); // 4^3 mod 23, 9^3 mod 23
    let (r1, r2) = prover.generate_commitment(5);
    assert_eq!((12, 8), (r1, r2)); // 4^5 mod 23, 9^5 mod 23
    let s = prover.generate_challenge(5, 3, 2);
    assert_eq!(10, s); // (5 - 2*3) mod 11, reduced into [0, 11)
    let verifier = ChaumPedersenVerifier { attrs };
    let pending = Authentication { r1, r2, c: 2, user: "user".to_string() };
    assert!(verifier.verify(RegistrationSecret { y1, y2 }, &pending, s));
}

#[test]
fn fixed_scenario_rejects_shifted_response() {
    let attrs = demo_attrs();
    let prover = ChaumPedersenProver {
        g: attrs.first_generator,
        h: attrs.second_generator,
        q: attrs.order,
        p: attrs.modulus,
    };
    let (y1, y2) = prover.generate_registration_keys(3);
    let (r1, r2) = prover.generate_commitment(5);
    let s = prover.generate_challenge(5, 3, 2);
    let verifier = ChaumPedersenVerifier { attrs };
    let pending = Authentication { r1, r2, c: 2, user: "user".to_string() };
    assert!(!verifier.verify(RegistrationSecret { y1, y2 }, &pending, s + 1));
}

#[test]
fn wrong_secret_is_rejected_for_this_challenge() {
    let attrs = demo_attrs();
    let prover = ChaumPedersenProver {
        g: attrs.first_generator,
        h: attrs.second_generator,
        q: attrs.order,
        p: attrs.modulus,
    };
    // registration bound to x = 3, response computed from x = 4
    let (y1, y2) = prover.generate_registration_keys(3);
    let (r1, r2) = prover.generate_commitment(5);
    let s = prover.generate_challenge(5, 4, 2);
    let verifier = ChaumPedersenVerifier { attrs };
    let pending = Authentication { r1, r2, c: 2, user: "user".to_string() };
    assert!(!verifier.verify(RegistrationSecret { y1, y2 }, &pending, s));
}

#[test]
fn calculate_product_exact_value() {
    // 18^2 * 4^10 mod 23 == 12
    assert_eq!(12, calculate_product(18, 2, 4, 10, 23));
    // 16^2 * 9^10 mod 23 == 8
    assert_eq!(8, calculate_product(16, 2, 9, 10, 23));
}

#[test]
fn end_to_end_authentication_accepts() {
    let mut auth = MyAuth::new();
    let attrs = auth.initialise().expect("group generation must succeed at startup");
    let prover = ChaumPedersenProver {
        g: attrs.first_generator,
        h: attrs.second_generator,
        q: attrs.order,
        p: attrs.modulus,
    };
    let secret_x: u64 = 12;
    let (y1, y2) = prover.generate_registration_keys(secret_x);
    auth.register("alice".to_string(), y1, y2);
    let k: u64 = 42;
    let (r1, r2) = prover.generate_commitment(k);
    let (auth_id, c) = auth.create_authentication_challenge("alice".to_string(), r1, r2);
    assert_eq!(36, auth_id.len()); // an opaque hyphenated identifier
    assert!((2..10).contains(&c));
    let s = prover.generate_challenge(k, secret_x, c);
    let token = auth.verify_authentication(auth_id, s).expect("honest response must be accepted");
    assert_eq!(36, token.len());
}

#[test]
fn end_to_end_wrong_response_is_rejected() {
    let mut auth = MyAuth::new();
    let attrs = auth.initialise().expect("group generation must succeed at startup");
    let prover = ChaumPedersenProver {
        g: attrs.first_generator,
        h: attrs.second_generator,
        q: attrs.order,
        p: attrs.modulus,
    };
    let (y1, y2) = prover.generate_registration_keys(7);
    auth.register("bob".to_string(), y1, y2);
    let (r1, r2) = prover.generate_commitment(9);
    let (auth_id, c) = auth.create_authentication_challenge("bob".to_string(), r1, r2);
    let s = prover.generate_challenge(9, 7, c);
    let wrong = if s + 1 < attrs.order { s + 1 } else { 0 };
    assert_eq!(Err(AuthError::Rejected), auth.verify_authentication(auth_id, wrong));
}

#[test]
fn initialise_is_idempotent() {
    let mut auth = MyAuth::new();
    let first = auth.initialise().expect("group generation must succeed at startup");
    let second = auth.initialise().expect("an initialised backend returns its parameters");
    assert_eq!(first, second);
}

#[test]
fn unknown_session_is_a_client_error() {
    let mut auth = MyAuth::new();
    auth.initialise().expect("group generation must succeed at startup");
    let outcome = auth.verify_authentication("no-such-session".to_string(), 5);
    assert_eq!(Err(AuthError::UnknownSession), outcome);
}

#[test]
fn missing_registration_is_a_server_fault() {
    let mut auth = MyAuth::new();
    auth.initialise().expect("group generation must succeed at startup");
    let (auth_id, _c) = auth.create_authentication_challenge("ghost".to_string(), 5, 6);
    assert_eq!(Err(AuthError::ServerFault), auth.verify_authentication(auth_id, 1));
}

#[test]
fn uninitialised_backend_is_a_server_fault() {
    let mut auth = MyAuth::new();
    let (auth_id, _c) = auth.create_authentication_challenge("early".to_string(), 5, 6);
    assert_eq!(Err(AuthError::ServerFault), auth.verify_authentication(auth_id, 1));
}

#[test]
fn register_then_verify_uses_latest_registration() {
    let mut auth = MyAuth::new();
    let attrs = auth.initialise().expect("group generation must succeed at startup");
    let prover = ChaumPedersenProver {
        g: attrs.first_generator,
        h: attrs.second_generator,
        q: attrs.order,
        p: attrs.modulus,
    };
    // first registration is overwritten by a re-registration with a new secret
    let (old_y1, old_y2) = prover.generate_registration_keys(3);
    auth.register("carol".to_string(), old_y1, old_y2);
    let (y1, y2) = prover.generate_registration_keys(8);
    auth.register("carol".to_string(), y1, y2);
    let (r1, r2) = prover.generate_commitment(6);
    let (auth_id, c) = auth.create_authentication_challenge("carol".to_string(), r1, r2);
    let s = prover.generate_challenge(6, 8, c);
    assert!(auth.verify_authentication(auth_id, s).is_ok());
}
