use zkp_auth::modular::{mod_pow, mul_mod};
use zkp_auth::zkp_crypto::{find_group_generator, find_modulus, generate_keys};

#[test]
fn test_generate_keys() {
    let keys = generate_keys().unwrap();
    println!(
        "Found keys: {}, {}, {}, {}",
        keys.modulus, keys.order, keys.first_generator, keys.second_generator
    );
    assert_ne!(0, keys.order);
    assert_ne!(0, keys.first_generator);
    assert_ne!(0, keys.second_generator);
}

#[test]
fn generated_parameters_satisfy_group_invariant() {
    let keys = generate_keys().unwrap();
    let p = keys.modulus;
    let q = keys.order;
    let g = keys.first_generator;
    let h = keys.second_generator;
    assert!(primes::is_prime(p));
    assert!(primes::is_prime(q));
    assert_eq!(0, (p - 1) % q);
    assert_eq!(1, mod_pow(g, q, p));
    assert_eq!(1, mod_pow(h, q, p));
    assert!(g > 1 && g < p);
    assert!(h > 1 && h < p);
    assert_ne!(g, h);
}

#[test]
fn mod_pow_exact_values() {
    assert_eq!(18, mod_pow(4, 3, 23)); // 64 mod 23
    assert_eq!(16, mod_pow(9, 3, 23)); // 729 mod 23
    assert_eq!(12, mod_pow(4, 5, 23)); // 1024 mod 23
    assert_eq!(8, mod_pow(9, 5, 23));
    assert_eq!(1, mod_pow(5, 0, 7));
    assert_eq!(0, mod_pow(0, 3, 7));
    // a large base and exponent exercise the square-and-multiply path
    assert_eq!(
        ((1u128 << 64) - 1).pow(2) as u128 % 1_000_003 as u128,
        mod_pow(u64::MAX, 2, 1_000_003) as u128
    );
}

#[test]
fn mul_mod_exact_values() {
    assert_eq!(1, mul_mod(18, 9, 23)); // 162 mod 23
    assert_eq!(0, mul_mod(6, 4, 12));
    // the u128 intermediate keeps the full product exact
    assert_eq!(
        (u64::MAX as u128 * u64::MAX as u128 % 1_000_003u128) as u64,
        mul_mod(u64::MAX, u64::MAX, 1_000_003)
    );
}

#[test]
fn find_modulus_small_prime() {
    // for q = 11 the first multiplier that works is 2: 2*11 + 1 = 23 is prime
    assert_eq!(23, find_modulus(11));
    // for q = 7: 2*7+1 = 15, 3*7+1 = 22 are composite, 4*7+1 = 29 is prime
    assert_eq!(29, find_modulus(7));
}

#[test]
fn find_group_generator_yields_order_q_element() {
    let generator = find_group_generator(23, 11);
    if generator != 1 {
        assert!(generator > 1 && generator < 23);
        assert_eq!(1, mod_pow(generator, 11, 23));
    }
}
