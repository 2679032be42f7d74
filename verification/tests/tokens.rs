//! Token codec and key handling, exercised against the real crates.

use nymph::api_key::{generate_key, hash_key, random_signing_key};
use nymph::claims::{Claims, DecodeError, SigningKeys};

const SECRET: &str = "c2VjcmV0a2V5c2VjcmV0a2V5";
const OTHER_SECRET: &str = "b3RoZXJrZXlvdGhlcmtleQ==";

#[test]
fn signing_keys_accept_base64_secret() {
    let keys = SigningKeys::new(SECRET).unwrap();
    assert!(!keys.is_random());
}

#[test]
fn signing_keys_reject_bad_secret() {
    assert!(matches!(SigningKeys::new("!!! not base64 !!!"), Err(DecodeError::InvalidKey)));
}

#[test]
fn random_keys_are_random() {
    let keys = SigningKeys::new_random();
    assert!(keys.is_random());
}

#[test]
fn round_trip_within_ttl_yields_subject() {
    let keys = SigningKeys::new(SECRET).unwrap();
    let now = 1_700_000_000;
    let claims = Claims::builder(42).exp(900).build(now);
    let token = claims.encode(&keys).unwrap();
    let decoded = Claims::decode(&token, &keys, now + 600).unwrap();
    assert_eq!(decoded.sub, 42);
    assert_eq!(decoded.iat, now);
    assert_eq!(decoded.exp, now + 900);
}

#[test]
fn round_trip_after_ttl_yields_expired() {
    let keys = SigningKeys::new(SECRET).unwrap();
    let now = 1_700_000_000;
    let token = Claims::builder(42).exp(900).build(now).encode(&keys).unwrap();
    let late = Claims::decode(&token, &keys, now + 900);
    assert!(matches!(late, Err(DecodeError::ExpiredSignature)));
}

#[test]
fn decoding_with_a_different_key_yields_invalid_signature() {
    let keys = SigningKeys::new(SECRET).unwrap();
    let other = SigningKeys::new(OTHER_SECRET).unwrap();
    let now = 1_700_000_000;
    let token = Claims::builder(42).exp(900).build(now).encode(&keys).unwrap();
    let decoded = Claims::decode(&token, &other, now);
    assert!(matches!(decoded, Err(DecodeError::InvalidSignature)));
}

#[test]
fn decoding_a_truncated_token_yields_malformed() {
    let keys = SigningKeys::new(SECRET).unwrap();
    let now = 1_700_000_000;
    let token = Claims::builder(42).exp(900).build(now).encode(&keys).unwrap();
    let truncated = &token[..token.len() / 2];
    let decoded = Claims::decode(truncated, &keys, now);
    assert!(matches!(decoded, Err(DecodeError::Malformed)));
}

#[test]
fn decoding_garbage_yields_malformed() {
    let keys = SigningKeys::new(SECRET).unwrap();
    assert!(matches!(Claims::decode("not a token", &keys, 0), Err(DecodeError::Malformed)));
}

#[test]
fn tokens_signed_with_a_random_key_die_with_the_process() {
    let keys = SigningKeys::new_random();
    let reborn = SigningKeys::new_random();
    let now = 1_700_000_000;
    let token = Claims::builder(7).exp(900).build(now).encode(&keys).unwrap();
    assert!(Claims::decode(&token, &keys, now).is_ok());
    assert!(matches!(Claims::decode(&token, &reborn, now), Err(DecodeError::InvalidSignature)));
}

#[test]
fn hash_key_matches_known_sha256_vectors() {
    assert_eq!(hash_key(""), "e3b0c44298fc1c149afbf4c8996fb92427ae41e4649b934ca495991b7852b855");
    assert_eq!(
        hash_key("abc"),
        "ba7816bf8f01cfea414140de5dae2223b00361a396177a9cb410ff61f20015ad"
    );
}

#[test]
fn generated_keys_are_long_alphanumeric_and_fresh() {
    let a = generate_key();
    let b = generate_key();
    assert_eq!(a.len(), 64);
    assert!(a.chars().all(|c| c.is_ascii_alphanumeric()));
    assert_ne!(a, b);
}

#[test]
fn random_signing_key_is_hex_of_256_bytes() {
    let key = random_signing_key();
    assert_eq!(key.len(), 512);
    assert!(key.chars().all(|c| c.is_ascii_hexdigit() && !c.is_ascii_uppercase()));
}

#[test]
fn zero_ttl_tokens_are_expired_on_arrival() {
    let keys = SigningKeys::new(SECRET).unwrap();
    let now = 1_700_000_000;
    let token = Claims::builder(1).exp(0).build(now).encode(&keys).unwrap();
    assert!(matches!(Claims::decode(&token, &keys, now), Err(DecodeError::ExpiredSignature)));
}
