use revtunnel::challenge_response::{Challenge, Response};

fn sha2_direct(psk: &[u8], salt: &[u8]) -> Vec<u8> {
    let mut data = Vec::new();
    data.extend_from_slice(psk);
    data.extend_from_slice(salt);
    let out = <sha2::Sha256 as sha2::Digest>::digest(&data);
    out.to_vec()
}

#[test]
fn derive_response_is_sha256_of_psk_then_salt() {
    let psk = b"hunter2";
    let salt = [7u8; 32];
    let challenge = Challenge::from_slice(psk, &salt);
    let response = challenge.to_response();
    assert_eq!(response.hash_bytes().as_slice(), sha2_direct(psk, &salt).as_slice());
}

#[test]
fn derive_response_empty_psk() {
    let salt = [0u8; 32];
    let challenge = Challenge::from_slice(b"", &salt);
    let response = challenge.to_response();
    assert_eq!(response.hash_bytes().as_slice(), sha2_direct(b"", &salt).as_slice());
    assert_eq!(response.hash_bytes().len(), 32);
}

#[test]
fn derive_response_salt_position_matters() {
    // psk ‖ salt, psk first: moving a byte across the boundary changes the input.
    let salt_a = [1u8; 32];
    let mut salt_b = [1u8; 32];
    salt_b[0] = 2;
    let r_a = Challenge::from_slice(b"k", &salt_a).to_response();
    let r_b = Challenge::from_slice(b"k", &salt_b).to_response();
    assert_ne!(r_a.hash_bytes(), r_b.hash_bytes());
}

#[test]
fn check_same_psk_same_salt_is_ok() {
    let salt = [9u8; 32];
    let a = Challenge::from_slice(b"hunter2", &salt).to_response();
    let b = Challenge::from_slice(b"hunter2", &salt).to_response();
    assert!(a.check(&b).is_ok());
}

#[test]
fn check_distinct_psks_is_mismatch() {
    let salt = [3u8; 32];
    let a = Challenge::from_slice(b"a", &salt).to_response();
    let b = Challenge::from_slice(b"b", &salt).to_response();
    assert!(a.check(&b).is_err());
    assert!(b.check(&a).is_err());
}

#[test]
fn check_empty_psks_match() {
    let salt = [0u8; 32];
    let a = Challenge::from_slice(b"", &salt).to_response();
    let b = Challenge::from_slice(b"", &salt).to_response();
    assert!(a.check(&b).is_ok());
}

#[test]
fn check_single_differing_byte_is_mismatch() {
    let mut h = [5u8; 32];
    let a = Response::from_slice(&h);
    h[31] = 6;
    let b = Response::from_slice(&h);
    assert!(a.check(&b).is_err());
}

#[test]
fn create_draws_a_fresh_32_byte_salt() {
    let c1 = Challenge::create(b"k").unwrap();
    let c2 = Challenge::create(b"k").unwrap();
    assert_eq!(c1.salt_bytes().len(), 32);
    assert_eq!(c2.salt_bytes().len(), 32);
    // Two draws from the OS random source agreeing on all 32 bytes is
    // negligible; equal draws would mean the source was never consulted.
    assert_ne!(c1.salt_bytes(), c2.salt_bytes());
}

#[test]
fn response_from_slice_round_trip() {
    let bytes = [0xabu8; 32];
    let r = Response::from_slice(&bytes);
    assert_eq!(r.hash_bytes().as_slice(), &bytes);
}
