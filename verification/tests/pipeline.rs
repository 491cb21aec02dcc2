//! The inbound trust boundary, exercised with real Ed25519 material: hex
//! decoding, key parsing, signature verification, and the authenticator's
//! header and body gating.

use dm_reports::authenticate::{check_headers, verify_request, Error, RequestHeader};
use dm_reports::hex::decode_hex;
use dm_reports::validate_signature::{Key, KeyParseError, SignatureValidationFailure};
use ed25519_dalek::{Signer, SigningKey};

fn hex_of(bytes: &[u8]) -> String {
    let mut s = String::new();
    for b in bytes {
        s.push_str(&format!("{b:02x}"));
    }
    s
}

fn test_key() -> (SigningKey, Key) {
    let seed: [u8; 32] = [7u8; 32];
    let signing = SigningKey::from_bytes(&seed);
    let pub_hex = hex_of(&signing.verifying_key().to_bytes());
    let key = Key::from_hex(pub_hex.as_bytes()).expect("test key must parse");
    (signing, key)
}

fn signed_request(timestamp: &[u8], body: &[u8]) -> (Vec<u8>, Key) {
    let (signing, key) = test_key();
    let mut message = timestamp.to_vec();
    message.extend_from_slice(body);
    let signature = signing.sign(&message);
    (hex_of(&signature.to_bytes()).into_bytes(), key)
}

#[test]
fn decode_hex_accepts_pairs() {
    let decoded = decode_hex(b"00ff10Ab").expect("valid hex");
    assert_eq!(decoded, vec![0x00, 0xff, 0x10, 0xab]);
}

#[test]
fn decode_hex_rejects_odd_length() {
    assert!(decode_hex(b"abc").is_none());
}

#[test]
fn decode_hex_rejects_non_digits() {
    assert!(decode_hex(b"zz").is_none());
    assert!(decode_hex(b"0g").is_none());
}

#[test]
fn key_rejects_bad_hex() {
    assert_eq!(Key::from_hex(b"nothex").unwrap_err(), KeyParseError::InvalidHex);
    assert_eq!(Key::from_hex(b"abcd").unwrap_err(), KeyParseError::InvalidHex);
}

#[test]
fn valid_signature_verifies() {
    let timestamp = b"1700000000";
    let body = br#"{"type":1}"#;
    let (sig_hex, key) = signed_request(timestamp, body);
    assert!(key.verify(&sig_hex, timestamp, body).is_ok());
}

#[test]
fn mutated_body_fails_verification() {
    let timestamp = b"1700000000";
    let body = br#"{"type":1}"#;
    let (sig_hex, key) = signed_request(timestamp, body);
    let mut mutated = body.to_vec();
    mutated[0] ^= 0x01;
    assert_eq!(
        key.verify(&sig_hex, timestamp, &mutated).unwrap_err(),
        SignatureValidationFailure::InvalidSignature
    );
}

#[test]
fn mutated_timestamp_fails_verification() {
    let timestamp = b"1700000000";
    let body = br#"{"type":1}"#;
    let (sig_hex, key) = signed_request(timestamp, body);
    let mut mutated = timestamp.to_vec();
    mutated[3] ^= 0x80;
    assert_eq!(
        key.verify(&sig_hex, &mutated, body).unwrap_err(),
        SignatureValidationFailure::InvalidSignature
    );
}

#[test]
fn mutated_signature_fails_verification() {
    let timestamp = b"1700000000";
    let body = br#"{"type":1}"#;
    let (mut sig_hex, key) = signed_request(timestamp, body);
    // Flip one bit of one signature byte while keeping the header well-formed hex.
    sig_hex[0] = if sig_hex[0] == b'0' { b'1' } else { b'0' };
    assert_eq!(
        key.verify(&sig_hex, timestamp, body).unwrap_err(),
        SignatureValidationFailure::InvalidSignature
    );
}

#[test]
fn malformed_signature_header_is_distinguished() {
    let (_, key) = test_key();
    assert_eq!(
        key.verify(b"abc", b"1700000000", b"{}").unwrap_err(),
        SignatureValidationFailure::MalformedSignature
    );
    let short = "ab".repeat(32);
    assert_eq!(
        key.verify(short.as_bytes(), b"1700000000", b"{}").unwrap_err(),
        SignatureValidationFailure::MalformedSignature
    );
}

#[test]
fn missing_signature_header_is_bad_request() {
    let r = check_headers(&None, &Some(b"1700000000".to_vec()));
    let e = r.unwrap_err();
    assert_eq!(e, Error::MissingHeader(RequestHeader::Signature));
    assert_eq!(e.status(), 400);
}

#[test]
fn missing_timestamp_header_is_bad_request() {
    let r = check_headers(&Some(b"aa".to_vec()), &None);
    let e = r.unwrap_err();
    assert_eq!(e, Error::MissingHeader(RequestHeader::Timestamp));
    assert_eq!(e.status(), 400);
}

#[test]
fn present_headers_pass() {
    assert!(check_headers(&Some(b"aa".to_vec()), &Some(b"bb".to_vec())).is_ok());
}

#[test]
fn header_names_follow_protocol() {
    assert_eq!(RequestHeader::Signature.name(), "x-signature-ed25519");
    assert_eq!(RequestHeader::Timestamp.name(), "x-signature-timestamp");
}

#[test]
fn unreadable_body_is_server_error() {
    let (_, key) = test_key();
    let r = verify_request(&key, &b"aa".to_vec(), &b"1700000000".to_vec(), &None);
    let e = r.unwrap_err();
    assert_eq!(e, Error::BodyRead);
    assert_eq!(e.status(), 500);
}

#[test]
fn authentic_request_passes_gate() {
    let timestamp = b"1700000000";
    let body = br#"{"type":1}"#;
    let (sig_hex, key) = signed_request(timestamp, body);
    let r = verify_request(&key, &sig_hex, &timestamp.to_vec(), &Some(body.to_vec()));
    assert!(r.is_ok());
}

#[test]
fn forged_request_is_unauthorized() {
    let timestamp = b"1700000000";
    let body = br#"{"type":1}"#;
    let (sig_hex, key) = signed_request(timestamp, body);
    let r = verify_request(&key, &sig_hex, &timestamp.to_vec(), &Some(b"{}".to_vec()));
    let e = r.unwrap_err();
    assert_eq!(e, Error::InvalidSignature);
    assert_eq!(e.status(), 401);
}

#[test]
fn status_mapping_matches_tiers() {
    assert_eq!(Error::InvalidSignature.status(), 401);
    assert_eq!(Error::MalformedSignature.status(), 400);
    assert_eq!(Error::Json.status(), 400);
    assert_eq!(Error::BodyRead.status(), 500);
    assert_eq!(
        Error::Interact(dm_reports::interact::Error::MissingMessage).status(),
        400
    );
}

#[test]
fn malformed_signature_is_bad_request_at_gate() {
    let (_, key) = test_key();
    let r = verify_request(
        &key,
        &b"nothex".to_vec(),
        &b"1700000000".to_vec(),
        &Some(b"{}".to_vec()),
    );
    let e = r.unwrap_err();
    assert_eq!(e, Error::MalformedSignature);
    assert_eq!(e.status(), 400);
}

#[test]
fn undecodable_key_bytes_are_rejected() {
    // Find 32 bytes the curve refuses, then hold from_hex to the same verdict.
    let mut bytes = [0u8; 32];
    let mut found = None;
    for b in 0..=255u8 {
        bytes[0] = b;
        if ed25519_dalek::VerifyingKey::from_bytes(&bytes).is_err() {
            found = Some(bytes);
            break;
        }
    }
    let bad = found.expect("some low y-coordinate must be off the curve");
    let bad_hex = hex_of(&bad);
    assert_eq!(
        Key::from_hex(bad_hex.as_bytes()).unwrap_err(),
        KeyParseError::InvalidKey
    );
}
