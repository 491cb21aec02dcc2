//! The inbound trust boundary: an Ed25519 verification key and the check of a
//! request's signature header over `timestamp || body`. Verification is pure:
//! it has no side effects and every later stage trusts its verdict.

use vstd::prelude::*;

use crate::hex::{decode_hex, hex_decoded, is_hex_encoding};
use ed25519_dalek::Verifier;

verus! {

/// Whether `ed25519_dalek::VerifyingKey::from_bytes` accepts `key`: the 32
/// bytes decompress to a curve point. A function of the bytes alone.
pub uninterp spec fn ed25519_key_ok(key: Seq<u8>) -> bool;

/// Whether `sig` is a valid Ed25519 signature over `msg` under the 32-byte
/// public key `key`; false when the key bytes themselves do not decode.
/// A function of the three arguments alone.
pub uninterp spec fn ed25519_valid(key: Seq<u8>, msg: Seq<u8>, sig: Seq<u8>) -> bool;

/// Relies on `ed25519_dalek::VerifyingKey::from_bytes`: it returns `Ok`
/// exactly when the bytes decompress to an Edwards point, a deterministic
/// function of the bytes.
#[verifier::external_body]
fn dalek_key_parses(key: &[u8]) -> (r: bool)
    requires
        key@.len() == 32,
    ensures
        r == ed25519_key_ok(key@),
{
    let arr: [u8; 32] = key.try_into().unwrap();
    ed25519_dalek::VerifyingKey::from_bytes(&arr).is_ok()
}

/// Relies on `ed25519_dalek::VerifyingKey::verify`: deterministic Ed25519
/// verification of the 64-byte `sig` over `msg` under the 32-byte `key`;
/// false when the key bytes do not decode to a key.
#[verifier::external_body]
fn dalek_verify(key: &[u8], msg: &[u8], sig: &[u8]) -> (r: bool)
    requires
        key@.len() == 32,
        sig@.len() == 64,
    ensures
        r == ed25519_valid(key@, msg@, sig@),
{
    let key_arr: [u8; 32] = key.try_into().unwrap();
    let vk = match ed25519_dalek::VerifyingKey::from_bytes(&key_arr) {
        Ok(vk) => vk,
        Err(_) => return false,
    };
    let sig_arr: [u8; 64] = sig.try_into().unwrap();
    let signature = ed25519_dalek::Signature::from_bytes(&sig_arr);
    vk.verify(msg, &signature).is_ok()
}

/// Why a request's signature was rejected.
#[derive(Debug, Clone, Copy, PartialEq, Eq, Structural)]
pub enum SignatureValidationFailure {
    /// The signature header is not 128 hex digits.
    MalformedSignature,
    /// The signature does not verify over `timestamp || body`.
    InvalidSignature,
}

/// Why the configured verification key could not be built.
#[derive(Debug, Clone, Copy, PartialEq, Eq, Structural)]
pub enum KeyParseError {
    /// Not a hex string of 32 bytes.
    InvalidHex,
    /// The 32 bytes are not a decodable Ed25519 public key.
    InvalidKey,
}

/// The hex string `s` denotes a usable verification key: 64 hex digits whose
/// 32 bytes decode to an Ed25519 public key.
pub open spec fn key_parses(s: Seq<u8>) -> bool {
    &&& is_hex_encoding(s)
    &&& s.len() == 64
    &&& ed25519_key_ok(hex_decoded(s))
}

/// The signature header is 128 hex digits, as a 64-byte signature requires.
pub open spec fn sig_well_formed(sig: Seq<u8>) -> bool {
    &&& is_hex_encoding(sig)
    &&& sig.len() == 128
}

/// The request is authentic: a well-formed signature header that verifies
/// over `timestamp || body` under `key`.
pub open spec fn signature_accepted(
    key: Seq<u8>,
    sig: Seq<u8>,
    timestamp: Seq<u8>,
    body: Seq<u8>,
) -> bool {
    &&& sig_well_formed(sig)
    &&& ed25519_valid(key, timestamp + body, hex_decoded(sig))
}

/// The immutable 32-byte Ed25519 verification key, parsed once at startup.
#[derive(Debug)]
pub struct Key {
    bytes: Vec<u8>,
}

impl View for Key {
    type V = Seq<u8>;

    closed spec fn view(&self) -> Seq<u8> {
        self.bytes@
    }
}

impl Key {
    /// The key holds exactly the 32 bytes of an Ed25519 public key.
    pub open spec fn wf(&self) -> bool {
        self@.len() == 32
    }

    /// Parse a key from its ASCII hex form; `Ok` exactly when `hex_bytes` is
    /// 64 hex digits denoting a decodable public key.
    pub fn from_hex(hex_bytes: &[u8]) -> (r: Result<Key, KeyParseError>)
        ensures
            r is Ok <==> key_parses(hex_bytes@),
            r matches Ok(k) ==> k.wf() && k@ == hex_decoded(hex_bytes@),
            r matches Err(e) ==> (e is InvalidHex <==> !(is_hex_encoding(hex_bytes@)
                && hex_bytes@.len() == 64)),
    {
        let decoded = match decode_hex(hex_bytes) {
            Some(v) => v,
            None => {
                return Err(KeyParseError::InvalidHex);
            },
        };
        if decoded.len() != 32 {
            return Err(KeyParseError::InvalidHex);
        }
        if !dalek_key_parses(decoded.as_slice()) {
            return Err(KeyParseError::InvalidKey);
        }
        Ok(Key { bytes: decoded })
    }

    /// Check `signature` (ASCII hex) over `timestamp || body`. `Ok` exactly
    /// when the request is authentic; the error says whether the header was
    /// malformed or the signature merely did not verify. No side effects.
    pub fn verify(&self, signature: &[u8], timestamp: &[u8], body: &[u8]) -> (r: Result<
        (),
        SignatureValidationFailure,
    >)
        requires
            self.wf(),
        ensures
            r is Ok <==> signature_accepted(self@, signature@, timestamp@, body@),
            !sig_well_formed(signature@) ==> r == Err::<(), SignatureValidationFailure>(
                SignatureValidationFailure::MalformedSignature,
            ),
            sig_well_formed(signature@) && !ed25519_valid(
                self@,
                timestamp@ + body@,
                hex_decoded(signature@),
            ) ==> r == Err::<(), SignatureValidationFailure>(
                SignatureValidationFailure::InvalidSignature,
            ),
    {
        let sig_bytes = match decode_hex(signature) {
            Some(v) => v,
            None => {
                return Err(SignatureValidationFailure::MalformedSignature);
            },
        };
        if sig_bytes.len() != 64 {
            return Err(SignatureValidationFailure::MalformedSignature);
        }
        let mut message: Vec<u8> = Vec::new();
        let mut i: usize = 0;
        while i < timestamp.len()
            invariant
                i <= timestamp@.len(),
                message@ == timestamp@.subrange(0, i as int),
            decreases timestamp@.len() - i,
        {
            message.push(timestamp[i]);
            i = i + 1;
        }
        let mut j: usize = 0;
        while j < body.len()
            invariant
                j <= body@.len(),
                message@ == timestamp@ + body@.subrange(0, j as int),
            decreases body@.len() - j,
        {
            message.push(body[j]);
            j = j + 1;
        }
        proof {
            assert(message@ =~= timestamp@ + body@);
        }
        if dalek_verify(self.bytes.as_slice(), message.as_slice(), sig_bytes.as_slice()) {
            Ok(())
        } else {
            Err(SignatureValidationFailure::InvalidSignature)
        }
    }
}

} // verus!
