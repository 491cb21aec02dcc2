//! The request authenticator's decisions, as pure functions of what the
//! transport handed over: which header is missing, whether the body could be
//! read, and whether the signature verifies. Headers are judged before any
//! body value is even consulted, and verification strictly precedes any
//! parsing of the body.

use vstd::prelude::*;

use crate::validate_signature::{
    Key, SignatureValidationFailure, ed25519_valid, sig_well_formed, signature_accepted,
};
use crate::hex::hex_decoded;

verus! {

/// The two headers every inbound request must carry.
#[derive(Debug, Clone, Copy, PartialEq, Eq, Structural)]
pub enum RequestHeader {
    /// The hex-encoded Ed25519 signature header.
    Signature,
    /// The timestamp header, signed together with the body.
    Timestamp,
}

impl RequestHeader {
    /// The protocol's case-insensitive name of this header.
    pub fn name(&self) -> (r: &'static str)
        ensures
            self is Signature ==> r@ == "x-signature-ed25519"@,
            self is Timestamp ==> r@ == "x-signature-timestamp"@,
    {
        match self {
            RequestHeader::Signature => "x-signature-ed25519",
            RequestHeader::Timestamp => "x-signature-timestamp",
        }
    }
}

/// Why a request was rejected before reaching the dispatcher, or - for the
/// domain tier - recorded alongside a normal acknowledgment.
#[derive(Debug, Clone, Copy, PartialEq, Eq, Structural)]
pub enum Error {
    /// The signature header did not verify over `timestamp || body`.
    InvalidSignature,
    /// The signature header is not 128 hex digits.
    MalformedSignature,
    /// The verified body does not deserialize into the event schema.
    Json,
    /// The transport failed while reading the body.
    BodyRead,
    /// A required header is absent.
    MissingHeader(RequestHeader),
    /// A domain-tier failure of the command handler.
    Interact(crate::interact::Error),
}

impl Error {
    /// The HTTP status this rejection answers with.
    pub open spec fn status_spec(&self) -> u16 {
        match self {
            Error::InvalidSignature => 401,
            Error::MalformedSignature => 400,
            Error::Json => 400,
            Error::BodyRead => 500,
            Error::MissingHeader(_) => 400,
            Error::Interact(_) => 400,
        }
    }

    /// The HTTP status this rejection answers with: 401 for a signature that
    /// does not verify, 500 for a transport failure, 400 for everything else.
    pub fn status(&self) -> (r: u16)
        ensures
            r == self.status_spec(),
    {
        match self {
            Error::InvalidSignature => 401,
            Error::MalformedSignature => 400,
            Error::Json => 400,
            Error::BodyRead => 500,
            Error::MissingHeader(_) => 400,
            Error::Interact(_) => 400,
        }
    }
}

/// What the header check decides when the signature and timestamp headers
/// are present or not: the signature header is demanded first.
pub open spec fn header_check(sig_present: bool, ts_present: bool) -> Result<(), Error> {
    if !sig_present {
        Err(Error::MissingHeader(RequestHeader::Signature))
    } else if !ts_present {
        Err(Error::MissingHeader(RequestHeader::Timestamp))
    } else {
        Ok(())
    }
}

/// The authenticator's whole decision, as a function of what the transport
/// and the parser returned: the signature header is demanded first, then the
/// timestamp header, then a readable body, then a well-formed signature that
/// verifies over `timestamp || body` under `key`, and only then does the
/// parse outcome `parsed_ok` matter at all.
pub open spec fn authenticate_outcome(
    key: Seq<u8>,
    sig_header: Option<Seq<u8>>,
    ts_header: Option<Seq<u8>>,
    body: Option<Seq<u8>>,
    parsed_ok: bool,
) -> Result<(), Error> {
    match sig_header {
        None => Err(Error::MissingHeader(RequestHeader::Signature)),
        Some(sig) => match ts_header {
            None => Err(Error::MissingHeader(RequestHeader::Timestamp)),
            Some(ts) => match body {
                None => Err(Error::BodyRead),
                Some(b) => if !sig_well_formed(sig) {
                    Err(Error::MalformedSignature)
                } else if !ed25519_valid(key, ts + b, hex_decoded(sig)) {
                    Err(Error::InvalidSignature)
                } else if !parsed_ok {
                    Err(Error::Json)
                } else {
                    Ok(())
                },
            },
        },
    }
}

/// Demand the two required headers. Decided from their presence alone: no
/// body is consulted, read or verified here.
pub fn check_headers(signature: &Option<Vec<u8>>, timestamp: &Option<Vec<u8>>) -> (r: Result<
    (),
    Error,
>)
    ensures
        r == header_check(signature is Some, timestamp is Some),
{
    if signature.is_none() {
        Err(Error::MissingHeader(RequestHeader::Signature))
    } else if timestamp.is_none() {
        Err(Error::MissingHeader(RequestHeader::Timestamp))
    } else {
        Ok(())
    }
}

/// Gate the body behind the signature: a transport failure is surfaced as
/// such, a malformed or invalid signature as its own rejection, and only an
/// authentic request passes. Nothing of the body is interpreted here.
pub fn verify_request(key: &Key, signature: &Vec<u8>, timestamp: &Vec<u8>, body: &Option<Vec<u8>>) -> (r:
    Result<(), Error>)
    requires
        key.wf(),
    ensures
        r == authenticate_outcome(
            key@,
            Some(signature@),
            Some(timestamp@),
            body.deep_view(),
            true,
        ),
        body is None ==> r == Err::<(), Error>(Error::BodyRead),
        body matches Some(b) ==> (r is Ok <==> signature_accepted(
            key@,
            signature@,
            timestamp@,
            b@,
        )),
        body is Some && !sig_well_formed(signature@) ==> r == Err::<(), Error>(
            Error::MalformedSignature,
        ),
        body matches Some(b) ==> (sig_well_formed(signature@) && !ed25519_valid(
            key@,
            timestamp@ + b@,
            hex_decoded(signature@),
        ) ==> r == Err::<(), Error>(Error::InvalidSignature)),
{
    let body_bytes: &Vec<u8> = match body {
        Some(b) => b,
        None => {
            return Err(Error::BodyRead);
        },
    };
    proof {
        assert(body_bytes.deep_view() =~= body_bytes@);
    }
    match key.verify(signature.as_slice(), timestamp.as_slice(), body_bytes.as_slice()) {
        Ok(()) => Ok(()),
        Err(SignatureValidationFailure::MalformedSignature) => Err(Error::MalformedSignature),
        Err(SignatureValidationFailure::InvalidSignature) => Err(Error::InvalidSignature),
    }
}

/// A request missing either required header is rejected with status 400, and
/// the decision is a function of header presence alone - the body plays no
/// part in it, so it need not have been read or verified.
pub proof fn lemma_missing_header_is_bad_request(sig_present: bool, ts_present: bool)
    requires
        !sig_present || !ts_present,
    ensures
        header_check(sig_present, ts_present) matches Err(e) && e.status_spec() == 400,
{
}

/// With a header missing, the whole authenticator decides the same missing-
/// header rejection whatever the body or the parse outcome were: nothing
/// past the headers is consulted.
pub proof fn lemma_missing_header_decides_alone(
    key: Seq<u8>,
    sig_header: Option<Seq<u8>>,
    ts_header: Option<Seq<u8>>,
    body: Option<Seq<u8>>,
    parsed_ok: bool,
)
    requires
        sig_header is None || ts_header is None,
    ensures
        authenticate_outcome(key, sig_header, ts_header, body, parsed_ok) == header_check(
            sig_header is Some,
            ts_header is Some,
        ),
        authenticate_outcome(key, sig_header, ts_header, body, parsed_ok) matches Err(e)
            && e.status_spec() == 400,
{
}

/// Payload-shape errors cannot be probed without authentication: the
/// authenticator reports a schema failure only for a request whose headers
/// were present, whose body was read, and whose signature was accepted.
pub proof fn lemma_schema_errors_gated_by_signature(
    key: Seq<u8>,
    sig_header: Option<Seq<u8>>,
    ts_header: Option<Seq<u8>>,
    body: Option<Seq<u8>>,
    parsed_ok: bool,
)
    ensures
        authenticate_outcome(key, sig_header, ts_header, body, parsed_ok) == Err::<(), Error>(
            Error::Json,
        ) ==> (sig_header matches Some(sig) && (ts_header matches Some(ts) && (body matches Some(
            b,
        ) && signature_accepted(key, sig, ts, b)))),
{
}

/// A correctly signed body that then fails schema deserialization is a 400
/// rejection, never a 500: only a transport-level body-read failure answers
/// with 500.
pub proof fn lemma_malformed_payload_is_bad_request()
    ensures
        Error::Json.status_spec() == 400,
        Error::Json.status_spec() != 500,
        forall|e: Error| #[trigger] e.status_spec() == 500 ==> e is BodyRead,
{
    assert forall|e: Error| #[trigger] e.status_spec() == 500 implies e is BodyRead by {
        match e {
            Error::BodyRead => {
            },
            _ => {
            },
        }
    }
}

} // verus!
