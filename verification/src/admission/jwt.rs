//! Bearer tokens: their parts, their signatures and their claims.
use crate::admission::jwks_source::contains_algorithm;
use crate::admission::key_resolution::{algorithm_named, JwtVerificationKey, KeyView};
use crate::config::{JwtAlgorithm, RuntimeJwtAuth, RuntimeJwtVerificationKey};
use crate::crypto::{
    base64url_bytes, base64url_decode, constant_time_eq, hmac_sha256, hmac_sha256_tag, sha256,
    sha256_digest,
};
use crate::json::{json_document, parse_json, JsonDocument, JsonView};
use crate::number::without_leading_zeros;
use crate::text::{opt, owned, same_text, split, split_on, texts};
use vstd::prelude::*;

verus! {

/// Why a token was refused.
#[derive(Debug, Clone, Copy, PartialEq, Eq, Structural)]
pub enum JwtValidationFailureReason {
    MalformedToken,
    MalformedHeader,
    MalformedClaims,
    MissingAlgorithm,
    AlgorithmNotAllowed,
    UnsupportedAlgorithm,
    MissingKid,
    MissingVerificationKey,
    AmbiguousVerificationKey,
    KeySourceUnavailable,
    PemKeyParseFailed,
    JwkKeyParseFailed,
    InvalidKeyType,
    UnsupportedCurve,
    KeyTooWeak,
    SignatureInvalid,
    MissingExpiration,
    TokenExpired,
    TokenNotYetValid,
    TokenIssuedInFuture,
    IssuerMismatch,
    AudienceMismatch,
}

impl JwtValidationFailureReason {
    /// The label of the reason.
    pub open spec fn label(self) -> Seq<char> {
        match self {
            JwtValidationFailureReason::MalformedToken => "malformed_token"@,
            JwtValidationFailureReason::MalformedHeader => "malformed_header"@,
            JwtValidationFailureReason::MalformedClaims => "malformed_claims"@,
            JwtValidationFailureReason::MissingAlgorithm => "missing_algorithm"@,
            JwtValidationFailureReason::AlgorithmNotAllowed => "algorithm_not_allowed"@,
            JwtValidationFailureReason::UnsupportedAlgorithm => "unsupported_algorithm"@,
            JwtValidationFailureReason::MissingKid => "missing_kid"@,
            JwtValidationFailureReason::MissingVerificationKey => "missing_verification_key"@,
            JwtValidationFailureReason::AmbiguousVerificationKey => "ambiguous_verification_key"@,
            JwtValidationFailureReason::KeySourceUnavailable => "key_source_unavailable"@,
            JwtValidationFailureReason::PemKeyParseFailed => "pem_key_parse_failed"@,
            JwtValidationFailureReason::JwkKeyParseFailed => "jwk_key_parse_failed"@,
            JwtValidationFailureReason::InvalidKeyType => "invalid_key_type"@,
            JwtValidationFailureReason::UnsupportedCurve => "unsupported_curve"@,
            JwtValidationFailureReason::KeyTooWeak => "key_too_weak"@,
            JwtValidationFailureReason::SignatureInvalid => "signature_invalid"@,
            JwtValidationFailureReason::MissingExpiration => "missing_expiration"@,
            JwtValidationFailureReason::TokenExpired => "token_expired"@,
            JwtValidationFailureReason::TokenNotYetValid => "token_not_yet_valid"@,
            JwtValidationFailureReason::TokenIssuedInFuture => "token_issued_in_future"@,
            JwtValidationFailureReason::IssuerMismatch => "issuer_mismatch"@,
            JwtValidationFailureReason::AudienceMismatch => "audience_mismatch"@,
        }
    }

    pub fn as_str(self) -> (r: &'static str)
        ensures
            r@ == self.label(),
    {
        match self {
            JwtValidationFailureReason::MalformedToken => "malformed_token",
            JwtValidationFailureReason::MalformedHeader => "malformed_header",
            JwtValidationFailureReason::MalformedClaims => "malformed_claims",
            JwtValidationFailureReason::MissingAlgorithm => "missing_algorithm",
            JwtValidationFailureReason::AlgorithmNotAllowed => "algorithm_not_allowed",
            JwtValidationFailureReason::UnsupportedAlgorithm => "unsupported_algorithm",
            JwtValidationFailureReason::MissingKid => "missing_kid",
            JwtValidationFailureReason::MissingVerificationKey => "missing_verification_key",
            JwtValidationFailureReason::AmbiguousVerificationKey => "ambiguous_verification_key",
            JwtValidationFailureReason::KeySourceUnavailable => "key_source_unavailable",
            JwtValidationFailureReason::PemKeyParseFailed => "pem_key_parse_failed",
            JwtValidationFailureReason::JwkKeyParseFailed => "jwk_key_parse_failed",
            JwtValidationFailureReason::InvalidKeyType => "invalid_key_type",
            JwtValidationFailureReason::UnsupportedCurve => "unsupported_curve",
            JwtValidationFailureReason::KeyTooWeak => "key_too_weak",
            JwtValidationFailureReason::SignatureInvalid => "signature_invalid",
            JwtValidationFailureReason::MissingExpiration => "missing_expiration",
            JwtValidationFailureReason::TokenExpired => "token_expired",
            JwtValidationFailureReason::TokenNotYetValid => "token_not_yet_valid",
            JwtValidationFailureReason::TokenIssuedInFuture => "token_issued_in_future",
            JwtValidationFailureReason::IssuerMismatch => "issuer_mismatch",
            JwtValidationFailureReason::AudienceMismatch => "audience_mismatch",
        }
    }
}

#[derive(Debug, Clone, Copy, PartialEq, Eq, Structural)]
pub struct JwtValidationFailure {
    pub reason: JwtValidationFailureReason,
}

impl JwtValidationFailure {
    pub fn new(reason: JwtValidationFailureReason) -> (r: Self)
        ensures
            r.reason == reason,
    {
        JwtValidationFailure { reason }
    }
}

/// The registered name of an algorithm.
pub open spec fn algorithm_label(algorithm: JwtAlgorithm) -> Seq<char> {
    match algorithm {
        JwtAlgorithm::Hs256 => "HS256"@,
        JwtAlgorithm::Rs256 => "RS256"@,
        JwtAlgorithm::Es256 => "ES256"@,
    }
}

pub fn jwt_algorithm_name(algorithm: JwtAlgorithm) -> (r: &'static str)
    ensures
        r@ == algorithm_label(algorithm),
{
    match algorithm {
        JwtAlgorithm::Hs256 => "HS256",
        JwtAlgorithm::Rs256 => "RS256",
        JwtAlgorithm::Es256 => "ES256",
    }
}

/// The parts of a token in its compact form.
#[derive(Debug)]
pub struct ParsedJwt {
    pub header_b64: String,
    pub payload_b64: String,
    pub header_bytes: Vec<u8>,
    pub payload_bytes: Vec<u8>,
    pub signature: Vec<u8>,
}

pub struct ParsedView {
    pub header_b64: Seq<char>,
    pub payload_b64: Seq<char>,
    pub header_bytes: Seq<u8>,
    pub payload_bytes: Seq<u8>,
    pub signature: Seq<u8>,
}

impl View for ParsedJwt {
    type V = ParsedView;

    open spec fn view(&self) -> ParsedView {
        ParsedView {
            header_b64: self.header_b64@,
            payload_b64: self.payload_b64@,
            header_bytes: self.header_bytes@,
            payload_bytes: self.payload_bytes@,
            signature: self.signature@,
        }
    }
}

/// The parts of a token: three pieces between dots, each in base64.
pub open spec fn compact_parts(token: Seq<char>) -> Result<ParsedView, JwtValidationFailureReason> {
    let parts = split_on(token, '.');
    if parts.len() != 3 {
        Err(JwtValidationFailureReason::MalformedToken)
    } else {
        match (
            base64url_bytes(parts[0]),
            base64url_bytes(parts[1]),
            base64url_bytes(parts[2]),
        ) {
            (None, _, _) => Err(JwtValidationFailureReason::MalformedHeader),
            (_, None, _) => Err(JwtValidationFailureReason::MalformedClaims),
            (_, _, None) => Err(JwtValidationFailureReason::MalformedToken),
            (Some(header_bytes), Some(payload_bytes), Some(signature)) => Ok(
                ParsedView {
                    header_b64: parts[0],
                    payload_b64: parts[1],
                    header_bytes,
                    payload_bytes,
                    signature,
                },
            ),
        }
    }
}

pub fn parse_compact_jwt(token: &str) -> (r: Result<ParsedJwt, JwtValidationFailure>)
    ensures
        match (r, compact_parts(token@)) {
            (Ok(parsed), Ok(parts)) => parsed@ == parts,
            (Err(failure), Err(reason)) => failure.reason == reason,
            _ => false,
        },
{
    let parts = split(token, '.');
    assert(texts(parts@).len() == parts@.len());
    if parts.len() != 3 {
        return Err(JwtValidationFailure::new(JwtValidationFailureReason::MalformedToken));
    }
    assert(texts(parts@)[0] == parts@[0]@ && texts(parts@)[1] == parts@[1]@ && texts(parts@)[2]
        == parts@[2]@);
    let header_bytes = match base64url_decode(parts[0].as_str()) {
        Some(bytes) => bytes,
        None => {
            return Err(JwtValidationFailure::new(JwtValidationFailureReason::MalformedHeader));
        },
    };
    let payload_bytes = match base64url_decode(parts[1].as_str()) {
        Some(bytes) => bytes,
        None => {
            return Err(JwtValidationFailure::new(JwtValidationFailureReason::MalformedClaims));
        },
    };
    let signature = match base64url_decode(parts[2].as_str()) {
        Some(bytes) => bytes,
        None => {
            return Err(JwtValidationFailure::new(JwtValidationFailureReason::MalformedToken));
        },
    };
    Ok(
        ParsedJwt {
            header_b64: parts[0].clone(),
            payload_b64: parts[1].clone(),
            header_bytes,
            payload_bytes,
            signature,
        },
    )
}

/// What a token's header says of its verification.
#[derive(Debug)]
pub struct ParsedJoseHeader {
    pub algorithm: JwtAlgorithm,
    pub kid: Option<String>,
}

pub struct HeaderView {
    pub algorithm: JwtAlgorithm,
    pub kid: Option<Seq<char>>,
}

impl View for ParsedJoseHeader {
    type V = HeaderView;

    open spec fn view(&self) -> HeaderView {
        HeaderView { algorithm: self.algorithm, kid: opt(self.kid) }
    }
}

/// What a header's bytes say.
pub open spec fn jose_header(bytes: Seq<u8>) -> Result<HeaderView, JwtValidationFailureReason> {
    match json_document(bytes) {
        Err(_) => Err(JwtValidationFailureReason::MalformedHeader),
        Ok(document) => header_fields(document),
    }
}

/// What a header's document says.
pub open spec fn header_fields(document: JsonView) -> Result<
    HeaderView,
    JwtValidationFailureReason,
> {
    match document.get_str("alg"@) {
        None => Err(JwtValidationFailureReason::MissingAlgorithm),
        Some(name) => match algorithm_named(name) {
            None => Err(JwtValidationFailureReason::UnsupportedAlgorithm),
            Some(algorithm) => Ok(HeaderView { algorithm, kid: document.get_str("kid"@) }),
        },
    }
}

/// Reads a parsed header.
pub fn read_jose_header(header: &JsonDocument) -> (r: Result<
    ParsedJoseHeader,
    JwtValidationFailure,
>)
    ensures
        match (r, header_fields(header@)) {
            (Ok(parsed), Ok(fields)) => parsed@ == fields,
            (Err(failure), Err(reason)) => failure.reason == reason,
            _ => false,
        },
{
    let alg = match header.get_str("alg") {
        Some(alg) => alg,
        None => {
            return Err(JwtValidationFailure::new(JwtValidationFailureReason::MissingAlgorithm));
        },
    };
    let algorithm = if same_text(alg, "HS256") {
        JwtAlgorithm::Hs256
    } else if same_text(alg, "RS256") {
        JwtAlgorithm::Rs256
    } else if same_text(alg, "ES256") {
        JwtAlgorithm::Es256
    } else {
        return Err(JwtValidationFailure::new(JwtValidationFailureReason::UnsupportedAlgorithm));
    };
    let kid = match header.get_str("kid") {
        Some(kid) => Some(owned(kid)),
        None => None,
    };
    Ok(ParsedJoseHeader { algorithm, kid })
}

pub fn parse_jose_header(header_bytes: &[u8]) -> (r: Result<ParsedJoseHeader, JwtValidationFailure>)
    ensures
        match (r, jose_header(header_bytes@)) {
            (Ok(parsed), Ok(fields)) => parsed@ == fields,
            (Err(failure), Err(reason)) => failure.reason == reason,
            _ => false,
        },
{
    match parse_json(header_bytes) {
        Err(_) => Err(JwtValidationFailure::new(JwtValidationFailureReason::MalformedHeader)),
        Ok(header) => read_jose_header(&header),
    }
}

pub fn validate_jwt_algorithm_policy(jwt: &RuntimeJwtAuth, algorithm: JwtAlgorithm) -> (r: Result<
    JwtAlgorithm,
    JwtValidationFailure,
>)
    ensures
        r == if jwt.allowed_algorithms@.contains(algorithm) {
            Ok(algorithm)
        } else {
            Err(JwtValidationFailure { reason: JwtValidationFailureReason::AlgorithmNotAllowed })
        },
{
    if !contains_algorithm(&jwt.allowed_algorithms, algorithm) {
        return Err(JwtValidationFailure::new(JwtValidationFailureReason::AlgorithmNotAllowed));
    }
    Ok(algorithm)
}

/// The content of a DER integer: the shortest form of the number that does not read as a negative
/// one.
pub open spec fn der_magnitude(bytes: Seq<u8>) -> Seq<u8> {
    let short = without_leading_zeros(bytes);
    if short.len() == 0 || short[0] >= 0x80 {
        seq![0u8] + short
    } else {
        short
    }
}

/// A DER integer, of a number whose content is shorter than 128 bytes.
pub open spec fn der_integer(bytes: Seq<u8>) -> Seq<u8> {
    seq![0x02u8, der_magnitude(bytes).len() as u8] + der_magnitude(bytes)
}

/// The two halves of an ES256 signature as a DER sequence of two integers.
pub open spec fn der_signature(signature: Seq<u8>) -> Seq<u8> {
    let body = der_integer(signature.take(32)) + der_integer(signature.skip(32));
    seq![0x30u8, body.len() as u8] + body
}

/// Appends a DER integer.
fn push_der_integer(out: &mut Vec<u8>, bytes: &[u8])
    requires
        bytes@.len() == 32,
    ensures
        final(out)@ == old(out)@ + der_integer(bytes@),
        der_magnitude(bytes@).len() <= 33,
{
    let mut start: usize = 0;
    assert(bytes@.skip(0) =~= bytes@);
    while start < bytes.len() && bytes[start] == 0
        invariant
            start <= bytes.len(),
            bytes@.len() == 32,
            without_leading_zeros(bytes@) == without_leading_zeros(bytes@.skip(start as int)),
        decreases bytes.len() - start,
    {
        assert(bytes@.skip(start as int).drop_first() =~= bytes@.skip(start + 1));
        start = start + 1;
    }
    let ghost short = without_leading_zeros(bytes@);
    assert(short =~= bytes@.skip(start as int));
    let padded = start == bytes.len() || bytes[start] >= 0x80;
    let length: usize = bytes.len() - start + if padded { 1 } else { 0 };
    out.push(0x02);
    out.push(length as u8);
    if padded {
        out.push(0);
    }
    let ghost head = out@;
    let mut k: usize = start;
    assert(short.take(0) =~= Seq::<u8>::empty());
    while k < bytes.len()
        invariant
            start <= k <= bytes.len(),
            short == bytes@.skip(start as int),
            out@ == head + short.take(k - start),
        decreases bytes.len() - k,
    {
        out.push(bytes[k]);
        k = k + 1;
        assert(short.take(k - start) =~= short.take(k - 1 - start).push(bytes@[k - 1]));
    }
    assert(short.take(k - start) =~= short);
    assert(out@ =~= old(out)@ + der_integer(bytes@));
}

pub fn jose_es256_signature_to_der(signature: &[u8]) -> (r: Result<Vec<u8>, JwtValidationFailure>)
    ensures
        match r {
            Ok(der) => signature@.len() == 64 && der@ == der_signature(signature@),
            Err(failure) => signature@.len() != 64 && failure.reason
                == JwtValidationFailureReason::SignatureInvalid,
        },
{
    if signature.len() != 64 {
        return Err(JwtValidationFailure::new(JwtValidationFailureReason::SignatureInvalid));
    }
    let first = vstd::slice::slice_subrange(signature, 0, 32);
    let second = vstd::slice::slice_subrange(signature, 32, 64);
    assert(first@ =~= signature@.take(32));
    assert(second@ =~= signature@.skip(32));
    let mut body: Vec<u8> = Vec::new();
    push_der_integer(&mut body, first);
    push_der_integer(&mut body, second);
    assert(body@ =~= der_integer(signature@.take(32)) + der_integer(signature@.skip(32)));
    let mut der: Vec<u8> = Vec::new();
    der.push(0x30);
    der.push(body.len() as u8);
    der.extend_from_slice(body.as_slice());
    assert(der@ =~= der_signature(signature@));
    Ok(der)
}

/// A signature that the key library has to check: RS256 over the message (PKCS #1 padding, SHA-256),
/// ES256 over the message's digest.
#[derive(Debug)]
pub enum SignatureRequest {
    Rs256 { key: RuntimeJwtVerificationKey, message: Vec<u8>, signature: Vec<u8> },
    Es256 { key: RuntimeJwtVerificationKey, digest: Vec<u8>, der_signature: Vec<u8> },
}

pub enum RequestView {
    Rs256 { key: RuntimeJwtVerificationKey, message: Seq<u8>, signature: Seq<u8> },
    Es256 { key: RuntimeJwtVerificationKey, digest: Seq<u8>, der_signature: Seq<u8> },
}

impl View for SignatureRequest {
    type V = RequestView;

    open spec fn view(&self) -> RequestView {
        match self {
            SignatureRequest::Rs256 { key, message, signature } => RequestView::Rs256 {
                key: *key,
                message: message@,
                signature: signature@,
            },
            SignatureRequest::Es256 { key, digest, der_signature } => RequestView::Es256 {
                key: *key,
                digest: digest@,
                der_signature: der_signature@,
            },
        }
    }
}

/// The bytes that a token's signature covers.
pub open spec fn signing_input(parsed: ParsedView) -> Seq<u8> {
    vstd::utf8::encode_utf8(parsed.header_b64 + "."@ + parsed.payload_b64)
}

/// The check of a token's signature: a refusal, nothing where the signature holds, or what the key
/// library has to check.
pub open spec fn signature_check(parsed: ParsedView, algorithm: JwtAlgorithm, key: KeyView) -> Result<
    Option<RequestView>,
    JwtValidationFailureReason,
> {
    match (algorithm, key) {
        (JwtAlgorithm::Hs256, KeyView::Secret(secret)) => if hmac_sha256_tag(
            vstd::utf8::encode_utf8(secret),
            signing_input(parsed),
        ) == parsed.signature {
            Ok(None)
        } else {
            Err(JwtValidationFailureReason::SignatureInvalid)
        },
        (JwtAlgorithm::Rs256, KeyView::Rsa(key)) => Ok(
            Some(
                RequestView::Rs256 {
                    key,
                    message: signing_input(parsed),
                    signature: parsed.signature,
                },
            ),
        ),
        (JwtAlgorithm::Es256, KeyView::EcP256(key)) => if parsed.signature.len() != 64 {
            Err(JwtValidationFailureReason::SignatureInvalid)
        } else {
            Ok(
                Some(
                    RequestView::Es256 {
                        key,
                        digest: sha256_digest(signing_input(parsed)),
                        der_signature: der_signature(parsed.signature),
                    },
                ),
            )
        },
        _ => Err(JwtValidationFailureReason::InvalidKeyType),
    }
}

fn copy_bytes(bytes: &[u8]) -> (r: Vec<u8>)
    ensures
        r@ == bytes@,
{
    let mut r: Vec<u8> = Vec::new();
    r.extend_from_slice(bytes);
    assert(r@ =~= bytes@);
    r
}

pub fn verify_jwt_signature(
    parsed: &ParsedJwt,
    algorithm: JwtAlgorithm,
    key: JwtVerificationKey<'_>,
) -> (r: Result<Option<SignatureRequest>, JwtValidationFailure>)
    ensures
        match (r, signature_check(parsed@, algorithm, key@)) {
            (Ok(None), Ok(None)) => true,
            (Ok(Some(request)), Ok(Some(expected))) => request@ == expected,
            (Err(failure), Err(reason)) => failure.reason == reason,
            _ => false,
        },
{
    let mut input = parsed.header_b64.clone();
    input.append(".");
    input.append(parsed.payload_b64.as_str());
    match (algorithm, key) {
        (JwtAlgorithm::Hs256, JwtVerificationKey::Hs256Secret(secret)) => {
            let expected = match hmac_sha256(secret.as_bytes(), input.as_str().as_bytes()) {
                Some(expected) => expected,
                None => {
                    return Err(
                        JwtValidationFailure::new(
                            JwtValidationFailureReason::MissingVerificationKey,
                        ),
                    );
                },
            };
            if expected.len() != parsed.signature.len() || !constant_time_eq(
                expected.as_slice(),
                parsed.signature.as_slice(),
            ) {
                return Err(JwtValidationFailure::new(JwtValidationFailureReason::SignatureInvalid));
            }
            Ok(None)
        },
        (JwtAlgorithm::Rs256, JwtVerificationKey::RsaPublicKey(key)) => Ok(
            Some(
                SignatureRequest::Rs256 {
                    key,
                    message: copy_bytes(input.as_str().as_bytes()),
                    signature: copy_bytes(parsed.signature.as_slice()),
                },
            ),
        ),
        (JwtAlgorithm::Es256, JwtVerificationKey::EcP256PublicKey(key)) => {
            let der_signature = match jose_es256_signature_to_der(parsed.signature.as_slice()) {
                Ok(der) => der,
                Err(failure) => {
                    return Err(failure);
                },
            };
            Ok(
                Some(
                    SignatureRequest::Es256 {
                        key,
                        digest: sha256(input.as_str().as_bytes()),
                        der_signature,
                    },
                ),
            )
        },
        _ => Err(JwtValidationFailure::new(JwtValidationFailureReason::InvalidKeyType)),
    }
}

pub fn parse_jwt_claims(payload_bytes: &[u8]) -> (r: Result<JsonDocument, JwtValidationFailure>)
    ensures
        match (r, json_document(payload_bytes@)) {
            (Ok(claims), Ok(document)) => claims@ == document,
            (Err(failure), Err(_)) => failure.reason == JwtValidationFailureReason::MalformedClaims,
            _ => false,
        },
{
    match parse_json(payload_bytes) {
        Ok(claims) => Ok(claims),
        Err(_) => Err(JwtValidationFailure::new(JwtValidationFailureReason::MalformedClaims)),
    }
}

} // verus!
