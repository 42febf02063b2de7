//! Which key verifies a token.
use crate::admission::jwks_cache::JwtJwksCacheState;
use crate::admission::jwt::{JwtValidationFailure, JwtValidationFailureReason};
use crate::config::{
    EcConstruction, EcFacts, JwkMaterial, JwtAlgorithm, PemMaterial, PublicKeyKind,
    RsaConstruction, RsaFacts, RuntimeJwtVerificationKey,
};
use crate::crypto::{base64url_bytes, base64url_decode};
use crate::json::{json_document, parse_json, JsonDocument, JsonView};
use crate::number::{bit_length, count_bits};
use crate::text::{as_deref, opt, opt_str, owned, same_option, same_text};
use vstd::prelude::*;

verus! {

/// The algorithm that a registered name stands for.
pub open spec fn algorithm_named(name: Seq<char>) -> Option<JwtAlgorithm> {
    if name == "HS256"@ {
        Some(JwtAlgorithm::Hs256)
    } else if name == "RS256"@ {
        Some(JwtAlgorithm::Rs256)
    } else if name == "ES256"@ {
        Some(JwtAlgorithm::Es256)
    } else {
        None
    }
}

pub fn parse_jwt_alg_str(alg: &str) -> (r: Result<JwtAlgorithm, JwtValidationFailure>)
    ensures
        r == match algorithm_named(alg@) {
            Some(algorithm) => Ok::<JwtAlgorithm, JwtValidationFailure>(algorithm),
            None => Err(
                JwtValidationFailure { reason: JwtValidationFailureReason::JwkKeyParseFailed },
            ),
        },
{
    if same_text(alg, "HS256") {
        Ok(JwtAlgorithm::Hs256)
    } else if same_text(alg, "RS256") {
        Ok(JwtAlgorithm::Rs256)
    } else if same_text(alg, "ES256") {
        Ok(JwtAlgorithm::Es256)
    } else {
        Err(JwtValidationFailure::new(JwtValidationFailureReason::JwkKeyParseFailed))
    }
}

/// The document that a JWK's text spells.
pub open spec fn jwk_document(jwk: Seq<char>) -> Option<JsonView> {
    match json_document(vstd::utf8::encode_utf8(jwk)) {
        Ok(document) => Some(document),
        Err(_) => None,
    }
}

pub fn parse_jwk_value(jwk: &str) -> (r: Result<JsonDocument, JwtValidationFailure>)
    ensures
        match r {
            Ok(document) => jwk_document(jwk@) == Some(document@),
            Err(failure) => jwk_document(jwk@) is None && failure.reason
                == JwtValidationFailureReason::JwkKeyParseFailed,
        },
{
    match parse_json(jwk.as_bytes()) {
        Ok(document) => Ok(document),
        Err(_) => Err(JwtValidationFailure::new(JwtValidationFailureReason::JwkKeyParseFailed)),
    }
}

/// The key id and the algorithm under which a key is selected.
#[derive(Debug)]
pub struct StaticKeyMetadata {
    pub kid: Option<String>,
    pub alg: Option<JwtAlgorithm>,
}

pub struct MetadataView {
    pub kid: Option<Seq<char>>,
    pub alg: Option<JwtAlgorithm>,
}

impl View for StaticKeyMetadata {
    type V = MetadataView;

    open spec fn view(&self) -> MetadataView {
        MetadataView { kid: opt(self.kid), alg: self.alg }
    }
}

/// Two settings of which neither, one, or both agreeing are present.
pub open spec fn compatible<A>(a: Option<A>, b: Option<A>) -> bool {
    a is None || b is None || a == b
}

/// The first of two optional settings that is present.
pub open spec fn first_of<A>(a: Option<A>, b: Option<A>) -> Option<A> {
    if a is Some {
        a
    } else {
        b
    }
}

/// What a JWK's own members add to its configured key id and algorithm; nothing where its text is
/// no JSON, names an unknown algorithm, or contradicts the configuration.
pub open spec fn jwk_metadata(
    kid: Option<Seq<char>>,
    alg: Option<JwtAlgorithm>,
    document: Option<JsonView>,
) -> Option<MetadataView> {
    match document {
        None => None,
        Some(document) => {
            let jwk_kid = document.get_str("kid"@);
            let named = document.get_str("alg"@);
            let jwk_alg = match named {
                Some(name) => algorithm_named(name),
                None => None,
            };
            if named is Some && jwk_alg is None || !compatible(kid, jwk_kid) || !compatible(
                alg,
                jwk_alg,
            ) {
                None
            } else {
                Some(MetadataView { kid: first_of(kid, jwk_kid), alg: first_of(alg, jwk_alg) })
            }
        },
    }
}

/// The metadata of a key, where it has consistent ones.
pub open spec fn key_metadata(key: RuntimeJwtVerificationKey) -> Option<MetadataView> {
    match key {
        RuntimeJwtVerificationKey::Pem { kid, alg, .. } => Some(
            MetadataView { kid: opt(kid), alg },
        ),
        RuntimeJwtVerificationKey::Jwk { kid, alg, jwk, .. } => jwk_metadata(
            opt(kid),
            alg,
            jwk_document(jwk@),
        ),
    }
}

/// The key id of a key with consistent metadata.
pub open spec fn key_kid(key: RuntimeJwtVerificationKey) -> Option<Seq<char>> {
    match key_metadata(key) {
        Some(metadata) => metadata.kid,
        None => None,
    }
}

pub fn static_key_metadata(key: &RuntimeJwtVerificationKey) -> (r: Result<
    StaticKeyMetadata,
    JwtValidationFailure,
>)
    ensures
        match r {
            Ok(metadata) => key_metadata(*key) == Some(metadata@),
            Err(failure) => key_metadata(*key) is None && failure.reason
                == JwtValidationFailureReason::JwkKeyParseFailed,
        },
{
    match key {
        RuntimeJwtVerificationKey::Pem { kid, alg, .. } => Ok(
            StaticKeyMetadata { kid: kid.clone(), alg: *alg },
        ),
        RuntimeJwtVerificationKey::Jwk { kid, alg, jwk, .. } => {
            let parsed = match parse_jwk_value(jwk.as_str()) {
                Ok(parsed) => parsed,
                Err(failure) => {
                    return Err(failure);
                },
            };
            let jwk_kid = parsed.get_str("kid");
            let jwk_alg = match parsed.get_str("alg") {
                Some(name) => match parse_jwt_alg_str(name) {
                    Ok(algorithm) => Some(algorithm),
                    Err(failure) => {
                        return Err(failure);
                    },
                },
                None => None,
            };
            let failure = JwtValidationFailure::new(JwtValidationFailureReason::JwkKeyParseFailed);
            if kid.is_some() && jwk_kid.is_some() && !same_option(as_deref(kid), jwk_kid) {
                return Err(failure);
            }
            if let (Some(config_alg), Some(own_alg)) = (*alg, jwk_alg) {
                if config_alg != own_alg {
                    return Err(failure);
                }
            }
            let effective_kid = match kid {
                Some(kid) => Some(kid.clone()),
                None => match jwk_kid {
                    Some(kid) => Some(owned(kid)),
                    None => None,
                },
            };
            let effective_alg = match *alg {
                Some(alg) => Some(alg),
                None => jwk_alg,
            };
            Ok(StaticKeyMetadata { kid: effective_kid, alg: effective_alg })
        },
    }
}

/// The key id that the configuration gives a key.
pub open spec fn config_kid(key: RuntimeJwtVerificationKey) -> Option<Seq<char>> {
    match key {
        RuntimeJwtVerificationKey::Pem { kid, .. } => opt(kid),
        RuntimeJwtVerificationKey::Jwk { kid, .. } => opt(kid),
    }
}

/// The algorithm that the configuration gives a key.
pub open spec fn config_alg(key: RuntimeJwtVerificationKey) -> Option<JwtAlgorithm> {
    match key {
        RuntimeJwtVerificationKey::Pem { alg, .. } => alg,
        RuntimeJwtVerificationKey::Jwk { alg, .. } => alg,
    }
}

pub fn static_key_config_kid(key: &RuntimeJwtVerificationKey) -> (r: Option<&str>)
    ensures
        opt_str(r) == config_kid(*key),
{
    match key {
        RuntimeJwtVerificationKey::Pem { kid, .. } => as_deref(kid),
        RuntimeJwtVerificationKey::Jwk { kid, .. } => as_deref(kid),
    }
}

pub fn static_key_config_alg(key: &RuntimeJwtVerificationKey) -> (r: Option<JwtAlgorithm>)
    ensures
        r == config_alg(*key),
{
    match key {
        RuntimeJwtVerificationKey::Pem { alg, .. } => *alg,
        RuntimeJwtVerificationKey::Jwk { alg, .. } => *alg,
    }
}

/// Smallest RSA modulus accepted for RS256 verification. Anything shorter is forgeable in practice,
/// so it is rejected whatever the configuration or a remote key set publishes.
pub const MIN_RSA_KEY_BITS: u32 = 2048;

/// The kind of a key that passed every check for an algorithm.
#[derive(Debug, Clone, Copy, PartialEq, Eq, Structural)]
pub enum PublicKeyType {
    Rsa,
    EcP256,
}

/// The check of an RSA key: it must give access to its modulus, which must be long enough.
pub open spec fn rsa_verdict(key: RsaFacts) -> Result<PublicKeyType, JwtValidationFailureReason> {
    match key.bits {
        None => Err(JwtValidationFailureReason::InvalidKeyType),
        Some(bits) => if bits < MIN_RSA_KEY_BITS {
            Err(JwtValidationFailureReason::KeyTooWeak)
        } else {
            Ok(PublicKeyType::Rsa)
        },
    }
}

/// The check of an elliptic-curve key: a consistent point on P-256.
pub open spec fn ec_verdict(key: EcFacts) -> Result<PublicKeyType, JwtValidationFailureReason> {
    if !key.valid {
        Err(JwtValidationFailureReason::InvalidKeyType)
    } else if !key.p256 {
        Err(JwtValidationFailureReason::UnsupportedCurve)
    } else {
        Ok(PublicKeyType::EcP256)
    }
}

/// What a PEM text is worth for an algorithm.
pub open spec fn pem_verdict(material: PemMaterial, algorithm: JwtAlgorithm) -> Result<
    PublicKeyType,
    JwtValidationFailureReason,
> {
    match (algorithm, material.public_key) {
        (JwtAlgorithm::Hs256, _) => Err(JwtValidationFailureReason::InvalidKeyType),
        (JwtAlgorithm::Rs256, Some(key)) => match key.kind {
            PublicKeyKind::Rsa | PublicKeyKind::RsaPss => rsa_verdict(key.rsa),
            _ => Err(JwtValidationFailureReason::InvalidKeyType),
        },
        (JwtAlgorithm::Rs256, None) => match material.rsa {
            Some(key) => rsa_verdict(key),
            None => Err(JwtValidationFailureReason::PemKeyParseFailed),
        },
        (JwtAlgorithm::Es256, Some(key)) => match (key.kind, key.ec) {
            (PublicKeyKind::Ec, Some(ec)) => ec_verdict(ec),
            (PublicKeyKind::Ec, None) => Err(JwtValidationFailureReason::PemKeyParseFailed),
            _ => Err(JwtValidationFailureReason::InvalidKeyType),
        },
        (JwtAlgorithm::Es256, None) => match material.ec {
            Some(ec) => ec_verdict(ec),
            None => Err(JwtValidationFailureReason::PemKeyParseFailed),
        },
    }
}

/// The view of a check's result.
pub open spec fn verdict<A>(r: Result<A, JwtValidationFailure>) -> Result<
    A,
    JwtValidationFailureReason,
> {
    match r {
        Ok(value) => Ok(value),
        Err(failure) => Err(failure.reason),
    }
}

pub fn ensure_rsa_key_strength(key: RsaFacts) -> (r: Result<PublicKeyType, JwtValidationFailure>)
    ensures
        verdict(r) == rsa_verdict(key),
{
    let bits: u32 = match key.bits {
        Some(bits) => bits,
        None => {
            return Err(JwtValidationFailure::new(JwtValidationFailureReason::InvalidKeyType));
        },
    };
    if bits < MIN_RSA_KEY_BITS {
        return Err(JwtValidationFailure::new(JwtValidationFailureReason::KeyTooWeak));
    }
    Ok(PublicKeyType::Rsa)
}

pub fn ensure_p256_public_key(key: EcFacts) -> (r: Result<PublicKeyType, JwtValidationFailure>)
    ensures
        verdict(r) == ec_verdict(key),
{
    if !key.valid {
        return Err(JwtValidationFailure::new(JwtValidationFailureReason::InvalidKeyType));
    }
    if !key.p256 {
        return Err(JwtValidationFailure::new(JwtValidationFailureReason::UnsupportedCurve));
    }
    Ok(PublicKeyType::EcP256)
}

pub fn parse_pem_verification_key(material: &PemMaterial, algorithm: JwtAlgorithm) -> (r: Result<
    PublicKeyType,
    JwtValidationFailure,
>)
    ensures
        verdict(r) == pem_verdict(*material, algorithm),
{
    match algorithm {
        JwtAlgorithm::Rs256 => {
            if let Some(public_key) = material.public_key {
                return match public_key.kind {
                    PublicKeyKind::Rsa | PublicKeyKind::RsaPss => ensure_rsa_key_strength(
                        public_key.rsa,
                    ),
                    _ => Err(JwtValidationFailure::new(JwtValidationFailureReason::InvalidKeyType)),
                };
            }
            match material.rsa {
                Some(key) => ensure_rsa_key_strength(key),
                None => Err(
                    JwtValidationFailure::new(JwtValidationFailureReason::PemKeyParseFailed),
                ),
            }
        },
        JwtAlgorithm::Es256 => {
            if let Some(public_key) = material.public_key {
                return match (public_key.kind, public_key.ec) {
                    (PublicKeyKind::Ec, Some(ec)) => ensure_p256_public_key(ec),
                    (PublicKeyKind::Ec, None) => Err(
                        JwtValidationFailure::new(JwtValidationFailureReason::PemKeyParseFailed),
                    ),
                    _ => Err(JwtValidationFailure::new(JwtValidationFailureReason::InvalidKeyType)),
                };
            }
            match material.ec {
                Some(ec) => ensure_p256_public_key(ec),
                None => Err(
                    JwtValidationFailure::new(JwtValidationFailureReason::PemKeyParseFailed),
                ),
            }
        },
        JwtAlgorithm::Hs256 => Err(
            JwtValidationFailure::new(JwtValidationFailureReason::InvalidKeyType),
        ),
    }
}

/// The numbers that make up a JWK's public key, most significant byte first.
#[derive(Debug)]
pub enum JwkComponents {
    Rsa { n: Vec<u8>, e: Vec<u8> },
    Ec { x: Vec<u8>, y: Vec<u8> },
}

pub enum ComponentsView {
    Rsa { n: Seq<u8>, e: Seq<u8> },
    Ec { x: Seq<u8>, y: Seq<u8> },
}

impl View for JwkComponents {
    type V = ComponentsView;

    open spec fn view(&self) -> ComponentsView {
        match self {
            JwkComponents::Rsa { n, e } => ComponentsView::Rsa { n: n@, e: e@ },
            JwkComponents::Ec { x, y } => ComponentsView::Ec { x: x@, y: y@ },
        }
    }
}

/// The number that a member spells in base64.
pub open spec fn number_member(document: JsonView, name: Seq<char>) -> Option<Seq<u8>> {
    match document.get_str(name) {
        Some(text) => base64url_bytes(text),
        None => None,
    }
}

/// The components that a JWK's document gives for an algorithm.
pub open spec fn document_components(document: JsonView, algorithm: JwtAlgorithm) -> Result<
    ComponentsView,
    JwtValidationFailureReason,
> {
    match algorithm {
        JwtAlgorithm::Hs256 => Err(JwtValidationFailureReason::InvalidKeyType),
        JwtAlgorithm::Rs256 => if document.get_str("kty"@) != Some("RSA"@) {
            Err(JwtValidationFailureReason::InvalidKeyType)
        } else {
            match (number_member(document, "n"@), number_member(document, "e"@)) {
                (Some(n), Some(e)) => Ok(ComponentsView::Rsa { n, e }),
                _ => Err(JwtValidationFailureReason::JwkKeyParseFailed),
            }
        },
        JwtAlgorithm::Es256 => if document.get_str("kty"@) != Some("EC"@) {
            Err(JwtValidationFailureReason::InvalidKeyType)
        } else if document.get_str("crv"@) != Some("P-256"@) {
            Err(JwtValidationFailureReason::UnsupportedCurve)
        } else {
            match (number_member(document, "x"@), number_member(document, "y"@)) {
                (Some(x), Some(y)) => Ok(ComponentsView::Ec { x, y }),
                _ => Err(JwtValidationFailureReason::JwkKeyParseFailed),
            }
        },
    }
}

/// The components that a JWK's text gives for an algorithm.
pub open spec fn components_of(jwk: Seq<char>, algorithm: JwtAlgorithm) -> Result<
    ComponentsView,
    JwtValidationFailureReason,
> {
    match jwk_document(jwk) {
        None => Err(JwtValidationFailureReason::JwkKeyParseFailed),
        Some(document) => document_components(document, algorithm),
    }
}

/// What an RSA key is worth that was built from a modulus: the modulus itself must be long enough.
pub open spec fn modulus_verdict(n: Seq<u8>, construction: RsaConstruction) -> Result<
    PublicKeyType,
    JwtValidationFailureReason,
> {
    match construction {
        RsaConstruction::Rejected => Err(JwtValidationFailureReason::JwkKeyParseFailed),
        RsaConstruction::Built { readable } => if !readable {
            Err(JwtValidationFailureReason::InvalidKeyType)
        } else if bit_length(n) < MIN_RSA_KEY_BITS {
            Err(JwtValidationFailureReason::KeyTooWeak)
        } else {
            Ok(PublicKeyType::Rsa)
        },
    }
}

/// What an elliptic-curve key is worth that was built from coordinates.
pub open spec fn coordinates_verdict(construction: EcConstruction) -> Result<
    PublicKeyType,
    JwtValidationFailureReason,
> {
    match construction {
        EcConstruction::CurveUnavailable => Err(JwtValidationFailureReason::UnsupportedCurve),
        EcConstruction::Rejected => Err(JwtValidationFailureReason::JwkKeyParseFailed),
        EcConstruction::Built(key) => ec_verdict(key),
    }
}

/// What a JWK is worth for an algorithm.
pub open spec fn jwk_verdict(
    jwk: Seq<char>,
    material: JwkMaterial,
    algorithm: JwtAlgorithm,
) -> Result<PublicKeyType, JwtValidationFailureReason> {
    match components_of(jwk, algorithm) {
        Err(reason) => Err(reason),
        Ok(ComponentsView::Rsa { n, .. }) => modulus_verdict(n, material.rsa),
        Ok(ComponentsView::Ec { .. }) => coordinates_verdict(material.ec),
    }
}

pub fn decode_jwk_bignum(encoded: &str) -> (r: Result<Vec<u8>, JwtValidationFailure>)
    ensures
        match r {
            Ok(bytes) => base64url_bytes(encoded@) == Some(bytes@),
            Err(failure) => base64url_bytes(encoded@) is None && failure.reason
                == JwtValidationFailureReason::JwkKeyParseFailed,
        },
{
    match base64url_decode(encoded) {
        Some(bytes) => Ok(bytes),
        None => Err(JwtValidationFailure::new(JwtValidationFailureReason::JwkKeyParseFailed)),
    }
}

fn read_number(document: &JsonDocument, name: &str) -> (r: Result<Vec<u8>, JwtValidationFailure>)
    ensures
        match r {
            Ok(bytes) => number_member(document@, name@) == Some(bytes@),
            Err(failure) => number_member(document@, name@) is None && failure.reason
                == JwtValidationFailureReason::JwkKeyParseFailed,
        },
{
    match document.get_str(name) {
        Some(text) => decode_jwk_bignum(text),
        None => Err(JwtValidationFailure::new(JwtValidationFailureReason::JwkKeyParseFailed)),
    }
}

/// Extracts the numbers from which the key library builds a JWK's key for an algorithm.
pub fn jwk_components(jwk: &str, algorithm: JwtAlgorithm) -> (r: Result<
    JwkComponents,
    JwtValidationFailure,
>)
    ensures
        match r {
            Ok(components) => components_of(jwk@, algorithm) == Ok::<
                ComponentsView,
                JwtValidationFailureReason,
            >(components@),
            Err(failure) => components_of(jwk@, algorithm) == Err::<
                ComponentsView,
                JwtValidationFailureReason,
            >(failure.reason),
        },
{
    let document = match parse_jwk_value(jwk) {
        Ok(document) => document,
        Err(failure) => {
            return Err(failure);
        },
    };
    match algorithm {
        JwtAlgorithm::Rs256 => {
            if !same_option(document.get_str("kty"), Some("RSA")) {
                return Err(JwtValidationFailure::new(JwtValidationFailureReason::InvalidKeyType));
            }
            let n = match read_number(&document, "n") {
                Ok(n) => n,
                Err(failure) => {
                    return Err(failure);
                },
            };
            match read_number(&document, "e") {
                Ok(e) => Ok(JwkComponents::Rsa { n, e }),
                Err(failure) => Err(failure),
            }
        },
        JwtAlgorithm::Es256 => {
            if !same_option(document.get_str("kty"), Some("EC")) {
                return Err(JwtValidationFailure::new(JwtValidationFailureReason::InvalidKeyType));
            }
            if !same_option(document.get_str("crv"), Some("P-256")) {
                return Err(JwtValidationFailure::new(JwtValidationFailureReason::UnsupportedCurve));
            }
            let x = match read_number(&document, "x") {
                Ok(x) => x,
                Err(failure) => {
                    return Err(failure);
                },
            };
            match read_number(&document, "y") {
                Ok(y) => Ok(JwkComponents::Ec { x, y }),
                Err(failure) => Err(failure),
            }
        },
        JwtAlgorithm::Hs256 => Err(
            JwtValidationFailure::new(JwtValidationFailureReason::InvalidKeyType),
        ),
    }
}

pub fn parse_jwk_verification_key(
    jwk: &str,
    material: &JwkMaterial,
    algorithm: JwtAlgorithm,
) -> (r: Result<PublicKeyType, JwtValidationFailure>)
    ensures
        verdict(r) == jwk_verdict(jwk@, *material, algorithm),
{
    match jwk_components(jwk, algorithm) {
        Err(failure) => Err(failure),
        Ok(JwkComponents::Rsa { n, .. }) => match material.rsa {
            RsaConstruction::Rejected => Err(
                JwtValidationFailure::new(JwtValidationFailureReason::JwkKeyParseFailed),
            ),
            RsaConstruction::Built { readable } => {
                let bits = if readable {
                    Some(count_bits(n.as_slice()))
                } else {
                    None
                };
                ensure_rsa_key_strength(RsaFacts { bits })
            },
        },
        Ok(JwkComponents::Ec { .. }) => match material.ec {
            EcConstruction::CurveUnavailable => Err(
                JwtValidationFailure::new(JwtValidationFailureReason::UnsupportedCurve),
            ),
            EcConstruction::Rejected => Err(
                JwtValidationFailure::new(JwtValidationFailureReason::JwkKeyParseFailed),
            ),
            EcConstruction::Built(key) => ensure_p256_public_key(key),
        },
    }
}

/// What a key is worth for an algorithm.
pub open spec fn key_verdict(key: RuntimeJwtVerificationKey, algorithm: JwtAlgorithm) -> Result<
    PublicKeyType,
    JwtValidationFailureReason,
> {
    match key {
        RuntimeJwtVerificationKey::Pem { pem_material, .. } => pem_verdict(pem_material, algorithm),
        RuntimeJwtVerificationKey::Jwk { jwk, jwk_material, .. } => jwk_verdict(
            jwk@,
            jwk_material,
            algorithm,
        ),
    }
}

/// The key that a token is verified with.
#[derive(Debug)]
pub enum JwtVerificationKey<'a> {
    Hs256Secret(&'a str),
    RsaPublicKey(RuntimeJwtVerificationKey),
    EcP256PublicKey(RuntimeJwtVerificationKey),
}

pub enum KeyView {
    Secret(Seq<char>),
    Rsa(RuntimeJwtVerificationKey),
    EcP256(RuntimeJwtVerificationKey),
}

impl<'a> View for JwtVerificationKey<'a> {
    type V = KeyView;

    open spec fn view(&self) -> KeyView {
        match self {
            JwtVerificationKey::Hs256Secret(secret) => KeyView::Secret(secret@),
            JwtVerificationKey::RsaPublicKey(key) => KeyView::Rsa(*key),
            JwtVerificationKey::EcP256PublicKey(key) => KeyView::EcP256(*key),
        }
    }
}

/// A key as a verification key for an algorithm.
pub open spec fn typed_key(key: RuntimeJwtVerificationKey, kind: PublicKeyType) -> KeyView {
    match kind {
        PublicKeyType::Rsa => KeyView::Rsa(key),
        PublicKeyType::EcP256 => KeyView::EcP256(key),
    }
}

pub fn parse_static_verification_key(key: &RuntimeJwtVerificationKey, algorithm: JwtAlgorithm) -> (r:
    Result<JwtVerificationKey<'static>, JwtValidationFailure>)
    ensures
        match (r, key_verdict(*key, algorithm)) {
            (Ok(parsed), Ok(kind)) => parsed@ == typed_key(*key, kind),
            (Err(failure), Err(reason)) => failure.reason == reason,
            _ => false,
        },
{
    let checked = match key {
        RuntimeJwtVerificationKey::Pem { pem_material, .. } => parse_pem_verification_key(
            pem_material,
            algorithm,
        ),
        RuntimeJwtVerificationKey::Jwk { jwk, jwk_material, .. } => parse_jwk_verification_key(
            jwk.as_str(),
            jwk_material,
            algorithm,
        ),
    };
    match checked {
        Ok(PublicKeyType::Rsa) => Ok(JwtVerificationKey::RsaPublicKey(key.clone())),
        Ok(PublicKeyType::EcP256) => Ok(JwtVerificationKey::EcP256PublicKey(key.clone())),
        Err(failure) => Err(failure),
    }
}

/// Where a verification key comes from.
#[derive(Debug)]
pub enum JwtVerificationKeySource {
    StaticSecret,
    StaticAsymmetricKeys,
    RemoteJwks { source_identity: String },
}

pub enum KeySourceView {
    StaticSecret,
    StaticAsymmetricKeys,
    RemoteJwks { source_identity: Seq<char> },
}

impl View for JwtVerificationKeySource {
    type V = KeySourceView;

    open spec fn view(&self) -> KeySourceView {
        match self {
            JwtVerificationKeySource::StaticSecret => KeySourceView::StaticSecret,
            JwtVerificationKeySource::StaticAsymmetricKeys => KeySourceView::StaticAsymmetricKeys,
            JwtVerificationKeySource::RemoteJwks { source_identity } => KeySourceView::RemoteJwks {
                source_identity: source_identity@,
            },
        }
    }
}

#[derive(Debug)]
pub struct ResolvedJwtVerificationKey<'a> {
    pub source: JwtVerificationKeySource,
    pub key: JwtVerificationKey<'a>,
}

/// The outcome of looking for a token's key.
#[derive(Debug)]
pub enum JwtKeyResolution<'a> {
    Found(ResolvedJwtVerificationKey<'a>),
    StaleButUsable(ResolvedJwtVerificationKey<'a>),
    KeyNotFound { source: JwtVerificationKeySource },
    SourceUnavailable { source: JwtVerificationKeySource },
    ConfigurationInvalid { source: JwtVerificationKeySource, reason: JwtValidationFailureReason },
}

pub enum ResolutionView {
    Found { source: KeySourceView, key: KeyView },
    StaleButUsable { source: KeySourceView, key: KeyView },
    KeyNotFound { source: KeySourceView },
    SourceUnavailable { source: KeySourceView },
    ConfigurationInvalid { source: KeySourceView, reason: JwtValidationFailureReason },
}

impl<'a> View for JwtKeyResolution<'a> {
    type V = ResolutionView;

    open spec fn view(&self) -> ResolutionView {
        match self {
            JwtKeyResolution::Found(resolved) => ResolutionView::Found {
                source: resolved.source@,
                key: resolved.key@,
            },
            JwtKeyResolution::StaleButUsable(resolved) => ResolutionView::StaleButUsable {
                source: resolved.source@,
                key: resolved.key@,
            },
            JwtKeyResolution::KeyNotFound { source } => ResolutionView::KeyNotFound {
                source: source@,
            },
            JwtKeyResolution::SourceUnavailable { source } => ResolutionView::SourceUnavailable {
                source: source@,
            },
            JwtKeyResolution::ConfigurationInvalid { source, reason } => {
                ResolutionView::ConfigurationInvalid { source: source@, reason: *reason }
            },
        }
    }
}

/// A key may verify a token: its key id is the one asked for, where one is, and it is not meant
/// for another algorithm.
pub open spec fn selects(
    key: RuntimeJwtVerificationKey,
    algorithm: JwtAlgorithm,
    requested_kid: Option<Seq<char>>,
) -> bool {
    match key_metadata(key) {
        None => false,
        Some(metadata) => {
            let kid = first_of(metadata.kid, config_kid(key));
            let alg = first_of(metadata.alg, config_alg(key));
            (requested_kid is None || kid == requested_kid) && (alg is None || alg == Some(
                algorithm,
            ))
        },
    }
}

/// The keys that may verify a token, in their order.
pub open spec fn selected(
    keys: Seq<RuntimeJwtVerificationKey>,
    algorithm: JwtAlgorithm,
    requested_kid: Option<Seq<char>>,
) -> Seq<RuntimeJwtVerificationKey>
    decreases keys.len(),
{
    if keys.len() == 0 {
        Seq::empty()
    } else {
        let sofar = selected(keys.drop_last(), algorithm, requested_kid);
        if selects(keys.last(), algorithm, requested_kid) {
            sofar.push(keys.last())
        } else {
            sofar
        }
    }
}

/// Every key has consistent metadata.
pub open spec fn all_consistent(keys: Seq<RuntimeJwtVerificationKey>) -> bool {
    forall|i: int| 0 <= i < keys.len() ==> key_metadata(#[trigger] keys[i]) is Some
}

/// Keys in this state are used although their source could not be refreshed in time.
pub open spec fn stale_state(state: JwtJwksCacheState) -> bool {
    state == JwtJwksCacheState::Stale || state == JwtJwksCacheState::RefreshFailedRetained || state
        == JwtJwksCacheState::QuarantinedRetained
}

/// The one key of a set that may verify a token.
pub open spec fn matching_key(
    keys: Seq<RuntimeJwtVerificationKey>,
    algorithm: JwtAlgorithm,
    requested_kid: Option<Seq<char>>,
    source: KeySourceView,
    state: JwtJwksCacheState,
) -> ResolutionView {
    let candidates = selected(keys, algorithm, requested_kid);
    if !all_consistent(keys) {
        ResolutionView::ConfigurationInvalid {
            source,
            reason: JwtValidationFailureReason::JwkKeyParseFailed,
        }
    } else if candidates.len() == 0 {
        ResolutionView::KeyNotFound { source }
    } else if candidates.len() > 1 {
        ResolutionView::ConfigurationInvalid {
            source,
            reason: JwtValidationFailureReason::AmbiguousVerificationKey,
        }
    } else if state == JwtJwksCacheState::NeverFetched || state
        == JwtJwksCacheState::EmptyUnusable {
        ResolutionView::SourceUnavailable { source }
    } else {
        match key_verdict(candidates[0], algorithm) {
            Err(reason) => ResolutionView::ConfigurationInvalid { source, reason },
            Ok(kind) => if stale_state(state) {
                ResolutionView::StaleButUsable { source, key: typed_key(candidates[0], kind) }
            } else {
                ResolutionView::Found { source, key: typed_key(candidates[0], kind) }
            },
        }
    }
}

fn key_is_selected(
    key: &RuntimeJwtVerificationKey,
    metadata: &StaticKeyMetadata,
    algorithm: JwtAlgorithm,
    requested_kid: Option<&str>,
) -> (r: bool)
    requires
        key_metadata(*key) == Some(metadata@),
    ensures
        r == selects(*key, algorithm, opt_str(requested_kid)),
{
    let effective_kid = match as_deref(&metadata.kid) {
        Some(kid) => Some(kid),
        None => static_key_config_kid(key),
    };
    let key_alg = match metadata.alg {
        Some(alg) => Some(alg),
        None => static_key_config_alg(key),
    };
    if requested_kid.is_some() && !same_option(effective_kid, requested_kid) {
        return false;
    }
    match key_alg {
        Some(key_alg) => key_alg == algorithm,
        None => true,
    }
}

/// A token without a key id is matched by algorithm alone, and is accepted only where exactly one
/// compatible key is left: which key the issuer meant is not guessed.
pub fn resolve_matching_asymmetric_key<'a>(
    keys: &Vec<RuntimeJwtVerificationKey>,
    algorithm: JwtAlgorithm,
    requested_kid: Option<&str>,
    source: JwtVerificationKeySource,
    cache_state: JwtJwksCacheState,
) -> (r: JwtKeyResolution<'a>)
    ensures
        r@ == matching_key(keys@, algorithm, opt_str(requested_kid), source@, cache_state),
{
    let mut count: usize = 0;
    let mut first: usize = 0;
    let mut i: usize = 0;
    let ghost kid = opt_str(requested_kid);
    while i < keys.len()
        invariant
            i <= keys.len(),
            count <= i,
            kid == opt_str(requested_kid),
            all_consistent(keys@.take(i as int)),
            count == selected(keys@.take(i as int), algorithm, kid).len(),
            count > 0 ==> first < keys.len() && selected(keys@.take(i as int), algorithm, kid)[0]
                == keys@[first as int],
        decreases keys.len() - i,
    {
        assert(keys@.take(i + 1).drop_last() =~= keys@.take(i as int));
        let metadata = match static_key_metadata(&keys[i]) {
            Ok(metadata) => metadata,
            Err(failure) => {
                assert(!all_consistent(keys@));
                return JwtKeyResolution::ConfigurationInvalid { source, reason: failure.reason };
            },
        };
        if key_is_selected(&keys[i], &metadata, algorithm, requested_kid) {
            if count == 0 {
                first = i;
            }
            count = count + 1;
        }
        i = i + 1;
        assert(all_consistent(keys@.take(i as int))) by {
            assert forall|k: int| 0 <= k < i implies key_metadata(
                #[trigger] keys@.take(i as int)[k],
            ) is Some by {
                if k < i - 1 {
                    assert(keys@.take(i - 1)[k] == keys@[k]);
                }
            }
        }
    }
    assert(keys@.take(i as int) =~= keys@);
    if count == 0 {
        return JwtKeyResolution::KeyNotFound { source };
    }
    if count > 1 {
        return JwtKeyResolution::ConfigurationInvalid {
            source,
            reason: JwtValidationFailureReason::AmbiguousVerificationKey,
        };
    }
    match cache_state {
        JwtJwksCacheState::NeverFetched | JwtJwksCacheState::EmptyUnusable => {
            return JwtKeyResolution::SourceUnavailable { source };
        },
        _ => {},
    }
    let key = match parse_static_verification_key(&keys[first], algorithm) {
        Ok(key) => key,
        Err(failure) => {
            return JwtKeyResolution::ConfigurationInvalid { source, reason: failure.reason };
        },
    };
    let resolved = ResolvedJwtVerificationKey { source, key };
    match cache_state {
        JwtJwksCacheState::Stale
        | JwtJwksCacheState::RefreshFailedRetained
        | JwtJwksCacheState::QuarantinedRetained => JwtKeyResolution::StaleButUsable(resolved),
        _ => JwtKeyResolution::Found(resolved),
    }
}

} // verus!
