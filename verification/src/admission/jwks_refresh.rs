//! Fetched key sets: what a fetch yields and what becomes of it.
use crate::admission::jwks_source::contains_algorithm;
use crate::admission::jwt::{algorithm_label, jwt_algorithm_name};
use crate::admission::key_resolution::{
    algorithm_named, jwk_document, jwk_verdict, key_metadata, parse_jwk_value, parse_jwt_alg_str,
    parse_static_verification_key, static_key_metadata,
};
use crate::config::{JwkMaterial, JwtAlgorithm, RuntimeJwtVerificationKey};
use crate::json::{json_document, parse_json, FieldView, ItemView, JsonDocument, JsonField, JsonView};
use crate::text::{as_deref, opt, owned, same_option, same_text, texts};
use vstd::hash_set::StringHashSet;
use vstd::prelude::*;

verus! {

/// Why a key set could not be fetched.
#[derive(Debug, Clone, Copy, PartialEq, Eq, Structural)]
pub enum JwtJwksFetchFailureReason {
    RequestFailed,
    HttpStatus,
    MalformedDocument,
    AmbiguousDuplicateKid,
}

impl JwtJwksFetchFailureReason {
    pub open spec fn label(self) -> Seq<char> {
        match self {
            JwtJwksFetchFailureReason::RequestFailed => "request_failed"@,
            JwtJwksFetchFailureReason::HttpStatus => "http_status"@,
            JwtJwksFetchFailureReason::MalformedDocument => "malformed_document"@,
            JwtJwksFetchFailureReason::AmbiguousDuplicateKid => "ambiguous_duplicate_kid"@,
        }
    }

    pub fn as_str(self) -> (r: &'static str)
        ensures
            r@ == self.label(),
    {
        match self {
            JwtJwksFetchFailureReason::RequestFailed => "request_failed",
            JwtJwksFetchFailureReason::HttpStatus => "http_status",
            JwtJwksFetchFailureReason::MalformedDocument => "malformed_document",
            JwtJwksFetchFailureReason::AmbiguousDuplicateKid => "ambiguous_duplicate_kid",
        }
    }
}

/// A failed fetch: its class and what happened.
#[derive(Debug)]
pub struct JwtJwksFetchFailure {
    pub reason: JwtJwksFetchFailureReason,
    pub detail: String,
}

/// A status code as it is printed: the code, a blank, and its usual name.
pub uninterp spec fn status_line(code: u16) -> Seq<char>;

/// `http::StatusCode::from_u16` and its `Display`: the text depends on the code alone. Codes under
/// 100 and over 999 are no status codes, and are left out.
#[verifier::external_body]
fn status_text(code: u16) -> (r: String)
    requires
        100 <= code < 1000,
    ensures
        r@ == status_line(code),
{
    http::StatusCode::from_u16(code).unwrap().to_string()
}

impl JwtJwksFetchFailure {
    pub fn request_failed(detail: String) -> (r: Self)
        ensures
            r.reason == JwtJwksFetchFailureReason::RequestFailed,
            r.detail@ == detail@,
    {
        JwtJwksFetchFailure { reason: JwtJwksFetchFailureReason::RequestFailed, detail }
    }

    pub fn http_status(status: u16) -> (r: Self)
        requires
            100 <= status < 1000,
        ensures
            r.reason == JwtJwksFetchFailureReason::HttpStatus,
            r.detail@ == "jwks endpoint returned "@ + status_line(status),
    {
        let mut detail = String::from_str("jwks endpoint returned ");
        detail.append(status_text(status).as_str());
        JwtJwksFetchFailure { reason: JwtJwksFetchFailureReason::HttpStatus, detail }
    }

    pub fn malformed_document(detail: String) -> (r: Self)
        ensures
            r.reason == JwtJwksFetchFailureReason::MalformedDocument,
            r.detail@ == detail@,
    {
        JwtJwksFetchFailure { reason: JwtJwksFetchFailureReason::MalformedDocument, detail }
    }

    pub fn ambiguous_duplicate_kid(kid: &str) -> (r: Self)
        ensures
            r.reason == JwtJwksFetchFailureReason::AmbiguousDuplicateKid,
            r.detail@ == duplicate_kid_text(kid@),
    {
        let mut detail = String::from_str("duplicate jwks kid '");
        detail.append(kid);
        detail.append("'");
        JwtJwksFetchFailure { reason: JwtJwksFetchFailureReason::AmbiguousDuplicateKid, detail }
    }

    /// The failure's text: its label, a colon, and the detail.
    pub open spec fn text(self) -> Seq<char> {
        self.reason.label() + ": "@ + self.detail@
    }

    pub fn to_text(&self) -> (r: String)
        ensures
            r@ == self.text(),
    {
        let mut r = String::from_str(self.reason.as_str());
        r.append(": ");
        r.append(self.detail.as_str());
        r
    }
}

/// Two keys of the same form, with the same key id, algorithm and text.
pub open spec fn equivalent(a: RuntimeJwtVerificationKey, b: RuntimeJwtVerificationKey) -> bool {
    match (a, b) {
        (
            RuntimeJwtVerificationKey::Pem { kid: k1, alg: a1, public_key_pem: t1, .. },
            RuntimeJwtVerificationKey::Pem { kid: k2, alg: a2, public_key_pem: t2, .. },
        ) => opt(k1) == opt(k2) && a1 == a2 && t1@ == t2@,
        (
            RuntimeJwtVerificationKey::Jwk { kid: k1, alg: a1, jwk: t1, .. },
            RuntimeJwtVerificationKey::Jwk { kid: k2, alg: a2, jwk: t2, .. },
        ) => opt(k1) == opt(k2) && a1 == a2 && t1@ == t2@,
        _ => false,
    }
}

/// A fetch that was answered with a status yields a document only where the status tells of success.
pub fn fetched_status(code: u16) -> (r: Result<(), JwtJwksFetchFailure>)
    requires
        100 <= code < 1000,
    ensures
        r is Ok <==> 200 <= code < 300,
        r matches Err(failure) ==> failure.reason == JwtJwksFetchFailureReason::HttpStatus
            && failure.detail@ == "jwks endpoint returned "@ + status_line(code),
{
    if 200 <= code && code < 300 {
        Ok(())
    } else {
        Err(JwtJwksFetchFailure::http_status(code))
    }
}

pub fn jwt_verification_keys_equivalent(
    left: &RuntimeJwtVerificationKey,
    right: &RuntimeJwtVerificationKey,
) -> (r: bool)
    ensures
        r == equivalent(*left, *right),
{
    match (left, right) {
        (
            RuntimeJwtVerificationKey::Pem { kid: k1, alg: a1, public_key_pem: t1, .. },
            RuntimeJwtVerificationKey::Pem { kid: k2, alg: a2, public_key_pem: t2, .. },
        ) => same_option(as_deref(k1), as_deref(k2)) && same_algorithm(*a1, *a2) && same_text(
            t1.as_str(),
            t2.as_str(),
        ),
        (
            RuntimeJwtVerificationKey::Jwk { kid: k1, alg: a1, jwk: t1, .. },
            RuntimeJwtVerificationKey::Jwk { kid: k2, alg: a2, jwk: t2, .. },
        ) => same_option(as_deref(k1), as_deref(k2)) && same_algorithm(*a1, *a2) && same_text(
            t1.as_str(),
            t2.as_str(),
        ),
        _ => false,
    }
}

fn same_algorithm(a: Option<JwtAlgorithm>, b: Option<JwtAlgorithm>) -> (r: bool)
    ensures
        r == (a == b),
{
    match (a, b) {
        (Some(left), Some(right)) => left == right,
        (None, None) => true,
        _ => false,
    }
}

pub open spec fn duplicate_kid_text(kid: Seq<char>) -> Seq<char> {
    "duplicate jwks kid '"@ + kid + "'"@
}

/// The most bytes that a fetched key set may have.
pub const MAX_JWKS_BODY_BYTES: usize = 262_144;

/// A key set's body while it arrives.
#[derive(Debug)]
pub struct JwksBody {
    bytes: Vec<u8>,
}

impl View for JwksBody {
    type V = Seq<u8>;

    closed spec fn view(&self) -> Seq<u8> {
        self.bytes@
    }
}

impl JwksBody {
    /// The body is within its bound.
    pub open spec fn wf(self) -> bool {
        self@.len() <= MAX_JWKS_BODY_BYTES
    }

    pub fn new() -> (r: Self)
        ensures
            r.wf(),
            r@ == Seq::<u8>::empty(),
    {
        JwksBody { bytes: Vec::new() }
    }

    /// Takes the next chunk, unless the body would outgrow its bound.
    pub fn push_chunk(&mut self, chunk: &[u8]) -> (r: Result<(), JwtJwksFetchFailure>)
        requires
            old(self).wf(),
        ensures
            final(self).wf(),
            r is Ok <==> old(self)@.len() + chunk@.len() <= MAX_JWKS_BODY_BYTES,
            final(self)@ == if r is Ok {
                old(self)@ + chunk@
            } else {
                old(self)@
            },
            r matches Err(failure) ==> failure.reason
                == JwtJwksFetchFailureReason::MalformedDocument && failure.detail@
                == "jwks document exceeded 262144 bytes"@,
    {
        if chunk.len() > MAX_JWKS_BODY_BYTES - self.bytes.len() {
            return Err(
                JwtJwksFetchFailure::malformed_document(
                    owned("jwks document exceeded 262144 bytes"),
                ),
            );
        }
        self.bytes.extend_from_slice(chunk);
        assert(self@ =~= old(self)@ + chunk@);
        Ok(())
    }

    pub fn into_bytes(self) -> (r: Vec<u8>)
        ensures
            r@ == self@,
    {
        self.bytes
    }
}

/// The texts of the keys that a fetched document lists; what is wrong with it where it is no JSON
/// or lists none.
pub open spec fn listed_keys(body: Seq<u8>) -> Result<Seq<Seq<char>>, Seq<char>> {
    match json_document(body) {
        Err(message) => Err(message),
        Ok(document) => match document.get("keys"@) {
            Some(FieldView::List(items)) => Ok(items.map_values(|item: ItemView| item.source)),
            _ => Err("jwks document missing keys[]"@),
        },
    }
}

/// Reads the keys of a fetched document, each as its own JSON text.
pub fn parse_jwks_document(body: &[u8]) -> (r: Result<Vec<String>, JwtJwksFetchFailure>)
    ensures
        match (r, listed_keys(body@)) {
            (Ok(keys), Ok(listed)) => texts(keys@) == listed,
            (Err(failure), Err(detail)) => failure.reason
                == JwtJwksFetchFailureReason::MalformedDocument && failure.detail@ == detail,
            _ => false,
        },
{
    let document = match parse_json(body) {
        Ok(document) => document,
        Err(message) => {
            return Err(JwtJwksFetchFailure::malformed_document(message));
        },
    };
    match document.get("keys") {
        Some(JsonField::List(items)) => {
            let mut keys: Vec<String> = Vec::new();
            let mut i: usize = 0;
            let ghost listed = items@.map_values(|item: crate::json::JsonItem| item@).map_values(
                |item: ItemView| item.source,
            );
            while i < items.len()
                invariant
                    i <= items.len(),
                    listed.len() == items@.len(),
                    forall|k: int|
                        0 <= k < items@.len() ==> #[trigger] listed[k] == items@[k].source@,
                    keys@.len() == i,
                    forall|k: int| 0 <= k < i ==> #[trigger] keys@[k]@ == listed[k],
                decreases items.len() - i,
            {
                keys.push(items[i].source.clone());
                i = i + 1;
            }
            assert(texts(keys@) =~= listed);
            Ok(keys)
        },
        _ => Err(JwtJwksFetchFailure::malformed_document(owned("jwks document missing keys[]"))),
    }
}

/// A fetched key: its JSON text, and what the key library makes of its components.
#[derive(Debug)]
pub struct FetchedJwk {
    pub jwk: String,
    pub material: JwkMaterial,
}

/// What a usable fetched key holds.
pub struct JwkFields {
    pub kid: Option<Seq<char>>,
    pub alg: JwtAlgorithm,
    pub jwk: Seq<char>,
    pub material: JwkMaterial,
}

/// A key holds these fields.
pub open spec fn is_jwk(key: RuntimeJwtVerificationKey, fields: JwkFields) -> bool {
    match key {
        RuntimeJwtVerificationKey::Jwk { kid, alg, jwk, jwk_material } => opt(kid) == fields.kid
            && alg == Some(fields.alg) && jwk@ == fields.jwk && jwk_material == fields.material,
        _ => false,
    }
}

/// The algorithm that a key without a declared one is for.
pub open spec fn inferred_algorithm(document: JsonView) -> Result<JwtAlgorithm, Seq<char>> {
    match document.get_str("kty"@) {
        None => Err("is missing kty"@),
        Some(kty) => if kty == "RSA"@ {
            Ok(JwtAlgorithm::Rs256)
        } else if kty == "EC"@ {
            match document.get_str("crv"@) {
                Some(curve) => if curve == "P-256"@ {
                    Ok(JwtAlgorithm::Es256)
                } else {
                    Err("declares unsupported EC curve '"@ + curve + "'"@)
                },
                None => Err("is missing crv for EC key"@),
            }
        } else {
            Err("declares unsupported kty '"@ + kty + "'"@)
        },
    }
}

/// The view of a result whose error is a text.
pub open spec fn text_result<A>(r: Result<A, String>) -> Result<A, Seq<char>> {
    match r {
        Ok(value) => Ok(value),
        Err(message) => Err(message@),
    }
}

fn quoted(before: &str, value: &str, after: &str) -> (r: String)
    ensures
        r@ == before@ + value@ + after@,
{
    let mut r = String::from_str(before);
    r.append(value);
    r.append(after);
    r
}

pub fn infer_jwk_algorithm(document: &JsonDocument) -> (r: Result<JwtAlgorithm, String>)
    ensures
        text_result(r) == inferred_algorithm(document@),
{
    let kty = match document.get_str("kty") {
        Some(kty) => kty,
        None => {
            return Err(owned("is missing kty"));
        },
    };
    if same_text(kty, "RSA") {
        return Ok(JwtAlgorithm::Rs256);
    }
    if same_text(kty, "EC") {
        return match document.get_str("crv") {
            Some(curve) => if same_text(curve, "P-256") {
                Ok(JwtAlgorithm::Es256)
            } else {
                Err(quoted("declares unsupported EC curve '", curve, "'"))
            },
            None => Err(owned("is missing crv for EC key")),
        };
    }
    Err(quoted("declares unsupported kty '", kty, "'"))
}

/// The algorithm that a key declares, or else the one it is for.
pub open spec fn document_algorithm(document: JsonView) -> Result<JwtAlgorithm, Seq<char>> {
    match document.get_str("alg"@) {
        Some(name) => match algorithm_named(name) {
            Some(algorithm) => Ok(algorithm),
            None => Err("declares unsupported alg '"@ + name + "' for jwks normalization"@),
        },
        None => inferred_algorithm(document),
    }
}

/// One of the items is the text `wanted`.
pub open spec fn lists_text(items: Seq<ItemView>, wanted: Seq<char>) -> bool {
    exists|i: int| 0 <= i < items.len() && (#[trigger] items[i]).text == Some(wanted)
}

/// The key is meant for something other than verifying signatures.
pub open spec fn other_purpose(document: JsonView) -> bool {
    ||| (document.get_str("use"@) is Some && document.get_str("use"@) != Some("sig"@))
    ||| (document.get("key_ops"@) matches Some(FieldView::List(operations)) && !lists_text(
        operations,
        "verify"@,
    ))
}

/// What a fetched key is worth: nothing where it is meant for something else or for an algorithm
/// that is not allowed, an objection where it is unsound, else a verification key.
pub open spec fn normalized_key(
    jwk: Seq<char>,
    material: JwkMaterial,
    allowed: Seq<JwtAlgorithm>,
) -> Result<Option<JwkFields>, Seq<char>> {
    match jwk_document(jwk) {
        Some(JsonView::Object(fields)) => {
            let document = JsonView::Object(fields);
            if other_purpose(document) {
                Ok(None)
            } else {
                match document_algorithm(document) {
                    Err(message) => Err(message),
                    Ok(algorithm) => if algorithm == JwtAlgorithm::Hs256 || !allowed.contains(
                        algorithm,
                    ) {
                        Ok(None)
                    } else {
                        match jwk_verdict(jwk, material, algorithm) {
                            Err(reason) => Err(
                                "cannot be used for "@ + algorithm_label(algorithm)
                                    + " verification: "@ + reason.label(),
                            ),
                            Ok(_) => Ok(
                                Some(
                                    JwkFields {
                                        kid: document.get_str("kid"@),
                                        alg: algorithm,
                                        jwk,
                                        material,
                                    },
                                ),
                            ),
                        }
                    },
                }
            }
        },
        _ => Err("must be a JSON object"@),
    }
}

fn list_has_text(items: &Vec<crate::json::JsonItem>, wanted: &str) -> (r: bool)
    ensures
        r == lists_text(items@.map_values(|item: crate::json::JsonItem| item@), wanted@),
{
    let ghost views = items@.map_values(|item: crate::json::JsonItem| item@);
    let mut i: usize = 0;
    while i < items.len()
        invariant
            i <= items.len(),
            views == items@.map_values(|item: crate::json::JsonItem| item@),
            forall|k: int| 0 <= k < i ==> (#[trigger] views[k]).text != Some(wanted@),
        decreases items.len() - i,
    {
        assert(views[i as int] == items@[i as int]@);
        if same_option(as_deref(&items[i].text), Some(wanted)) {
            return true;
        }
        i = i + 1;
    }
    false
}

fn has_other_purpose(document: &JsonDocument) -> (r: bool)
    ensures
        r == other_purpose(document@),
{
    if let Some(use_value) = document.get_str("use") {
        if !same_text(use_value, "sig") {
            return true;
        }
    }
    if let Some(JsonField::List(operations)) = document.get("key_ops") {
        if !list_has_text(operations, "verify") {
            return true;
        }
    }
    false
}

pub fn normalize_jwks_key(key: &FetchedJwk, allowed: &Vec<JwtAlgorithm>) -> (r: Result<
    Option<RuntimeJwtVerificationKey>,
    String,
>)
    ensures
        match (r, normalized_key(key.jwk@, key.material, allowed@)) {
            (Ok(Some(usable)), Ok(Some(fields))) => is_jwk(usable, fields),
            (Ok(None), Ok(None)) => true,
            (Err(message), Err(text)) => message@ == text,
            _ => false,
        },
{
    let document = match parse_jwk_value(key.jwk.as_str()) {
        Ok(document) => document,
        Err(_) => {
            return Err(owned("must be a JSON object"));
        },
    };
    if !document.is_object() {
        return Err(owned("must be a JSON object"));
    }
    if has_other_purpose(&document) {
        return Ok(None);
    }
    let algorithm = match document.get_str("alg") {
        Some(name) => match parse_jwt_alg_str(name) {
            Ok(algorithm) => algorithm,
            Err(_) => {
                return Err(
                    quoted("declares unsupported alg '", name, "' for jwks normalization"),
                );
            },
        },
        None => match infer_jwk_algorithm(&document) {
            Ok(algorithm) => algorithm,
            Err(message) => {
                return Err(message);
            },
        },
    };
    if algorithm == JwtAlgorithm::Hs256 || !contains_algorithm(allowed, algorithm) {
        return Ok(None);
    }
    let kid = match document.get_str("kid") {
        Some(kid) => Some(owned(kid)),
        None => None,
    };
    let normalized = RuntimeJwtVerificationKey::Jwk {
        kid,
        alg: Some(algorithm),
        jwk: key.jwk.clone(),
        jwk_material: key.material,
    };
    match parse_static_verification_key(&normalized, algorithm) {
        Ok(_) => Ok(Some(normalized)),
        Err(failure) => {
            let mut message = quoted(
                "cannot be used for ",
                jwt_algorithm_name(algorithm),
                " verification: ",
            );
            message.append(failure.reason.as_str());
            Err(message)
        },
    }
}

/// The usable keys of a fetched set, in their order.
pub open spec fn accepted(keys: Seq<FetchedJwk>, allowed: Seq<JwtAlgorithm>) -> Seq<JwkFields>
    decreases keys.len(),
{
    if keys.len() == 0 {
        Seq::empty()
    } else {
        let sofar = accepted(keys.drop_last(), allowed);
        match normalized_key(keys.last().jwk@, keys.last().material, allowed) {
            Ok(Some(fields)) => sofar.push(fields),
            _ => sofar,
        }
    }
}

/// The key ids of some keys.
pub open spec fn kids(keys: Seq<JwkFields>) -> Set<Seq<char>>
    decreases keys.len(),
{
    if keys.len() == 0 {
        Set::empty()
    } else {
        match keys.last().kid {
            Some(kid) => kids(keys.drop_last()).insert(kid),
            None => kids(keys.drop_last()),
        }
    }
}

/// The first key id that comes a second time.
pub open spec fn first_duplicate(keys: Seq<JwkFields>) -> Option<Seq<char>>
    decreases keys.len(),
{
    if keys.len() == 0 {
        None
    } else {
        let earlier = first_duplicate(keys.drop_last());
        if earlier is Some {
            earlier
        } else {
            match keys.last().kid {
                Some(kid) if kids(keys.drop_last()).contains(kid) => Some(kid),
                _ => None,
            }
        }
    }
}

/// Keys that hold these fields, one for one.
pub open spec fn are_jwks(keys: Seq<RuntimeJwtVerificationKey>, fields: Seq<JwkFields>) -> bool {
    keys.len() == fields.len() && forall|i: int|
        0 <= i < keys.len() ==> is_jwk(#[trigger] keys[i], fields[i])
}

/// A usable fetched key has consistent metadata: its own key id and its algorithm.
proof fn lemma_normalized_metadata(
    key: RuntimeJwtVerificationKey,
    jwk: Seq<char>,
    material: JwkMaterial,
    allowed: Seq<JwtAlgorithm>,
)
    requires
        normalized_key(jwk, material, allowed) matches Ok(Some(fields)) && is_jwk(key, fields),
    ensures
        normalized_key(jwk, material, allowed) matches Ok(Some(fields)) && (key_metadata(
            key,
        ) matches Some(metadata) && metadata.kid == fields.kid),
{
}

proof fn lemma_duplicate_stays(keys: Seq<FetchedJwk>, allowed: Seq<JwtAlgorithm>, n: int)
    requires
        0 <= n <= keys.len(),
        first_duplicate(accepted(keys.take(n), allowed)) is Some,
    ensures
        first_duplicate(accepted(keys, allowed)) == first_duplicate(
            accepted(keys.take(n), allowed),
        ),
    decreases keys.len(),
{
    if n == keys.len() {
        assert(keys.take(n) =~= keys);
    } else {
        assert(keys.drop_last().take(n) =~= keys.take(n));
        lemma_duplicate_stays(keys.drop_last(), allowed, n);
        let before = accepted(keys.drop_last(), allowed);
        match normalized_key(keys.last().jwk@, keys.last().material, allowed) {
            Ok(Some(fields)) => {
                assert(before.push(fields).drop_last() =~= before);
            },
            _ => {},
        }
    }
}

/// Reads a fetched key set: unsound keys are passed over, and two keys with one key id make the
/// whole set unusable.
pub fn normalize_jwks_document(keys: &Vec<FetchedJwk>, allowed: &Vec<JwtAlgorithm>) -> (r: Result<
    Vec<RuntimeJwtVerificationKey>,
    JwtJwksFetchFailure,
>)
    ensures
        match (r, first_duplicate(accepted(keys@, allowed@))) {
            (Ok(usable), None) => are_jwks(usable@, accepted(keys@, allowed@)),
            (Err(failure), Some(kid)) => failure.reason
                == JwtJwksFetchFailureReason::AmbiguousDuplicateKid && failure.detail@
                == duplicate_kid_text(kid),
            _ => false,
        },
{
    let mut normalized: Vec<RuntimeJwtVerificationKey> = Vec::new();
    let mut seen_kids = StringHashSet::new();
    let mut i: usize = 0;
    while i < keys.len()
        invariant
            i <= keys.len(),
            are_jwks(normalized@, accepted(keys@.take(i as int), allowed@)),
            seen_kids@ == kids(accepted(keys@.take(i as int), allowed@)),
            first_duplicate(accepted(keys@.take(i as int), allowed@)) is None,
        decreases keys.len() - i,
    {
        assert(keys@.take(i + 1).drop_last() =~= keys@.take(i as int));
        let ghost sofar = accepted(keys@.take(i as int), allowed@);
        let ghost next = accepted(keys@.take(i + 1), allowed@);
        if let Ok(Some(key)) = normalize_jwks_key(&keys[i], allowed) {
            let ghost fields = normalized_key(keys@[i as int].jwk@, keys@[i as int].material, allowed@)->Ok_0->0;
            proof {
                lemma_normalized_metadata(
                    key,
                    keys@[i as int].jwk@,
                    keys@[i as int].material,
                    allowed@,
                );
                assert(next == sofar.push(fields));
                assert(next.drop_last() =~= sofar);
            }
            let effective_kid = match static_key_metadata(&key) {
                Ok(metadata) => metadata.kid,
                Err(failure) => {
                    return Err(
                        JwtJwksFetchFailure::malformed_document(owned(failure.reason.as_str())),
                    );
                },
            };
            if let Some(kid) = effective_kid {
                let shown = kid.clone();
                if !seen_kids.insert(kid) {
                    proof {
                        assert(first_duplicate(next) == Some(shown@));
                        lemma_duplicate_stays(keys@, allowed@, i + 1);
                    }
                    return Err(JwtJwksFetchFailure::ambiguous_duplicate_kid(shown.as_str()));
                }
            }
            normalized.push(key);
        }
        i = i + 1;
    }
    assert(keys@.take(i as int) =~= keys@);
    Ok(normalized)
}

} // verus!
