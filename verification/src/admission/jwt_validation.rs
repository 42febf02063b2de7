//! The validation of a token from its text to its claims.
use crate::admission::jwks_cache::{
    jwt_jwks_cache_stale_window_expired, jwt_jwks_cache_state_name, snapshot_in, state_label,
    EntryView, JwtJwksCacheState, JwtJwksSharedCache, SnapshotView,
};
use crate::admission::jwks_source::{
    endpoint_of, opt_source, source_of, JwtJwksSourceConfig, SourceView,
};
use crate::admission::jwt::{
    algorithm_label, compact_parts, jose_header, jwt_algorithm_name, parse_compact_jwt,
    parse_jose_header, parse_jwt_claims, signature_check, validate_jwt_algorithm_policy,
    verify_jwt_signature, HeaderView, JwtValidationFailure, JwtValidationFailureReason,
    ParsedJoseHeader, RequestView, SignatureRequest,
};
use crate::admission::jwt_claims::{claims_objection, validate_jwt_registered_claims};
use crate::admission::key_resolution::{JwtKeyResolution, KeyView, ResolutionView};
use crate::admission::key_resolver::{lookup, JwtKeyResolver};
use crate::config::{JwtAlgorithm, Nanos, RuntimeJwtAuth, WallTime, SECOND};
use crate::json::{json_document, JsonDocument, JsonView};
use crate::text::{as_deref, opt, owned};
use vstd::prelude::*;

verus! {

/// A token that was accepted.
pub struct ValidatedJwt {
    pub algorithm: JwtAlgorithm,
    pub claims: JsonDocument,
}

/// A token whose signature the key library has still to check.
#[derive(Debug)]
pub struct PendingJwt {
    pub algorithm: JwtAlgorithm,
    pub request: SignatureRequest,
    pub payload_bytes: Vec<u8>,
}

pub struct PendingView {
    pub algorithm: JwtAlgorithm,
    pub request: RequestView,
    pub payload_bytes: Seq<u8>,
}

impl View for PendingJwt {
    type V = PendingView;

    open spec fn view(&self) -> PendingView {
        PendingView {
            algorithm: self.algorithm,
            request: self.request@,
            payload_bytes: self.payload_bytes@,
        }
    }
}

/// How far a token's validation got.
pub enum JwtValidationStep {
    Rejected(JwtValidationFailure),
    Validated(ValidatedJwt),
    CheckSignature(PendingJwt),
}

pub enum StepView {
    Rejected(JwtValidationFailureReason),
    Validated { algorithm: JwtAlgorithm, claims: JsonView },
    CheckSignature(PendingView),
}

impl View for JwtValidationStep {
    type V = StepView;

    open spec fn view(&self) -> StepView {
        match self {
            JwtValidationStep::Rejected(failure) => StepView::Rejected(failure.reason),
            JwtValidationStep::Validated(validated) => StepView::Validated {
                algorithm: validated.algorithm,
                claims: validated.claims@,
            },
            JwtValidationStep::CheckSignature(pending) => StepView::CheckSignature(pending@),
        }
    }
}

/// A token's validation, and the source that is to be fetched on demand.
pub struct JwtValidation {
    pub step: JwtValidationStep,
    pub refresh: Option<JwtJwksSourceConfig>,
}

pub struct ValidationView {
    pub step: StepView,
    pub cache: Map<Seq<char>, EntryView>,
    pub refresh: Option<SourceView>,
}

/// The end of a validation once the signature holds: what the claims decide.
pub open spec fn claims_step(
    payload: Seq<u8>,
    algorithm: JwtAlgorithm,
    jwt: RuntimeJwtAuth,
    wall: WallTime,
) -> StepView {
    match json_document(payload) {
        Err(_) => StepView::Rejected(JwtValidationFailureReason::MalformedClaims),
        Ok(claims) => match claims_objection(jwt, claims, wall) {
            Some(reason) => StepView::Rejected(reason),
            None => StepView::Validated { algorithm, claims },
        },
    }
}

/// The key of a resolution, or why there is none.
pub open spec fn resolved_key(resolution: ResolutionView) -> Result<
    KeyView,
    JwtValidationFailureReason,
> {
    match resolution {
        ResolutionView::Found { key, .. } => Ok(key),
        ResolutionView::StaleButUsable { key, .. } => Ok(key),
        ResolutionView::KeyNotFound { .. } => Err(
            JwtValidationFailureReason::MissingVerificationKey,
        ),
        ResolutionView::SourceUnavailable { .. } => Err(
            JwtValidationFailureReason::KeySourceUnavailable,
        ),
        ResolutionView::ConfigurationInvalid { reason, .. } => Err(reason),
    }
}

/// The validation of a token: its form, its header, the algorithm policy, the search for its key,
/// its signature, its claims.
pub open spec fn validation(
    token: Seq<char>,
    jwt: RuntimeJwtAuth,
    cache: Map<Seq<char>, EntryView>,
    now: Nanos,
    wall: WallTime,
) -> ValidationView {
    let refused = |reason: JwtValidationFailureReason|
        ValidationView { step: StepView::Rejected(reason), cache, refresh: None };
    match compact_parts(token) {
        Err(reason) => refused(reason),
        Ok(parsed) => match jose_header(parsed.header_bytes) {
            Err(reason) => refused(reason),
            Ok(header) => if !jwt.allowed_algorithms@.contains(header.algorithm) {
                refused(JwtValidationFailureReason::AlgorithmNotAllowed)
            } else {
                let found = lookup(jwt, header.algorithm, header.kid, cache, now, wall);
                let step = match resolved_key(found.resolution) {
                    Err(reason) => StepView::Rejected(reason),
                    Ok(key) => match signature_check(parsed, header.algorithm, key) {
                        Err(reason) => StepView::Rejected(reason),
                        Ok(Some(request)) => StepView::CheckSignature(
                            PendingView {
                                algorithm: header.algorithm,
                                request,
                                payload_bytes: parsed.payload_bytes,
                            },
                        ),
                        Ok(None) => claims_step(
                            parsed.payload_bytes,
                            header.algorithm,
                            jwt,
                            wall,
                        ),
                    },
                };
                ValidationView { step, cache: found.cache, refresh: found.refresh }
            },
        },
    }
}

/// Decides on the claims of a token whose signature holds.
fn judge_claims(
    payload_bytes: &[u8],
    algorithm: JwtAlgorithm,
    jwt: &RuntimeJwtAuth,
    wall: WallTime,
) -> (r: Result<ValidatedJwt, JwtValidationFailure>)
    ensures
        match r {
            Ok(validated) => claims_step(payload_bytes@, algorithm, *jwt, wall)
                == (StepView::Validated {
                algorithm: validated.algorithm,
                claims: validated.claims@,
            }),
            Err(failure) => claims_step(payload_bytes@, algorithm, *jwt, wall)
                == StepView::Rejected(failure.reason),
        },
{
    let claims = match parse_jwt_claims(payload_bytes) {
        Ok(claims) => claims,
        Err(failure) => {
            return Err(failure);
        },
    };
    match validate_jwt_registered_claims(jwt, &claims, wall) {
        Ok(_) => Ok(ValidatedJwt { algorithm, claims }),
        Err(failure) => Err(failure),
    }
}

fn refused(failure: JwtValidationFailure) -> (r: JwtValidation)
    ensures
        r.step@ == StepView::Rejected(failure.reason),
        r.refresh is None,
{
    JwtValidation { step: JwtValidationStep::Rejected(failure), refresh: None }
}

/// Validates a token as far as it goes without the key library.
pub fn validate_jwt_token(
    token: &str,
    jwt: &RuntimeJwtAuth,
    cache: &mut JwtJwksSharedCache,
    now: Nanos,
    wall: WallTime,
) -> (r: JwtValidation)
    requires
        old(cache).wf(),
        now + 30 * SECOND <= Nanos::MAX,
    ensures
        final(cache).wf(),
        (ValidationView {
            step: r.step@,
            cache: final(cache)@,
            refresh: opt_source(r.refresh),
        }) == validation(token@, *jwt, old(cache)@, now, wall),
{
    let parsed = match parse_compact_jwt(token) {
        Ok(parsed) => parsed,
        Err(failure) => {
            return refused(failure);
        },
    };
    let header = match parse_jose_header(parsed.header_bytes.as_slice()) {
        Ok(header) => header,
        Err(failure) => {
            return refused(failure);
        },
    };
    let algorithm = match validate_jwt_algorithm_policy(jwt, header.algorithm) {
        Ok(algorithm) => algorithm,
        Err(failure) => {
            return refused(failure);
        },
    };
    let kid = as_deref(&header.kid);
    let found = JwtKeyResolver::new(jwt, algorithm, kid).resolve(cache, now, wall);
    let refresh = found.refresh;
    let key = match found.resolution {
        JwtKeyResolution::Found(resolved) => resolved.key,
        JwtKeyResolution::StaleButUsable(resolved) => resolved.key,
        JwtKeyResolution::KeyNotFound { .. } => {
            let failure = JwtValidationFailure::new(
                JwtValidationFailureReason::MissingVerificationKey,
            );
            return JwtValidation { step: JwtValidationStep::Rejected(failure), refresh };
        },
        JwtKeyResolution::SourceUnavailable { .. } => {
            let failure = JwtValidationFailure::new(
                JwtValidationFailureReason::KeySourceUnavailable,
            );
            return JwtValidation { step: JwtValidationStep::Rejected(failure), refresh };
        },
        JwtKeyResolution::ConfigurationInvalid { reason, .. } => {
            let failure = JwtValidationFailure::new(reason);
            return JwtValidation { step: JwtValidationStep::Rejected(failure), refresh };
        },
    };
    let step = match verify_jwt_signature(&parsed, algorithm, key) {
        Err(failure) => JwtValidationStep::Rejected(failure),
        Ok(Some(request)) => JwtValidationStep::CheckSignature(
            PendingJwt { algorithm, request, payload_bytes: parsed.payload_bytes },
        ),
        Ok(None) => match judge_claims(parsed.payload_bytes.as_slice(), algorithm, jwt, wall) {
            Ok(validated) => JwtValidationStep::Validated(validated),
            Err(failure) => JwtValidationStep::Rejected(failure),
        },
    };
    JwtValidation { step, refresh }
}

/// The end of a validation that waited for the key library.
pub open spec fn finished(
    pending: PendingView,
    signature_valid: bool,
    jwt: RuntimeJwtAuth,
    wall: WallTime,
) -> StepView {
    if signature_valid {
        claims_step(pending.payload_bytes, pending.algorithm, jwt, wall)
    } else {
        StepView::Rejected(JwtValidationFailureReason::SignatureInvalid)
    }
}

/// Ends a validation with the key library's verdict on the signature.
pub fn finish_jwt_validation(
    pending: &PendingJwt,
    signature_valid: bool,
    jwt: &RuntimeJwtAuth,
    wall: WallTime,
) -> (r: Result<ValidatedJwt, JwtValidationFailure>)
    ensures
        match r {
            Ok(validated) => finished(pending@, signature_valid, *jwt, wall)
                == (StepView::Validated {
                algorithm: validated.algorithm,
                claims: validated.claims@,
            }),
            Err(failure) => finished(pending@, signature_valid, *jwt, wall)
                == StepView::Rejected(failure.reason),
        },
{
    if !signature_valid {
        return Err(JwtValidationFailure::new(JwtValidationFailureReason::SignatureInvalid));
    }
    judge_claims(pending.payload_bytes.as_slice(), pending.algorithm, jwt, wall)
}

/// The claims of a valid token that is signed with a shared secret.
pub fn validated_hs256_jwt_claims(
    token: &str,
    jwt: &RuntimeJwtAuth,
    cache: &mut JwtJwksSharedCache,
    now: Nanos,
    wall: WallTime,
) -> (r: Option<JsonDocument>)
    requires
        old(cache).wf(),
        now + 30 * SECOND <= Nanos::MAX,
    ensures
        final(cache).wf(),
        final(cache)@ == validation(token@, *jwt, old(cache)@, now, wall).cache,
        (match r {
            Some(claims) => Some(claims@),
            None => None,
        }) == match validation(token@, *jwt, old(cache)@, now, wall).step {
            StepView::Validated { algorithm, claims } if algorithm == JwtAlgorithm::Hs256 => Some(
                claims,
            ),
            _ => None,
        },
{
    match validate_jwt_token(token, jwt, cache, now, wall).step {
        JwtValidationStep::Validated(validated) => match validated.algorithm {
            JwtAlgorithm::Hs256 => Some(validated.claims),
            _ => None,
        },
        _ => None,
    }
}

/// The header of a token, where it can be read.
pub open spec fn readable_header(token: Seq<char>) -> Option<HeaderView> {
    match compact_parts(token) {
        Err(_) => None,
        Ok(parsed) => match jose_header(parsed.header_bytes) {
            Err(_) => None,
            Ok(header) => Some(header),
        },
    }
}

fn read_header(token: &str) -> (r: Option<ParsedJoseHeader>)
    ensures
        (match r {
            Some(header) => Some(header@),
            None => None,
        }) == readable_header(token@),
{
    match parse_compact_jwt(token) {
        Err(_) => None,
        Ok(parsed) => match parse_jose_header(parsed.header_bytes.as_slice()) {
            Err(_) => None,
            Ok(header) => Some(header),
        },
    }
}

/// The name of a header's algorithm, `unknown` where there is no readable one.
pub open spec fn header_algorithm(header: Option<HeaderView>) -> Seq<char> {
    match header {
        Some(header) => algorithm_label(header.algorithm),
        None => "unknown"@,
    }
}

fn algorithm_text(header: &Option<ParsedJoseHeader>) -> (r: &'static str)
    ensures
        r@ == header_algorithm(
            match header {
                Some(header) => Some(header@),
                None => None,
            },
        ),
{
    match header {
        Some(header) => jwt_algorithm_name(header.algorithm),
        None => "unknown",
    }
}

/// What is counted of a refused token: the reason, the algorithm where the algorithm is the reason,
/// and the source whose keys lack the token's key id.
#[derive(Debug)]
pub struct JwtFailureObservation {
    pub failure: JwtValidationFailure,
    pub reason: &'static str,
    pub rejected_algorithm: Option<&'static str>,
    pub unknown_kid_source: Option<String>,
}

pub struct ObservationView {
    pub failure: JwtValidationFailure,
    pub reason: Seq<char>,
    pub rejected_algorithm: Option<Seq<char>>,
    pub unknown_kid_source: Option<Seq<char>>,
}

impl View for JwtFailureObservation {
    type V = ObservationView;

    open spec fn view(&self) -> ObservationView {
        ObservationView {
            failure: self.failure,
            reason: self.reason@,
            rejected_algorithm: match self.rejected_algorithm {
                Some(name) => Some(name@),
                None => None,
            },
            unknown_kid_source: opt(self.unknown_kid_source),
        }
    }
}

/// The algorithm is why a token is refused.
pub open spec fn blames_algorithm(reason: JwtValidationFailureReason) -> bool {
    reason == JwtValidationFailureReason::AlgorithmNotAllowed || reason
        == JwtValidationFailureReason::UnsupportedAlgorithm || reason
        == JwtValidationFailureReason::MissingAlgorithm
}

pub open spec fn failure_observation(
    jwt: RuntimeJwtAuth,
    header: Option<HeaderView>,
    reason: JwtValidationFailureReason,
) -> ObservationView {
    ObservationView {
        failure: JwtValidationFailure { reason },
        reason: reason.label(),
        rejected_algorithm: if blames_algorithm(reason) {
            Some(header_algorithm(header))
        } else {
            None
        },
        unknown_kid_source: match (source_of(jwt), header) {
            (Some(source), Some(header)) if reason
                == JwtValidationFailureReason::MissingVerificationKey && header.kid is Some => Some(
                source.source_identity,
            ),
            _ => None,
        },
    }
}

pub fn observe_jwt_validation_failure(
    jwt: &RuntimeJwtAuth,
    token: &str,
    failure: &JwtValidationFailure,
) -> (r: JwtFailureObservation)
    ensures
        r@ == failure_observation(*jwt, readable_header(token@), failure.reason),
{
    let header = read_header(token);
    let rejected_algorithm = match failure.reason {
        JwtValidationFailureReason::AlgorithmNotAllowed
        | JwtValidationFailureReason::UnsupportedAlgorithm
        | JwtValidationFailureReason::MissingAlgorithm => Some(algorithm_text(&header)),
        _ => None,
    };
    let has_kid = match &header {
        Some(header) => header.kid.is_some(),
        None => false,
    };
    let unknown_kid_source = if failure.reason
        == JwtValidationFailureReason::MissingVerificationKey && has_kid {
        match JwtJwksSourceConfig::from_jwt(jwt) {
            Some(source) => Some(source.source_identity),
            None => None,
        }
    } else {
        None
    };
    JwtFailureObservation {
        failure: *failure,
        reason: failure.reason.as_str(),
        rejected_algorithm,
        unknown_kid_source,
    }
}

/// What is noted of a key source when a token is refused.
#[derive(Debug)]
pub struct SourceNote {
    pub source_identity: String,
    pub endpoint: String,
    pub state: &'static str,
    pub failure_reason: &'static str,
    pub stale_window_expired: bool,
}

pub struct SourceNoteView {
    pub source_identity: Seq<char>,
    pub endpoint: Seq<char>,
    pub state: Seq<char>,
    pub failure_reason: Seq<char>,
    pub stale_window_expired: bool,
}

/// What is noted of a refused token.
#[derive(Debug)]
pub struct RejectionNote {
    pub reason: &'static str,
    pub algorithm: &'static str,
    pub kid: String,
    pub source: Option<SourceNote>,
}

pub struct RejectionView {
    pub reason: Seq<char>,
    pub algorithm: Seq<char>,
    pub kid: Seq<char>,
    pub source: Option<SourceNoteView>,
}

impl View for SourceNote {
    type V = SourceNoteView;

    open spec fn view(&self) -> SourceNoteView {
        SourceNoteView {
            source_identity: self.source_identity@,
            endpoint: self.endpoint@,
            state: self.state@,
            failure_reason: self.failure_reason@,
            stale_window_expired: self.stale_window_expired,
        }
    }
}

impl View for RejectionNote {
    type V = RejectionView;

    open spec fn view(&self) -> RejectionView {
        RejectionView {
            reason: self.reason@,
            algorithm: self.algorithm@,
            kid: self.kid@,
            source: match self.source {
                Some(source) => Some(source@),
                None => None,
            },
        }
    }
}

pub open spec fn source_note(source: SourceView, known: Option<SnapshotView>) -> SourceNoteView {
    SourceNoteView {
        source_identity: source.source_identity,
        endpoint: endpoint_of(source.jwks_url),
        state: match known {
            Some(entry) => state_label(entry.state),
            None => "missing"@,
        },
        failure_reason: match known {
            Some(entry) => match entry.last_failure_reason {
                Some(reason) => reason.label(),
                None => "none"@,
            },
            None => "none"@,
        },
        stale_window_expired: match known {
            Some(entry) => entry.state == JwtJwksCacheState::EmptyUnusable && entry.last_success_at
                is Some,
            None => false,
        },
    }
}

pub open spec fn rejection_note(
    jwt: RuntimeJwtAuth,
    header: Option<HeaderView>,
    reason: JwtValidationFailureReason,
    cache: Map<Seq<char>, EntryView>,
    now: Nanos,
) -> RejectionView {
    RejectionView {
        reason: reason.label(),
        algorithm: header_algorithm(header),
        kid: match header {
            Some(header) => match header.kid {
                Some(kid) => kid,
                None => "none"@,
            },
            None => "none"@,
        },
        source: match source_of(jwt) {
            Some(source) => Some(
                source_note(source, snapshot_in(cache, source.source_identity, now)),
            ),
            None => None,
        },
    }
}

/// Gathers what is noted of a refused token. The source's address is noted without its query.
pub fn log_jwt_validation_rejection(
    jwt: &RuntimeJwtAuth,
    token: &str,
    failure: &JwtValidationFailure,
    cache: &JwtJwksSharedCache,
    now: Nanos,
) -> (r: RejectionNote)
    requires
        cache.wf(),
    ensures
        r@ == rejection_note(*jwt, readable_header(token@), failure.reason, cache@, now),
{
    let header = read_header(token);
    let algorithm = algorithm_text(&header);
    let kid = match header {
        Some(header) => match header.kid {
            Some(kid) => kid,
            None => owned("none"),
        },
        None => owned("none"),
    };
    let source = match JwtJwksSourceConfig::from_jwt(jwt) {
        None => None,
        Some(source) => {
            let endpoint = source.public_endpoint();
            match cache.snapshot(source.source_identity.as_str(), now) {
                None => Some(
                    SourceNote {
                        source_identity: source.source_identity,
                        endpoint,
                        state: "missing",
                        failure_reason: "none",
                        stale_window_expired: false,
                    },
                ),
                Some(entry) => Some(
                    SourceNote {
                        source_identity: source.source_identity,
                        endpoint,
                        state: jwt_jwks_cache_state_name(entry.state),
                        failure_reason: match entry.last_failure_reason {
                            Some(reason) => reason.as_str(),
                            None => "none",
                        },
                        stale_window_expired: jwt_jwks_cache_stale_window_expired(&entry),
                    },
                ),
            }
        },
    };
    RejectionNote { reason: failure.reason.as_str(), algorithm, kid, source }
}

} // verus!
