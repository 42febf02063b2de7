//! What holds of every admitted and every refused request.
use crate::admission::jwks_cache::EntryView;
use crate::admission::jwt::{
    algorithm_label, compact_parts, jose_header, signature_check, signing_input, JwtValidationFailureReason,
    RequestView,
};
use crate::admission::jwt_claims::{claims_objection, rbac_satisfied};
use crate::admission::jwt_validation::{
    finished, resolved_key, validation, PendingView, StepView,
};
use crate::admission::key_resolution::{
    algorithm_named, key_verdict, matching_key, selected, selects, typed_key, KeySourceView,
    KeyView, PublicKeyType,
};
use crate::admission::key_resolver::lookup;
use crate::admission::policy::{
    pre_admission_step, response_to, shed, AdmissionPolicyDecision, DecisionView,
    OverloadDecisionReason, PreAdmissionEvent, PreAdmissionView,
};
use crate::admission::post_auth::{
    post_auth_execution, post_auth_quota, ExecutionView, PostAuthContext, PostAuthObservations,
    RejectionView, UpstreamPermit,
};
use crate::admission::quota::QuotaDecision;
use crate::config::{
    JwtAlgorithm, Nanos, RuntimeAuthPolicy, RuntimeJwtAuth, RuntimeJwtVerificationKey, WallTime,
};
use crate::crypto::hmac_sha256_tag;
use crate::json::{json_document, JsonView};
use crate::status::StatusCode;
use vstd::prelude::*;

verus! {

/// A token that is accepted at once has an allowed algorithm and carries the tag of the shared
/// secret over its header and payload, and its claims are in order.
pub proof fn law_accepted_token_is_signed(
    token: Seq<char>,
    jwt: RuntimeJwtAuth,
    cache: Map<Seq<char>, EntryView>,
    now: Nanos,
    wall: WallTime,
)
    requires
        validation(token, jwt, cache, now, wall).step is Validated,
    ensures
        validation(token, jwt, cache, now, wall).step matches StepView::Validated {
            algorithm,
            claims,
        } && {
            &&& algorithm == JwtAlgorithm::Hs256
            &&& jwt.allowed_algorithms@.contains(algorithm)
            &&& jwt.secret@.len() > 0
            &&& claims_objection(jwt, claims, wall) is None
            &&& compact_parts(token) matches Ok(parsed) && json_document(parsed.payload_bytes)
                == Ok::<JsonView, Seq<char>>(claims) && parsed.signature == hmac_sha256_tag(
                vstd::utf8::encode_utf8(jwt.secret@),
                signing_input(parsed),
            )
        },
{
    let parsed = compact_parts(token)->Ok_0;
    let header = jose_header(parsed.header_bytes)->Ok_0;
    if header.algorithm != JwtAlgorithm::Hs256 {
        let found = lookup(jwt, header.algorithm, header.kid, cache, now, wall);
        let key = resolved_key(found.resolution)->Ok_0;
        assert(signature_check(parsed, header.algorithm, key) != Ok::<
            Option<RequestView>,
            JwtValidationFailureReason,
        >(None));
    }
}

/// The key library is asked about a token only where the policy allows its algorithm, and then with
/// the algorithm that the token names, over the token's own header, payload and signature.
pub proof fn law_signature_request_is_for_the_token(
    token: Seq<char>,
    jwt: RuntimeJwtAuth,
    cache: Map<Seq<char>, EntryView>,
    now: Nanos,
    wall: WallTime,
)
    requires
        validation(token, jwt, cache, now, wall).step is CheckSignature,
    ensures
        validation(token, jwt, cache, now, wall).step matches StepView::CheckSignature(pending) && {
            &&& jwt.allowed_algorithms@.contains(pending.algorithm)
            &&& compact_parts(token) matches Ok(parsed) && {
                &&& pending.payload_bytes == parsed.payload_bytes
                &&& match pending.request {
                    RequestView::Rs256 { message, signature, .. } => pending.algorithm
                        == JwtAlgorithm::Rs256 && message == signing_input(parsed) && signature
                        == parsed.signature,
                    RequestView::Es256 { digest, der_signature, .. } => pending.algorithm
                        == JwtAlgorithm::Es256 && digest == crate::crypto::sha256_digest(
                        signing_input(parsed),
                    ) && der_signature == crate::admission::jwt::der_signature(parsed.signature),
                }
            }
        },
{
}

/// A token is never accepted against the key library's verdict, nor with claims that are not in
/// order.
pub proof fn law_finished_token_is_in_order(
    pending: PendingView,
    signature_valid: bool,
    jwt: RuntimeJwtAuth,
    wall: WallTime,
)
    requires
        finished(pending, signature_valid, jwt, wall) is Validated,
    ensures
        signature_valid,
        finished(pending, signature_valid, jwt, wall) matches StepView::Validated {
            algorithm,
            claims,
        } && algorithm == pending.algorithm && claims_objection(jwt, claims, wall) is None
            && json_document(pending.payload_bytes) == Ok::<JsonView, Seq<char>>(claims),
{
}

/// A key that a set is searched for verifies the algorithm asked for: it passed every check for it,
/// its key id is the one asked for, and no other key of the set fits.
pub proof fn law_found_key_fits_algorithm(
    keys: Seq<RuntimeJwtVerificationKey>,
    algorithm: JwtAlgorithm,
    kid: Option<Seq<char>>,
    source: KeySourceView,
    state: crate::admission::jwks_cache::JwtJwksCacheState,
)
    requires
        resolved_key(matching_key(keys, algorithm, kid, source, state)) is Ok,
    ensures
        selected(keys, algorithm, kid).len() == 1,
        ({
            let key = selected(keys, algorithm, kid)[0];
            &&& keys.contains(key)
            &&& selects(key, algorithm, kid)
            &&& key_verdict(key, algorithm) matches Ok(kind) && resolved_key(
                matching_key(keys, algorithm, kid, source, state),
            ) == Ok::<KeyView, JwtValidationFailureReason>(typed_key(key, kind)) && match algorithm {
                JwtAlgorithm::Rs256 => kind == PublicKeyType::Rsa,
                JwtAlgorithm::Es256 => kind == PublicKeyType::EcP256,
                JwtAlgorithm::Hs256 => false,
            }
        }),
{
    lemma_selected(keys, algorithm, kid, 0);
}

proof fn lemma_selected(
    keys: Seq<RuntimeJwtVerificationKey>,
    algorithm: JwtAlgorithm,
    kid: Option<Seq<char>>,
    i: int,
)
    requires
        0 <= i < selected(keys, algorithm, kid).len(),
    ensures
        keys.contains(selected(keys, algorithm, kid)[i]),
        selects(selected(keys, algorithm, kid)[i], algorithm, kid),
    decreases keys.len(),
{
    let before = selected(keys.drop_last(), algorithm, kid);
    if i < before.len() {
        lemma_selected(keys.drop_last(), algorithm, kid, i);
        let k = choose|k: int|
            0 <= k < keys.drop_last().len() && keys.drop_last()[k] == before[i];
        assert(keys[k] == before[i]);
    } else {
        assert(keys[keys.len() - 1] == keys.last());
    }
}

/// An algorithm is known by its own name and by no other.
pub proof fn law_algorithms_are_known_by_name(name: Seq<char>, algorithm: JwtAlgorithm)
    ensures
        algorithm_named(name) == Some(algorithm) <==> name == algorithm_label(algorithm),
{
    reveal_strlit("HS256");
    reveal_strlit("RS256");
    reveal_strlit("ES256");
    assert("HS256"@[0] == 'H' && "RS256"@[0] == 'R' && "ES256"@[0] == 'E');
}

/// A token that has expired stays expired.
pub proof fn law_expired_stays_expired(
    jwt: RuntimeJwtAuth,
    claims: JsonView,
    now: u64,
    later: u64,
)
    requires
        now <= later,
        claims_objection(jwt, claims, WallTime::SinceEpoch { secs: now }) == Some(
            JwtValidationFailureReason::TokenExpired,
        ),
    ensures
        claims_objection(jwt, claims, WallTime::SinceEpoch { secs: later }) == Some(
            JwtValidationFailureReason::TokenExpired,
        ),
{
}

/// A policy that requires no scope and no role is satisfied by any claims.
pub proof fn law_no_requirement_is_satisfied(auth: RuntimeAuthPolicy, claims: JsonView)
    requires
        auth.required_scopes@.len() == 0,
        auth.required_roles@.len() == 0,
    ensures
        rbac_satisfied(auth, claims),
{
}

/// Every decision but admission is answered; a client that is to come back is told to wait for at
/// least a second, and only a client without credentials is asked for them.
pub proof fn law_every_refusal_is_answered(decision: DecisionView)
    ensures
        response_to(decision) is None <==> decision == DecisionView::AdmitReady,
        response_to(decision) matches Some(response) ==> {
            &&& response.www_authenticate is Some <==> decision is Unauthorized
            &&& response.retry_after_seconds is Some <==> !(decision is Unauthorized)
            &&& response.retry_after_seconds matches Some(seconds) ==> seconds >= 1
        },
{
}

/// The first refusal decides: credentials before the brownout, the brownout before the rate limits.
pub proof fn law_first_refusal_decides(
    auth: AdmissionPolicyDecision,
    route_allowed: bool,
    limits: Option<QuotaDecision>,
    route: Seq<char>,
    retry: u32,
)
    ensures
        pre_admission_step(PreAdmissionEvent::LocalAuth(auth), route, retry) == if auth@
            == DecisionView::AdmitReady {
            PreAdmissionView::ObserveBrownout
        } else {
            PreAdmissionView::Decide(auth@)
        },
        pre_admission_step(PreAdmissionEvent::Brownout { route_allowed }, route, retry)
            == if route_allowed {
            PreAdmissionView::EvaluateRateLimit
        } else {
            PreAdmissionView::Decide(
                DecisionView::Overloaded(shed(OverloadDecisionReason::Brownout, retry)),
            )
        },
        pre_admission_step(PreAdmissionEvent::RateLimit(limits), route, retry) matches
            PreAdmissionView::Decide(decision) && (decision == DecisionView::AdmitReady <==> !(
        limits matches Some(QuotaDecision::Denied(_)))),
{
}

/// A quota's refusal comes before any limiter is looked at.
pub proof fn law_quota_precedes_overload(
    a: PostAuthObservations,
    b: PostAuthObservations,
    context: PostAuthContext,
)
    requires
        a.quota == b.quota,
        post_auth_quota(a.quota) is Some,
    ensures
        post_auth_execution(a, context) == post_auth_execution(b, context),
        post_auth_execution(a, context) == ExecutionView::Rejected(
            RejectionView::Quota(post_auth_quota(a.quota)->0),
        ),
{
}

/// A quota that allows, does not apply, denies in shadow mode or fails open leaves the decision to
/// the limiters.
pub proof fn law_lenient_quota_changes_nothing(
    a: PostAuthObservations,
    b: PostAuthObservations,
    context: PostAuthContext,
)
    requires
        post_auth_quota(a.quota) is None,
        post_auth_quota(b.quota) is None,
        a.adaptive_permit == b.adaptive_permit,
        a.route_queue == b.route_queue,
        a.global_permit == b.global_permit,
        a.upstream_permit == b.upstream_permit,
        a.upstream_pool == b.upstream_pool,
        a.backend_healthy == b.backend_healthy,
    ensures
        post_auth_execution(a, context) == post_auth_execution(b, context),
{
}

/// The quotas refuse exactly a denial that is enforced and a failure that is to be closed.
pub proof fn law_enforced_quotas_refuse(decision: QuotaDecision)
    ensures
        post_auth_quota(Some(decision)) is Some <==> decision is Denied || decision is FailedClosed,
        post_auth_quota(Some(decision)) matches Some(rejection) ==> rejection.status
            == if decision is Denied {
            StatusCode::TooManyRequests
        } else {
            StatusCode::ServiceUnavailable
        },
{
}

/// A request goes through exactly where nothing refuses it, and then to the backend chosen last.
pub proof fn law_ready_needs_every_permit(
    observed: PostAuthObservations,
    context: PostAuthContext,
)
    ensures
        post_auth_execution(observed, context) is Ready <==> {
            &&& post_auth_quota(observed.quota) is None
            &&& observed.adaptive_permit
            &&& observed.route_queue is Ok
            &&& observed.global_permit
            &&& observed.upstream_permit == UpstreamPermit::Acquired
            &&& observed.upstream_pool
            &&& observed.backend_healthy
        },
        post_auth_execution(observed, context) matches ExecutionView::Ready(ready)
            ==> ready.backend_index == context.backend() && !ready.waited_for_global_permit
            && !ready.waited_for_upstream_permit,
        post_auth_execution(observed, context) matches ExecutionView::Rejected(
            RejectionView::Overloaded(decision),
        ) ==> decision.status == StatusCode::ServiceUnavailable && decision.retry_after_seconds
            >= 1,
{
}

} // verus!
