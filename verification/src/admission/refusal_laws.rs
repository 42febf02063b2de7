//! What a request that is not let in is told, whatever refuses it.
use crate::admission::jwt::JwtValidationFailureReason;
use crate::admission::policy::{
    brownout_decision, pre_admission_step, queue_reason, rate_limit_decision, response_to, shed,
    AdmissionPolicyDecision, AuthChallengeKind, DecisionView, OverloadDecisionReason, OverloadView,
    PreAdmissionEvent, PreAdmissionView, RouteQueueRejection,
};
use crate::admission::post_auth::{
    post_auth_execution, post_auth_quota, post_auth_step, ActionView, ExecutionView,
    PostAuthContext, PostAuthEvent, PostAuthObservations, RejectionView, RouteOutcome,
    UpstreamPermit,
};
use crate::admission::quota::{quota_rejection, QuotaDecision, QuotaDenyReason};
use crate::status::StatusCode;
use vstd::prelude::*;

verus! {

/// An answer has the status and the text of the decision that it answers, names the kind of
/// credentials that are asked for, and tells a client to wait as long as the decision says, or a
/// second where it says nothing.
pub proof fn law_the_answer_says_what_was_decided(decision: DecisionView)
    requires
        decision != DecisionView::AdmitReady,
    ensures
        response_to(decision) matches Some(response) && match decision {
            DecisionView::AdmitReady => false,
            DecisionView::Unauthorized { challenge, status, body } => {
                &&& response.status == status && response.body == body
                &&& response.www_authenticate == Some(
                    if challenge == AuthChallengeKind::ApiKey {
                        "ApiKey"@
                    } else {
                        "Bearer"@
                    },
                )
                &&& response.retry_after_seconds is None
            },
            DecisionView::RateLimited { status, body, retry_after_seconds, .. } => {
                &&& response.status == status && response.body == body
                &&& response.www_authenticate is None
                &&& retry_after_seconds >= 1 ==> response.retry_after_seconds == Some(
                    retry_after_seconds,
                )
                &&& retry_after_seconds == 0 ==> response.retry_after_seconds == Some(1u32)
            },
            DecisionView::Overloaded(overload) => {
                &&& response.status == overload.status && response.body == overload.body
                &&& response.www_authenticate is None
                &&& overload.retry_after_seconds >= 1 ==> response.retry_after_seconds == Some(
                    overload.retry_after_seconds,
                )
                &&& overload.retry_after_seconds == 0 ==> response.retry_after_seconds == Some(1u32)
            },
        },
{
}

/// What is shed says why, is unavailable for now, and may come back after the configured time, or
/// after a second where none is configured.
pub open spec fn is_shed(overload: OverloadView, reason: OverloadDecisionReason, wait: u32) -> bool {
    &&& overload.reason == reason
    &&& overload.status == StatusCode::ServiceUnavailable
    &&& overload.retry_after_seconds == if wait >= 1 {
        wait
    } else {
        1
    }
    &&& overload.body == match reason {
        OverloadDecisionReason::Brownout => "brownout active, non-core route shed\n"@,
        OverloadDecisionReason::AdaptiveAdmission => "adaptive admission overload\n"@,
        OverloadDecisionReason::RouteCap => "route queue cap exceeded\n"@,
        OverloadDecisionReason::RouteGlobalCap => "global queue cap exceeded\n"@,
        OverloadDecisionReason::GlobalInflight => "overloaded, retry later\n"@,
        OverloadDecisionReason::UpstreamInflight => "upstream overloaded, retry later\n"@,
    }
}

/// During a brownout exactly the routes that are not allowed are shed; and a request that every
/// limit allows is let in, while one that a limit denies is told which limit of which route it was
/// and when to come back.
pub proof fn law_limits_refuse_what_they_deny(
    route: Seq<char>,
    allowed: bool,
    wait: u32,
    limits: Option<QuotaDecision>,
)
    ensures
        allowed ==> brownout_decision(allowed, wait) == DecisionView::AdmitReady,
        !allowed ==> (brownout_decision(allowed, wait) matches DecisionView::Overloaded(overload)
            && is_shed(overload, OverloadDecisionReason::Brownout, wait)),
        match limits {
            Some(QuotaDecision::Denied(denial)) => rate_limit_decision(route, limits) matches
                DecisionView::RateLimited {
                rule_name,
                route: limited,
                status,
                body,
                retry_after_seconds,
            } && {
                &&& body == "request rate limited\n"@
                &&& rule_name == denial.policy_name@
                &&& limited == route
                &&& status == StatusCode::TooManyRequests
                &&& retry_after_seconds == match denial.retry_after_seconds {
                    Some(seconds) if seconds >= 1 => seconds,
                    _ => 1u32,
                }
            },
            _ => rate_limit_decision(route, limits) == DecisionView::AdmitReady,
        },
{
}

/// A request is let in before its upstream is looked at exactly where its credentials, the brownout
/// and the rate limits all let it; what any of them decides otherwise is decided.
pub proof fn law_each_early_refusal_is_final(
    auth: AdmissionPolicyDecision,
    allowed: bool,
    limits: Option<QuotaDecision>,
    route: Seq<char>,
    wait: u32,
)
    ensures
        auth@ == DecisionView::AdmitReady ==> pre_admission_step(
            PreAdmissionEvent::LocalAuth(auth),
            route,
            wait,
        ) == PreAdmissionView::ObserveBrownout,
        auth@ != DecisionView::AdmitReady ==> pre_admission_step(
            PreAdmissionEvent::LocalAuth(auth),
            route,
            wait,
        ) == PreAdmissionView::Decide(auth@),
        allowed ==> pre_admission_step(
            PreAdmissionEvent::Brownout { route_allowed: allowed },
            route,
            wait,
        ) == PreAdmissionView::EvaluateRateLimit,
        !allowed ==> (pre_admission_step(
            PreAdmissionEvent::Brownout { route_allowed: allowed },
            route,
            wait,
        ) matches PreAdmissionView::Decide(DecisionView::Overloaded(overload)) && is_shed(
            overload,
            OverloadDecisionReason::Brownout,
            wait,
        )),
        (limits matches Some(QuotaDecision::Denied(denial))) <==> (pre_admission_step(
            PreAdmissionEvent::RateLimit(limits),
            route,
            wait,
        ) matches PreAdmissionView::Decide(decision) && decision is RateLimited),
        !(limits matches Some(QuotaDecision::Denied(denial))) ==> pre_admission_step(
            PreAdmissionEvent::RateLimit(limits),
            route,
            wait,
        ) == PreAdmissionView::Decide(DecisionView::AdmitReady),
{
}

/// A quota's refusal names the policy and the reason, and passes on when to come back; a quota that
/// failed names none where none is known, and does not say when. In shadow mode nothing is refused.
pub proof fn law_a_quota_says_whose_it_is(decision: QuotaDecision)
    ensures
        match decision {
            QuotaDecision::Denied(denial) => post_auth_quota(Some(decision)) matches Some(refusal)
                && {
                &&& refusal.policy_name == denial.policy_name@
                &&& refusal.reason == denial.reason
                &&& refusal.status == StatusCode::TooManyRequests
                &&& denial.retry_after_seconds is None ==> refusal.retry_after_seconds is None
                &&& denial.retry_after_seconds matches Some(seconds)
                    ==> refusal.retry_after_seconds == Some(
                    if seconds >= 1 {
                        seconds
                    } else {
                        1
                    },
                )
            },
            QuotaDecision::FailedClosed(failure) => post_auth_quota(Some(decision)) matches Some(
                refusal,
            ) && {
                &&& failure.policy_name matches Some(name) ==> refusal.policy_name == name@
                &&& failure.policy_name is None ==> refusal.policy_name == "unknown"@
                &&& refusal.reason == failure.reason
                &&& refusal.status == StatusCode::ServiceUnavailable
                &&& refusal.retry_after_seconds is None
            },
            _ => post_auth_quota(Some(decision)) is None,
        },
        post_auth_quota(None) is None,
        quota_rejection(decision) is Some <==> decision is Denied || decision is ShadowDenied
            || decision is FailedClosed,
        quota_rejection(decision) matches Some(refusal) ==> refusal.body == match refusal.reason {
            QuotaDenyReason::BurstQuotaExhausted => "burst quota exhausted\n"@,
            QuotaDenyReason::SustainedQuotaExhausted => "sustained quota exhausted\n"@,
            QuotaDenyReason::SelectorIdentityMissing => "quota selector identity missing\n"@,
            QuotaDenyReason::SelectorIdentityInvalid => "quota selector identity invalid\n"@,
            QuotaDenyReason::BackendTimeout => "quota backend timed out\n"@,
            QuotaDenyReason::BackendUnavailable => "quota backend unavailable\n"@,
            QuotaDenyReason::BackendError => "quota backend error\n"@,
        },
{
}

/// A request that its quotas leave alone is refused for the first thing that it lacks, in the order
/// of the adaptive permit, the route's queue, the global permit, the upstream's permit, the
/// upstream itself and a healthy backend.
pub proof fn law_the_first_thing_lacking_refuses(
    observed: PostAuthObservations,
    context: PostAuthContext,
)
    requires
        !(observed.quota matches Some(QuotaDecision::Denied(denial))),
        !(observed.quota matches Some(QuotaDecision::FailedClosed(failure))),
    ensures
        ({
            let wait = context.shed_retry_after_seconds;
            let outcome = post_auth_execution(observed, context);
            let shed_for = |reason: OverloadDecisionReason|
                outcome matches ExecutionView::Rejected(RejectionView::Overloaded(overload))
                    && is_shed(overload, reason, wait);
            let queued = observed.adaptive_permit && observed.route_queue is Ok;
            let running = queued && observed.global_permit;
            let placed = running && observed.upstream_permit == UpstreamPermit::Acquired;
            &&& !observed.adaptive_permit ==> shed_for(OverloadDecisionReason::AdaptiveAdmission)
            &&& observed.adaptive_permit && observed.route_queue == Err::<(), RouteQueueRejection>(
                RouteQueueRejection::GlobalCap,
            ) ==> shed_for(OverloadDecisionReason::RouteGlobalCap)
            &&& observed.adaptive_permit && observed.route_queue == Err::<(), RouteQueueRejection>(
                RouteQueueRejection::RouteCap,
            ) ==> shed_for(OverloadDecisionReason::RouteCap)
            &&& queued && !observed.global_permit ==> shed_for(
                OverloadDecisionReason::GlobalInflight,
            )
            &&& running && observed.upstream_permit == UpstreamPermit::Exhausted ==> shed_for(
                OverloadDecisionReason::UpstreamInflight,
            )
            &&& running && observed.upstream_permit == UpstreamPermit::MissingLimiter ==> (
            outcome matches ExecutionView::Rejected(RejectionView::Failed(failure))
                && failure.status == StatusCode::ServiceUnavailable && failure.body
                == "upstream admission limiter unavailable\n"@ && failure.overload_reason
                == Some(OverloadDecisionReason::UpstreamInflight) && failure.route_outcome == Some(
                RouteOutcome::OverloadShed,
            ) && failure.observe_adaptive_overload)
            &&& placed && !observed.upstream_pool ==> (outcome matches ExecutionView::Rejected(
                RejectionView::Failed(failure),
            ) && failure.status == StatusCode::InternalServerError && failure.body
                == "missing upstream pool\n"@ && failure.overload_reason is None
                && failure.route_outcome is None && !failure.observe_adaptive_overload)
            &&& placed && observed.upstream_pool && !observed.backend_healthy ==> (outcome matches
            ExecutionView::Rejected(RejectionView::Failed(failure)) && failure.status
                == StatusCode::ServiceUnavailable && failure.body
                == "selected backend no longer healthy\n"@ && failure.overload_reason is None
                && failure.route_outcome == Some(RouteOutcome::Failure)
                && !failure.observe_adaptive_overload)
            &&& placed && observed.upstream_pool && observed.backend_healthy ==> (outcome matches
            ExecutionView::Ready(ready) && ready.backend_index == match context.backend_index {
                Some(index) => index,
                None => context.pending_backend_index,
            })
        }),
{
}

/// Each permit that is had leads to the next thing that is asked for, and the end is reached only
/// through the last of them or through a refusal.
pub proof fn law_permits_are_asked_for_in_order(event: PostAuthEvent, context: PostAuthContext)
    ensures
        match event {
            PostAuthEvent::Quota(decision) => post_auth_quota(decision) is None
                ==> post_auth_step(event, context) == ActionView::AcquireAdaptivePermit,
            PostAuthEvent::AdaptivePermit { acquired } => acquired ==> post_auth_step(event, context)
                == ActionView::EnterRouteQueue,
            PostAuthEvent::RouteQueue(entered) => entered is Ok ==> post_auth_step(event, context)
                == ActionView::AcquireGlobalPermit,
            PostAuthEvent::GlobalPermit { acquired } => acquired ==> post_auth_step(event, context)
                == ActionView::AcquireUpstreamPermit,
            PostAuthEvent::UpstreamPermit(permit) => permit == UpstreamPermit::Acquired
                ==> post_auth_step(event, context) == ActionView::FindUpstreamPool,
            PostAuthEvent::UpstreamPool { found } => found ==> (post_auth_step(event, context)
                matches ActionView::CheckBackendHealth { backend_index } && backend_index
                == match context.backend_index {
                Some(index) => index,
                None => context.pending_backend_index,
            }),
            PostAuthEvent::BackendHealth { healthy } => healthy <==> (post_auth_step(event, context)
                matches ActionView::Finish(ExecutionView::Ready(ready))),
        },
        post_auth_step(event, context) matches ActionView::Finish(ExecutionView::Ready(ready))
            ==> event is BackendHealth,
        post_auth_step(event, context) matches ActionView::Finish(
            ExecutionView::Rejected(RejectionView::Overloaded(overload)),
        ) ==> is_shed(overload, overload.reason, context.shed_retry_after_seconds),
{
}

/// A reason for a rejection goes by a label that no other reason has.
pub proof fn law_reasons_have_labels_of_their_own(
    a: JwtValidationFailureReason,
    b: JwtValidationFailureReason,
)
    requires
        a.label() == b.label(),
    ensures
        a == b,
{
    reveal_strlit("malformed_token");
    reveal_strlit("malformed_header");
    reveal_strlit("malformed_claims");
    reveal_strlit("missing_algorithm");
    reveal_strlit("algorithm_not_allowed");
    reveal_strlit("unsupported_algorithm");
    reveal_strlit("missing_kid");
    reveal_strlit("missing_verification_key");
    reveal_strlit("ambiguous_verification_key");
    reveal_strlit("key_source_unavailable");
    reveal_strlit("pem_key_parse_failed");
    reveal_strlit("jwk_key_parse_failed");
    reveal_strlit("invalid_key_type");
    reveal_strlit("unsupported_curve");
    reveal_strlit("key_too_weak");
    reveal_strlit("signature_invalid");
    reveal_strlit("missing_expiration");
    reveal_strlit("token_expired");
    reveal_strlit("token_not_yet_valid");
    reveal_strlit("token_issued_in_future");
    reveal_strlit("issuer_mismatch");
    reveal_strlit("audience_mismatch");
    assert("malformed_token"@.len() == 15
        && "malformed_header"@.len() == 16
        && "malformed_claims"@.len() == 16
        && "missing_algorithm"@.len() == 17
        && "algorithm_not_allowed"@.len() == 21
        && "unsupported_algorithm"@.len() == 21
        && "missing_kid"@.len() == 11
        && "missing_verification_key"@.len() == 24
        && "ambiguous_verification_key"@.len() == 26
        && "key_source_unavailable"@.len() == 22
        && "pem_key_parse_failed"@.len() == 20
        && "jwk_key_parse_failed"@.len() == 20
        && "invalid_key_type"@.len() == 16
        && "unsupported_curve"@.len() == 17
        && "key_too_weak"@.len() == 12
        && "signature_invalid"@.len() == 17
        && "missing_expiration"@.len() == 18
        && "token_expired"@.len() == 13
        && "token_not_yet_valid"@.len() == 19
        && "token_issued_in_future"@.len() == 22
        && "issuer_mismatch"@.len() == 15
        && "audience_mismatch"@.len() == 17);
    assert("malformed_token"@[0] == 'm'
        && "issuer_mismatch"@[0] == 'i'
        && "malformed_header"@[10] == 'h'
        && "malformed_claims"@[10] == 'c'
        && "invalid_key_type"@[10] == 'y'
        && "missing_algorithm"@[0] == 'm'
        && "unsupported_curve"@[0] == 'u'
        && "signature_invalid"@[0] == 's'
        && "audience_mismatch"@[0] == 'a'
        && "algorithm_not_allowed"@[0] == 'a'
        && "unsupported_algorithm"@[0] == 'u'
        && "key_source_unavailable"@[0] == 'k'
        && "token_issued_in_future"@[0] == 't'
        && "pem_key_parse_failed"@[0] == 'p'
        && "jwk_key_parse_failed"@[0] == 'j');
}

/// What is shed is counted under the limit that shed it.
pub proof fn law_what_is_shed_is_counted_by_its_limit(reason: OverloadDecisionReason, wait: u32)
    ensures
        reason.shed_reason().label() == match reason {
            OverloadDecisionReason::Brownout => "brownout"@,
            OverloadDecisionReason::AdaptiveAdmission => "adaptive_admission"@,
            OverloadDecisionReason::RouteCap => "route_cap"@,
            OverloadDecisionReason::RouteGlobalCap => "route_global_cap"@,
            OverloadDecisionReason::GlobalInflight => "global_inflight"@,
            OverloadDecisionReason::UpstreamInflight => "upstream_inflight"@,
        },
        is_shed(shed(reason, wait), reason, wait),
        queue_reason(RouteQueueRejection::GlobalCap) == OverloadDecisionReason::RouteGlobalCap,
        queue_reason(RouteQueueRejection::RouteCap) == OverloadDecisionReason::RouteCap,
{
}

/// A status tells on the wire whether the request was served, was the client's fault or the
/// server's, and has a code that no other status has.
pub proof fn law_statuses_have_codes_of_their_own(a: StatusCode, b: StatusCode)
    ensures
        a.code() == b.code() ==> a == b,
        200 <= a.code() < 300 <==> a == StatusCode::Success || a == StatusCode::Accepted,
        500 <= a.code() < 600 <==> a == StatusCode::InternalServerError || a
            == StatusCode::ServiceUnavailable,
        400 <= a.code() < 500 <==> a == StatusCode::BadRequest || a == StatusCode::Unauthorized
            || a == StatusCode::Forbidden || a == StatusCode::NotFound || a == StatusCode::Conflict
            || a == StatusCode::PayloadTooLarge || a == StatusCode::TooManyRequests,
        StatusCode::Unauthorized.code() == 401 && StatusCode::Forbidden.code() == 403
            && StatusCode::NotFound.code() == 404 && StatusCode::Conflict.code() == 409
            && StatusCode::PayloadTooLarge.code() == 413 && StatusCode::TooManyRequests.code()
            == 429 && StatusCode::ServiceUnavailable.code() == 503 && StatusCode::Accepted.code()
            == 202 && StatusCode::Success.code() == 200 && StatusCode::BadRequest.code() == 400
            && StatusCode::InternalServerError.code() == 500,
{
}

} // verus!
