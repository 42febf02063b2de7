//! The decision on a request before it is forwarded: credentials, brownout, rate limits.
use crate::admission::jwks_cache::{EntryView, JwtJwksSharedCache};
use crate::admission::jwks_source::{opt_source, JwtJwksSourceConfig, SourceView};
use crate::admission::jwt_claims::{jwt_claims_satisfy_rbac, rbac_satisfied};
use crate::admission::jwt_validation::{
    failure_observation, finish_jwt_validation, finished, observe_jwt_validation_failure,
    readable_header, validate_jwt_token, validation, JwtFailureObservation, JwtValidationStep,
    ObservationView, PendingJwt, PendingView, StepView,
};
use crate::admission::quota::QuotaDecision;
use crate::config::{Nanos, RuntimeAuthPolicy, RuntimeUpstreamPolicy, WallTime, SECOND};
use crate::crypto::constant_time_eq;
use crate::headers::{bearer_token, header_value, RequestHeaders};
use crate::listener::QUICListener;
use crate::status::StatusCode;
use crate::text::{opt_str, owned, texts, trim, trimmed};
use vstd::prelude::*;

verus! {

/// The credentials that a refused client is asked for.
#[derive(Debug, Clone, Copy, PartialEq, Eq, Structural)]
pub enum AuthChallengeKind {
    ApiKey,
    Bearer,
}

impl AuthChallengeKind {
    pub open spec fn scheme(self) -> Seq<char> {
        match self {
            AuthChallengeKind::ApiKey => "ApiKey"@,
            AuthChallengeKind::Bearer => "Bearer"@,
        }
    }

    pub fn as_www_authenticate(self) -> (r: &'static str)
        ensures
            r@ == self.scheme(),
    {
        match self {
            AuthChallengeKind::ApiKey => "ApiKey",
            AuthChallengeKind::Bearer => "Bearer",
        }
    }
}

/// Under what a shed request is counted.
#[derive(Debug, Clone, Copy, PartialEq, Eq, Structural)]
pub enum OverloadShedReason {
    Brownout,
    AdaptiveAdmission,
    RouteCap,
    RouteGlobalCap,
    GlobalInflight,
    UpstreamInflight,
}

impl OverloadShedReason {
    pub open spec fn label(self) -> Seq<char> {
        match self {
            OverloadShedReason::Brownout => "brownout"@,
            OverloadShedReason::AdaptiveAdmission => "adaptive_admission"@,
            OverloadShedReason::RouteCap => "route_cap"@,
            OverloadShedReason::RouteGlobalCap => "route_global_cap"@,
            OverloadShedReason::GlobalInflight => "global_inflight"@,
            OverloadShedReason::UpstreamInflight => "upstream_inflight"@,
        }
    }

    pub fn reason_label(self) -> (r: &'static str)
        ensures
            r@ == self.label(),
    {
        match self {
            OverloadShedReason::Brownout => "brownout",
            OverloadShedReason::AdaptiveAdmission => "adaptive_admission",
            OverloadShedReason::RouteCap => "route_cap",
            OverloadShedReason::RouteGlobalCap => "route_global_cap",
            OverloadShedReason::GlobalInflight => "global_inflight",
            OverloadShedReason::UpstreamInflight => "upstream_inflight",
        }
    }
}

/// Why a request is shed.
#[derive(Debug, Clone, Copy, PartialEq, Eq, Structural)]
pub enum OverloadDecisionReason {
    Brownout,
    AdaptiveAdmission,
    RouteCap,
    RouteGlobalCap,
    GlobalInflight,
    UpstreamInflight,
}

impl OverloadDecisionReason {
    pub open spec fn shed_reason(self) -> OverloadShedReason {
        match self {
            OverloadDecisionReason::Brownout => OverloadShedReason::Brownout,
            OverloadDecisionReason::AdaptiveAdmission => OverloadShedReason::AdaptiveAdmission,
            OverloadDecisionReason::RouteCap => OverloadShedReason::RouteCap,
            OverloadDecisionReason::RouteGlobalCap => OverloadShedReason::RouteGlobalCap,
            OverloadDecisionReason::GlobalInflight => OverloadShedReason::GlobalInflight,
            OverloadDecisionReason::UpstreamInflight => OverloadShedReason::UpstreamInflight,
        }
    }

    pub fn metrics_reason(self) -> (r: OverloadShedReason)
        ensures
            r == self.shed_reason(),
    {
        match self {
            OverloadDecisionReason::Brownout => OverloadShedReason::Brownout,
            OverloadDecisionReason::AdaptiveAdmission => OverloadShedReason::AdaptiveAdmission,
            OverloadDecisionReason::RouteCap => OverloadShedReason::RouteCap,
            OverloadDecisionReason::RouteGlobalCap => OverloadShedReason::RouteGlobalCap,
            OverloadDecisionReason::GlobalInflight => OverloadShedReason::GlobalInflight,
            OverloadDecisionReason::UpstreamInflight => OverloadShedReason::UpstreamInflight,
        }
    }

    pub open spec fn body_text(self) -> Seq<char> {
        match self {
            OverloadDecisionReason::Brownout => "brownout active, non-core route shed\n"@,
            OverloadDecisionReason::AdaptiveAdmission => "adaptive admission overload\n"@,
            OverloadDecisionReason::RouteCap => "route queue cap exceeded\n"@,
            OverloadDecisionReason::RouteGlobalCap => "global queue cap exceeded\n"@,
            OverloadDecisionReason::GlobalInflight => "overloaded, retry later\n"@,
            OverloadDecisionReason::UpstreamInflight => "upstream overloaded, retry later\n"@,
        }
    }

    pub fn response_body(self) -> (r: &'static str)
        ensures
            r@ == self.body_text(),
    {
        match self {
            OverloadDecisionReason::Brownout => "brownout active, non-core route shed\n",
            OverloadDecisionReason::AdaptiveAdmission => "adaptive admission overload\n",
            OverloadDecisionReason::RouteCap => "route queue cap exceeded\n",
            OverloadDecisionReason::RouteGlobalCap => "global queue cap exceeded\n",
            OverloadDecisionReason::GlobalInflight => "overloaded, retry later\n",
            OverloadDecisionReason::UpstreamInflight => "upstream overloaded, retry later\n",
        }
    }
}

#[derive(Debug, PartialEq, Eq)]
pub struct UnauthorizedDecision {
    pub challenge: AuthChallengeKind,
    pub status: StatusCode,
    pub body: &'static str,
}

#[derive(Debug, PartialEq, Eq)]
pub struct RateLimitedDecision {
    pub rule_name: String,
    pub route: String,
    pub status: StatusCode,
    pub body: &'static str,
    pub retry_after_seconds: u32,
}

#[derive(Debug, PartialEq, Eq)]
pub struct OverloadDecision {
    pub reason: OverloadDecisionReason,
    pub status: StatusCode,
    pub body: &'static str,
    pub retry_after_seconds: u32,
}

/// The decision on a request.
#[derive(Debug, PartialEq, Eq)]
pub enum AdmissionPolicyDecision {
    AdmitReady,
    Unauthorized(UnauthorizedDecision),
    RateLimited(RateLimitedDecision),
    Overloaded(OverloadDecision),
}

pub struct OverloadView {
    pub reason: OverloadDecisionReason,
    pub status: StatusCode,
    pub body: Seq<char>,
    pub retry_after_seconds: u32,
}

pub enum DecisionView {
    AdmitReady,
    Unauthorized { challenge: AuthChallengeKind, status: StatusCode, body: Seq<char> },
    RateLimited {
        rule_name: Seq<char>,
        route: Seq<char>,
        status: StatusCode,
        body: Seq<char>,
        retry_after_seconds: u32,
    },
    Overloaded(OverloadView),
}

impl View for OverloadDecision {
    type V = OverloadView;

    open spec fn view(&self) -> OverloadView {
        OverloadView {
            reason: self.reason,
            status: self.status,
            body: self.body@,
            retry_after_seconds: self.retry_after_seconds,
        }
    }
}

impl View for AdmissionPolicyDecision {
    type V = DecisionView;

    open spec fn view(&self) -> DecisionView {
        match self {
            AdmissionPolicyDecision::AdmitReady => DecisionView::AdmitReady,
            AdmissionPolicyDecision::Unauthorized(decision) => DecisionView::Unauthorized {
                challenge: decision.challenge,
                status: decision.status,
                body: decision.body@,
            },
            AdmissionPolicyDecision::RateLimited(decision) => DecisionView::RateLimited {
                rule_name: decision.rule_name@,
                route: decision.route@,
                status: decision.status,
                body: decision.body@,
                retry_after_seconds: decision.retry_after_seconds,
            },
            AdmissionPolicyDecision::Overloaded(decision) => DecisionView::Overloaded(decision@),
        }
    }
}

/// A wait of at least one second.
pub open spec fn at_least_one(seconds: u32) -> u32 {
    if seconds < 1 {
        1
    } else {
        seconds
    }
}

fn clamp_wait(seconds: u32) -> (r: u32)
    ensures
        r == at_least_one(seconds),
{
    if seconds < 1 { 1 } else { seconds }
}

/// The refusal that asks for credentials.
pub open spec fn unauthorized(challenge: AuthChallengeKind) -> DecisionView {
    DecisionView::Unauthorized {
        challenge,
        status: StatusCode::Unauthorized,
        body: "unauthorized\n"@,
    }
}

/// The answer to a shed request.
pub open spec fn shed(reason: OverloadDecisionReason, retry_after_seconds: u32) -> OverloadView {
    OverloadView {
        reason,
        status: StatusCode::ServiceUnavailable,
        body: reason.body_text(),
        retry_after_seconds: at_least_one(retry_after_seconds),
    }
}

pub fn overloaded(reason: OverloadDecisionReason, retry_after_seconds: u32) -> (r: OverloadDecision)
    ensures
        r@ == shed(reason, retry_after_seconds),
{
    OverloadDecision {
        reason,
        status: StatusCode::ServiceUnavailable,
        body: reason.response_body(),
        retry_after_seconds: clamp_wait(retry_after_seconds),
    }
}

pub fn overload_decision(reason: OverloadDecisionReason, retry_after_seconds: u32) -> (r:
    AdmissionPolicyDecision)
    ensures
        r@ == DecisionView::Overloaded(shed(reason, retry_after_seconds)),
{
    AdmissionPolicyDecision::Overloaded(overloaded(reason, retry_after_seconds))
}

/// Why a route's queue took no further request.
#[derive(Debug, Clone, Copy, PartialEq, Eq, Structural)]
pub enum RouteQueueRejection {
    GlobalCap,
    RouteCap,
}

pub open spec fn queue_reason(rejection: RouteQueueRejection) -> OverloadDecisionReason {
    match rejection {
        RouteQueueRejection::GlobalCap => OverloadDecisionReason::RouteGlobalCap,
        RouteQueueRejection::RouteCap => OverloadDecisionReason::RouteCap,
    }
}

pub fn overload_from_route_queue_rejection(
    rejection: RouteQueueRejection,
    retry_after_seconds: u32,
) -> (r: OverloadDecision)
    ensures
        r@ == shed(queue_reason(rejection), retry_after_seconds),
{
    let reason = match rejection {
        RouteQueueRejection::GlobalCap => OverloadDecisionReason::RouteGlobalCap,
        RouteQueueRejection::RouteCap => OverloadDecisionReason::RouteCap,
    };
    overloaded(reason, retry_after_seconds)
}

pub fn overload_decision_for_route_queue_rejection(
    rejection: RouteQueueRejection,
    retry_after_seconds: u32,
) -> (r: AdmissionPolicyDecision)
    ensures
        r@ == DecisionView::Overloaded(shed(queue_reason(rejection), retry_after_seconds)),
{
    AdmissionPolicyDecision::Overloaded(
        overload_from_route_queue_rejection(rejection, retry_after_seconds),
    )
}

/// The answer that a refused client gets.
#[derive(Debug, PartialEq, Eq)]
pub struct AdmissionRejectionResponse {
    pub status: StatusCode,
    pub body: &'static str,
    pub www_authenticate: Option<&'static str>,
    pub retry_after_seconds: Option<u32>,
}

pub struct ResponseView {
    pub status: StatusCode,
    pub body: Seq<char>,
    pub www_authenticate: Option<Seq<char>>,
    pub retry_after_seconds: Option<u32>,
}

impl View for AdmissionRejectionResponse {
    type V = ResponseView;

    open spec fn view(&self) -> ResponseView {
        ResponseView {
            status: self.status,
            body: self.body@,
            www_authenticate: match self.www_authenticate {
                Some(scheme) => Some(scheme@),
                None => None,
            },
            retry_after_seconds: self.retry_after_seconds,
        }
    }
}

/// The answer that a decision leads to.
pub open spec fn response_to(decision: DecisionView) -> Option<ResponseView> {
    match decision {
        DecisionView::AdmitReady => None,
        DecisionView::Unauthorized { challenge, status, body } => Some(
            ResponseView {
                status,
                body,
                www_authenticate: Some(challenge.scheme()),
                retry_after_seconds: None,
            },
        ),
        DecisionView::RateLimited { status, body, retry_after_seconds, .. } => Some(
            ResponseView {
                status,
                body,
                www_authenticate: None,
                retry_after_seconds: Some(at_least_one(retry_after_seconds)),
            },
        ),
        DecisionView::Overloaded(decision) => Some(
            ResponseView {
                status: decision.status,
                body: decision.body,
                www_authenticate: None,
                retry_after_seconds: Some(at_least_one(decision.retry_after_seconds)),
            },
        ),
    }
}

/// The view of an optional answer.
pub open spec fn opt_response(response: Option<AdmissionRejectionResponse>) -> Option<
    ResponseView,
> {
    match response {
        Some(response) => Some(response@),
        None => None,
    }
}

pub fn admission_rejection_response(decision: &AdmissionPolicyDecision) -> (r: Option<
    AdmissionRejectionResponse,
>)
    ensures
        opt_response(r) == response_to(decision@),
{
    match decision {
        AdmissionPolicyDecision::AdmitReady => None,
        AdmissionPolicyDecision::Unauthorized(decision) => Some(
            AdmissionRejectionResponse {
                status: decision.status,
                body: decision.body,
                www_authenticate: Some(decision.challenge.as_www_authenticate()),
                retry_after_seconds: None,
            },
        ),
        AdmissionPolicyDecision::RateLimited(decision) => Some(
            AdmissionRejectionResponse {
                status: decision.status,
                body: decision.body,
                www_authenticate: None,
                retry_after_seconds: Some(clamp_wait(decision.retry_after_seconds)),
            },
        ),
        AdmissionPolicyDecision::Overloaded(decision) => Some(
            AdmissionRejectionResponse {
                status: decision.status,
                body: decision.body,
                www_authenticate: None,
                retry_after_seconds: Some(clamp_wait(decision.retry_after_seconds)),
            },
        ),
    }
}

/// The value of a header, where headers can be read.
pub open spec fn lookup_in(headers: Option<&RequestHeaders>, name: Seq<char>) -> Option<Seq<char>> {
    match headers {
        Some(headers) => header_value(headers.entries@, name),
        None => None,
    }
}

fn look_up<'a>(headers: Option<&'a RequestHeaders>, name: &str) -> (r: Option<&'a str>)
    ensures
        opt_str(r) == lookup_in(headers, name@),
{
    match headers {
        Some(headers) => headers.lookup(name),
        None => None,
    }
}

/// A request carries one of the keys that a policy asks for, or the policy asks for none.
pub open spec fn api_key_accepted(auth: RuntimeAuthPolicy, headers: Option<&RequestHeaders>) -> bool {
    match auth.api_key {
        None => true,
        Some(api_key) => match lookup_in(headers, api_key.header_name@) {
            None => false,
            Some(provided) => trimmed(provided).len() > 0 && texts(api_key.keys@).contains(
                trimmed(provided),
            ),
        },
    }
}

pub fn api_key_is_authorized(policy: &RuntimeUpstreamPolicy, headers: Option<&RequestHeaders>) -> (r:
    bool)
    ensures
        r == api_key_accepted(policy.upstream_auth, headers),
{
    let api_key = match &policy.upstream_auth.api_key {
        Some(api_key) => api_key,
        None => {
            return true;
        },
    };
    let provided = match look_up(headers, api_key.header_name.as_str()) {
        Some(provided) => trim(provided),
        None => {
            return false;
        },
    };
    if provided.is_empty() {
        return false;
    }
    any_key_matches(&api_key.keys, provided)
}

/// One of the keys is the provided one, compared in a time that does not tell how much of it is
/// right.
fn any_key_matches(keys: &Vec<String>, provided: &str) -> (r: bool)
    ensures
        r == texts(keys@).contains(provided@),
{
    let mut i: usize = 0;
    while i < keys.len()
        invariant
            i <= keys.len(),
            forall|k: int| 0 <= k < i ==> #[trigger] keys@[k]@ != provided@,
        decreases keys.len() - i,
    {
        if constant_time_eq(provided.as_bytes(), keys[i].as_str().as_bytes()) {
            proof {
                vstd::utf8::encode_utf8_decode_utf8(provided@);
                vstd::utf8::encode_utf8_decode_utf8(keys@[i as int]@);
                assert(texts(keys@)[i as int] == provided@);
            }
            return true;
        }
        i = i + 1;
    }
    assert forall|k: int| 0 <= k < texts(keys@).len() implies texts(keys@)[k] != provided@ by {
        assert(keys@[k]@ != provided@);
    }
    false
}

/// A token whose signature is still to be checked.
#[derive(Debug)]
pub struct PendingAuthorization {
    pub token: String,
    pub pending: PendingJwt,
}

/// What a request's token is worth: settled, or open until its signature is checked.
#[derive(Debug)]
pub enum JwtAuthorization {
    Settled(bool),
    Pending(PendingAuthorization),
}

pub enum JwtAuthorizationView {
    Settled(bool),
    Pending { token: Seq<char>, pending: PendingView },
}

impl View for JwtAuthorization {
    type V = JwtAuthorizationView;

    open spec fn view(&self) -> JwtAuthorizationView {
        match self {
            JwtAuthorization::Settled(authorized) => JwtAuthorizationView::Settled(*authorized),
            JwtAuthorization::Pending(open) => JwtAuthorizationView::Pending {
                token: open.token@,
                pending: open.pending@,
            },
        }
    }
}

/// The check of a request's token, what is counted of a refused one, and the source that is to be
/// fetched on demand.
#[derive(Debug)]
pub struct JwtAuthorizationReport {
    pub outcome: JwtAuthorization,
    pub observation: Option<JwtFailureObservation>,
    pub refresh: Option<JwtJwksSourceConfig>,
}

pub struct JwtReportView {
    pub outcome: JwtAuthorizationView,
    pub observation: Option<ObservationView>,
    pub refresh: Option<SourceView>,
    pub cache: Map<Seq<char>, EntryView>,
}

/// The view of an optional observation.
pub open spec fn opt_observation(observation: Option<JwtFailureObservation>) -> Option<
    ObservationView,
> {
    match observation {
        Some(observation) => Some(observation@),
        None => None,
    }
}

/// The check of a request's token.
pub open spec fn jwt_check(
    auth: RuntimeAuthPolicy,
    headers: Option<&RequestHeaders>,
    cache: Map<Seq<char>, EntryView>,
    now: Nanos,
    wall: WallTime,
) -> JwtReportView {
    let settled = |authorized: bool|
        JwtReportView {
            outcome: JwtAuthorizationView::Settled(authorized),
            observation: None,
            refresh: None,
            cache,
        };
    match auth.jwt {
        None => settled(true),
        Some(jwt) => match lookup_in(headers, "authorization"@) {
            None => settled(false),
            Some(raw) => match bearer_token(raw) {
                None => settled(false),
                Some(token) => {
                    let validated = validation(token, jwt, cache, now, wall);
                    let observation = match validated.step {
                        StepView::Rejected(reason) => Some(
                            failure_observation(jwt, readable_header(token), reason),
                        ),
                        _ => None,
                    };
                    let outcome = match validated.step {
                        StepView::Rejected(_) => JwtAuthorizationView::Settled(false),
                        StepView::Validated { claims, .. } => JwtAuthorizationView::Settled(
                            rbac_satisfied(auth, claims),
                        ),
                        StepView::CheckSignature(pending) => JwtAuthorizationView::Pending {
                            token,
                            pending,
                        },
                    };
                    JwtReportView {
                        outcome,
                        observation,
                        refresh: validated.refresh,
                        cache: validated.cache,
                    }
                },
            },
        },
    }
}

fn settled(authorized: bool) -> (r: JwtAuthorizationReport)
    ensures
        r.outcome@ == JwtAuthorizationView::Settled(authorized),
        r.observation is None,
        r.refresh is None,
{
    JwtAuthorizationReport {
        outcome: JwtAuthorization::Settled(authorized),
        observation: None,
        refresh: None,
    }
}

pub fn jwt_is_authorized(
    policy: &RuntimeUpstreamPolicy,
    headers: Option<&RequestHeaders>,
    cache: &mut JwtJwksSharedCache,
    now: Nanos,
    wall: WallTime,
) -> (r: JwtAuthorizationReport)
    requires
        old(cache).wf(),
        now + 30 * SECOND <= Nanos::MAX,
    ensures
        final(cache).wf(),
        (JwtReportView {
            outcome: r.outcome@,
            observation: opt_observation(r.observation),
            refresh: opt_source(r.refresh),
            cache: final(cache)@,
        }) == jwt_check(policy.upstream_auth, headers, old(cache)@, now, wall),
{
    let jwt = match &policy.upstream_auth.jwt {
        Some(jwt) => jwt,
        None => {
            return settled(true);
        },
    };
    let raw = match look_up(headers, "authorization") {
        Some(raw) => raw,
        None => {
            return settled(false);
        },
    };
    let token = match QUICListener::bearer_token_from_authorization_header(raw) {
        Some(token) => token,
        None => {
            return settled(false);
        },
    };
    let validated = validate_jwt_token(token, jwt, cache, now, wall);
    let refresh = validated.refresh;
    match validated.step {
        JwtValidationStep::Rejected(failure) => JwtAuthorizationReport {
            outcome: JwtAuthorization::Settled(false),
            observation: Some(observe_jwt_validation_failure(jwt, token, &failure)),
            refresh,
        },
        JwtValidationStep::Validated(validated) => JwtAuthorizationReport {
            outcome: JwtAuthorization::Settled(jwt_claims_satisfy_rbac(policy, &validated.claims)),
            observation: None,
            refresh,
        },
        JwtValidationStep::CheckSignature(pending) => JwtAuthorizationReport {
            outcome: JwtAuthorization::Pending(
                PendingAuthorization { token: owned(token), pending },
            ),
            observation: None,
            refresh,
        },
    }
}

/// A decision on a request's credentials, or the signature that it waits for.
#[derive(Debug)]
pub enum LocalAuthOutcome {
    Decided(AdmissionPolicyDecision),
    CheckSignature(PendingAuthorization),
}

pub enum LocalAuthView {
    Decided(DecisionView),
    CheckSignature { token: Seq<char>, pending: PendingView },
}

impl View for LocalAuthOutcome {
    type V = LocalAuthView;

    open spec fn view(&self) -> LocalAuthView {
        match self {
            LocalAuthOutcome::Decided(decision) => LocalAuthView::Decided(decision@),
            LocalAuthOutcome::CheckSignature(open) => LocalAuthView::CheckSignature {
                token: open.token@,
                pending: open.pending@,
            },
        }
    }
}

#[derive(Debug)]
pub struct LocalAuthReport {
    pub outcome: LocalAuthOutcome,
    pub observation: Option<JwtFailureObservation>,
    pub refresh: Option<JwtJwksSourceConfig>,
}

pub struct LocalAuthReportView {
    pub outcome: LocalAuthView,
    pub observation: Option<ObservationView>,
    pub refresh: Option<SourceView>,
    pub cache: Map<Seq<char>, EntryView>,
}

/// The decision that a token's worth leads to.
pub open spec fn bearer_decision(authorized: bool) -> DecisionView {
    if authorized {
        DecisionView::AdmitReady
    } else {
        unauthorized(AuthChallengeKind::Bearer)
    }
}

/// The check of a request's credentials: first its key, then its token, which is not looked at
/// where the key is refused.
pub open spec fn local_auth(
    auth: RuntimeAuthPolicy,
    headers: Option<&RequestHeaders>,
    cache: Map<Seq<char>, EntryView>,
    now: Nanos,
    wall: WallTime,
) -> LocalAuthReportView {
    if !api_key_accepted(auth, headers) {
        LocalAuthReportView {
            outcome: LocalAuthView::Decided(unauthorized(AuthChallengeKind::ApiKey)),
            observation: None,
            refresh: None,
            cache,
        }
    } else {
        let check = jwt_check(auth, headers, cache, now, wall);
        LocalAuthReportView {
            outcome: match check.outcome {
                JwtAuthorizationView::Settled(authorized) => LocalAuthView::Decided(
                    bearer_decision(authorized),
                ),
                JwtAuthorizationView::Pending { token, pending } => LocalAuthView::CheckSignature {
                    token,
                    pending,
                },
            },
            observation: check.observation,
            refresh: check.refresh,
            cache: check.cache,
        }
    }
}

fn unauthorized_decision(challenge: AuthChallengeKind) -> (r: AdmissionPolicyDecision)
    ensures
        r@ == unauthorized(challenge),
{
    AdmissionPolicyDecision::Unauthorized(
        UnauthorizedDecision {
            challenge,
            status: StatusCode::Unauthorized,
            body: "unauthorized\n",
        },
    )
}

fn decide_bearer(authorized: bool) -> (r: AdmissionPolicyDecision)
    ensures
        r@ == bearer_decision(authorized),
{
    if authorized {
        AdmissionPolicyDecision::AdmitReady
    } else {
        unauthorized_decision(AuthChallengeKind::Bearer)
    }
}

pub fn evaluate_local_auth_policy(
    policy: &RuntimeUpstreamPolicy,
    headers: Option<&RequestHeaders>,
    cache: &mut JwtJwksSharedCache,
    now: Nanos,
    wall: WallTime,
) -> (r: LocalAuthReport)
    requires
        old(cache).wf(),
        now + 30 * SECOND <= Nanos::MAX,
    ensures
        final(cache).wf(),
        (LocalAuthReportView {
            outcome: r.outcome@,
            observation: opt_observation(r.observation),
            refresh: opt_source(r.refresh),
            cache: final(cache)@,
        }) == local_auth(policy.upstream_auth, headers, old(cache)@, now, wall),
{
    if !api_key_is_authorized(policy, headers) {
        return LocalAuthReport {
            outcome: LocalAuthOutcome::Decided(unauthorized_decision(AuthChallengeKind::ApiKey)),
            observation: None,
            refresh: None,
        };
    }
    let check = jwt_is_authorized(policy, headers, cache, now, wall);
    let outcome = match check.outcome {
        JwtAuthorization::Settled(authorized) => LocalAuthOutcome::Decided(
            decide_bearer(authorized),
        ),
        JwtAuthorization::Pending(open) => LocalAuthOutcome::CheckSignature(open),
    };
    LocalAuthReport { outcome, observation: check.observation, refresh: check.refresh }
}

/// The decision once the signature was checked, and what is counted of a refused token.
pub open spec fn local_auth_end(
    auth: RuntimeAuthPolicy,
    token: Seq<char>,
    pending: PendingView,
    signature_valid: bool,
    wall: WallTime,
) -> (DecisionView, Option<ObservationView>) {
    match auth.jwt {
        None => (DecisionView::AdmitReady, None),
        Some(jwt) => match finished(pending, signature_valid, jwt, wall) {
            StepView::Validated { claims, .. } => (
                bearer_decision(rbac_satisfied(auth, claims)),
                None,
            ),
            StepView::Rejected(reason) => (
                bearer_decision(false),
                Some(failure_observation(jwt, readable_header(token), reason)),
            ),
            StepView::CheckSignature(_) => (bearer_decision(false), None),
        },
    }
}

/// Ends the check of a request's credentials with the key library's verdict on the signature.
pub fn finish_local_auth_policy(
    policy: &RuntimeUpstreamPolicy,
    open: &PendingAuthorization,
    signature_valid: bool,
    wall: WallTime,
) -> (r: (AdmissionPolicyDecision, Option<JwtFailureObservation>))
    ensures
        (r.0@, opt_observation(r.1)) == local_auth_end(
            policy.upstream_auth,
            open.token@,
            open.pending@,
            signature_valid,
            wall,
        ),
{
    let jwt = match &policy.upstream_auth.jwt {
        Some(jwt) => jwt,
        None => {
            return (AdmissionPolicyDecision::AdmitReady, None);
        },
    };
    match finish_jwt_validation(&open.pending, signature_valid, jwt, wall) {
        Ok(validated) => (decide_bearer(jwt_claims_satisfy_rbac(policy, &validated.claims)), None),
        Err(failure) => (
            decide_bearer(false),
            Some(observe_jwt_validation_failure(jwt, open.token.as_str(), &failure)),
        ),
    }
}

/// The decision of a brownout: a route that it does not allow is shed.
pub open spec fn brownout_decision(
    route_allowed: bool,
    retry_after_seconds: u32,
) -> DecisionView {
    if route_allowed {
        DecisionView::AdmitReady
    } else {
        DecisionView::Overloaded(shed(OverloadDecisionReason::Brownout, retry_after_seconds))
    }
}

pub fn evaluate_brownout_policy(route_allowed: bool, retry_after_seconds: u32) -> (r:
    AdmissionPolicyDecision)
    ensures
        r@ == brownout_decision(route_allowed, retry_after_seconds),
{
    if route_allowed {
        return AdmissionPolicyDecision::AdmitReady;
    }
    overload_decision(OverloadDecisionReason::Brownout, retry_after_seconds)
}

/// The decision of the rate limits: only a denial refuses.
pub open spec fn rate_limit_decision(
    route: Seq<char>,
    decision: Option<QuotaDecision>,
) -> DecisionView {
    match decision {
        Some(QuotaDecision::Denied(denial)) => DecisionView::RateLimited {
            rule_name: denial.policy_name@,
            route,
            status: StatusCode::TooManyRequests,
            body: "request rate limited\n"@,
            retry_after_seconds: match denial.retry_after_seconds {
                Some(seconds) => at_least_one(seconds),
                None => 1,
            },
        },
        _ => DecisionView::AdmitReady,
    }
}

/// Decides by what the limits said; nothing where they could not be asked.
pub fn evaluate_scoped_rate_limit_policy(route: &str, decision: Option<QuotaDecision>) -> (r:
    AdmissionPolicyDecision)
    ensures
        r@ == rate_limit_decision(route@, decision),
{
    match decision {
        Some(QuotaDecision::Denied(denial)) => AdmissionPolicyDecision::RateLimited(
            RateLimitedDecision {
                rule_name: denial.policy_name,
                route: owned(route),
                status: StatusCode::TooManyRequests,
                body: "request rate limited\n",
                retry_after_seconds: match denial.retry_after_seconds {
                    Some(seconds) => clamp_wait(seconds),
                    None => 1,
                },
            },
        ),
        _ => AdmissionPolicyDecision::AdmitReady,
    }
}

/// What has just been learnt of a request.
pub enum PreAdmissionEvent {
    LocalAuth(AdmissionPolicyDecision),
    Brownout { route_allowed: bool },
    RateLimit(Option<QuotaDecision>),
}

/// What is to be done next.
pub enum PreAdmissionAction {
    ObserveBrownout,
    EvaluateRateLimit,
    Decide(AdmissionPolicyDecision),
}

pub enum PreAdmissionView {
    ObserveBrownout,
    EvaluateRateLimit,
    Decide(DecisionView),
}

impl View for PreAdmissionAction {
    type V = PreAdmissionView;

    open spec fn view(&self) -> PreAdmissionView {
        match self {
            PreAdmissionAction::ObserveBrownout => PreAdmissionView::ObserveBrownout,
            PreAdmissionAction::EvaluateRateLimit => PreAdmissionView::EvaluateRateLimit,
            PreAdmissionAction::Decide(decision) => PreAdmissionView::Decide(decision@),
        }
    }
}

/// The next step: credentials come first, then the brownout, then the rate limits, and the first
/// refusal ends it.
pub open spec fn pre_admission_step(
    event: PreAdmissionEvent,
    route: Seq<char>,
    retry_after_seconds: u32,
) -> PreAdmissionView {
    match event {
        PreAdmissionEvent::LocalAuth(decision) => if decision@ == DecisionView::AdmitReady {
            PreAdmissionView::ObserveBrownout
        } else {
            PreAdmissionView::Decide(decision@)
        },
        PreAdmissionEvent::Brownout { route_allowed } => if route_allowed {
            PreAdmissionView::EvaluateRateLimit
        } else {
            PreAdmissionView::Decide(brownout_decision(route_allowed, retry_after_seconds))
        },
        PreAdmissionEvent::RateLimit(decision) => PreAdmissionView::Decide(
            rate_limit_decision(route, decision),
        ),
    }
}

pub fn evaluate_forwarding_pre_admission_policy(
    event: PreAdmissionEvent,
    route: &str,
    retry_after_seconds: u32,
) -> (r: PreAdmissionAction)
    ensures
        r@ == pre_admission_step(event, route@, retry_after_seconds),
{
    match event {
        PreAdmissionEvent::LocalAuth(decision) => match decision {
            AdmissionPolicyDecision::AdmitReady => PreAdmissionAction::ObserveBrownout,
            other => PreAdmissionAction::Decide(other),
        },
        PreAdmissionEvent::Brownout { route_allowed } => match evaluate_brownout_policy(
            route_allowed,
            retry_after_seconds,
        ) {
            AdmissionPolicyDecision::AdmitReady => PreAdmissionAction::EvaluateRateLimit,
            other => PreAdmissionAction::Decide(other),
        },
        PreAdmissionEvent::RateLimit(decision) => PreAdmissionAction::Decide(
            evaluate_scoped_rate_limit_policy(route, decision),
        ),
    }
}

} // verus!
