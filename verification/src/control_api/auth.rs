//! Access to the interface: where a request comes from, who sends it, and whether they may.
use crate::control_api::audit::{
    auth_operation, denial_records, record_views, recorded, AdminAuditRecord, AdminAuditResult,
    RecordView,
};
use crate::control_api::identity::{
    identity_of, opt_context, opt_token, AdminIdentity, AdminRole, AdminTokenMatch, ContextView,
    ControlApiRequestContext, IdentityView, TokenView,
};
use crate::control_api::route::{required_role, route_of, ControlApiPaths, ControlApiRoute, Method};
use crate::control_api::security::{
    ControlApiBearerTokenEntry, ControlApiClientAuthMode, ControlApiSecurityPolicy,
    ControlApiSourcePolicyDecision, IpAddress,
};
use crate::crypto::constant_time_eq;
use crate::headers::{bearer_token, has_header, header_value, RequestHeaders};
use crate::listener::QUICListener;
use crate::status::StatusCode;
use crate::text::opt;
use vstd::prelude::*;

verus! {

/// A request to the interface. Its source is the address it comes from, by the connection or by
/// the headers of a trusted proxy.
pub struct ControlApiRequest {
    pub method: Method,
    pub path: String,
    pub headers: RequestHeaders,
    pub context: Option<ControlApiRequestContext>,
    pub source_ip: IpAddress,
}

impl ControlApiRequest {
    /// What is known of the request's connection.
    pub open spec fn context_view(self) -> Option<ContextView> {
        match self.context {
            Some(context) => Some(context@),
            None => None,
        }
    }

    pub fn context_ref(&self) -> (r: Option<&ControlApiRequestContext>)
        ensures
            opt_context(r) == self.context_view(),
            r is Some <==> self.context is Some,
    {
        match &self.context {
            Some(context) => Some(context),
            None => None,
        }
    }
}

/// The interface as it stands when a request comes in.
pub struct ControlApiGate<'a> {
    pub security: &'a ControlApiSecurityPolicy,
    pub paths: &'a ControlApiPaths,
    pub active_generation: Option<u64>,
}

/// What the answer to a refused request says. The flags tell callers of the operations that answer
/// with one that nothing was done.
#[derive(Debug)]
pub struct ControlApiAuthError {
    pub status: StatusCode,
    pub error: &'static str,
    pub reason: &'static str,
    pub required_role: Option<&'static str>,
    pub reloaded: Option<bool>,
    pub accepted: Option<bool>,
    pub retry_after_seconds: Option<u32>,
}

pub struct AuthErrorView {
    pub status: StatusCode,
    pub error: Seq<char>,
    pub reason: Seq<char>,
    pub required_role: Option<Seq<char>>,
    pub reloaded: Option<bool>,
    pub accepted: Option<bool>,
    pub retry_after_seconds: Option<u32>,
}

impl View for ControlApiAuthError {
    type V = AuthErrorView;

    open spec fn view(&self) -> AuthErrorView {
        AuthErrorView {
            status: self.status,
            error: self.error@,
            reason: self.reason@,
            required_role: match self.required_role {
                Some(role) => Some(role@),
                None => None,
            },
            reloaded: self.reloaded,
            accepted: self.accepted,
            retry_after_seconds: self.retry_after_seconds,
        }
    }
}

/// The name of a role.
pub open spec fn role_label(role: AdminRole) -> Seq<char> {
    match role {
        AdminRole::Viewer => "viewer"@,
        AdminRole::Operator => "operator"@,
        AdminRole::Admin => "admin"@,
    }
}

fn role_name(role: AdminRole) -> (r: &'static str)
    ensures
        r@ == role_label(role),
{
    match role {
        AdminRole::Viewer => "viewer",
        AdminRole::Operator => "operator",
        AdminRole::Admin => "admin",
    }
}

/// The answer to a refused request.
pub open spec fn auth_error(
    route: ControlApiRoute,
    status: StatusCode,
    error: Seq<char>,
    reason: Seq<char>,
    role: Option<AdminRole>,
) -> AuthErrorView {
    AuthErrorView {
        status,
        error,
        reason,
        required_role: match role {
            Some(role) => Some(role_label(role)),
            None => None,
        },
        reloaded: match route {
            ControlApiRoute::ReloadCerts | ControlApiRoute::ReloadRuntime => Some(false),
            _ => None,
        },
        accepted: match route {
            ControlApiRoute::Restart => Some(false),
            _ => None,
        },
        retry_after_seconds: if status == StatusCode::TooManyRequests {
            Some(60)
        } else {
            None
        },
    }
}

/// Who sent a request, as far as its credentials tell.
#[derive(Debug)]
pub enum AuthenticationOutcome {
    Authenticated(AdminIdentity),
    Missing,
    Invalid(&'static str),
}

pub enum AuthenticationView {
    Authenticated(IdentityView),
    Missing,
    Invalid(Seq<char>),
}

impl View for AuthenticationOutcome {
    type V = AuthenticationView;

    open spec fn view(&self) -> AuthenticationView {
        match self {
            AuthenticationOutcome::Authenticated(identity) => AuthenticationView::Authenticated(
                identity@,
            ),
            AuthenticationOutcome::Missing => AuthenticationView::Missing,
            AuthenticationOutcome::Invalid(reason) => AuthenticationView::Invalid(reason@),
        }
    }
}

/// The entry that a token matches: the last of several.
pub open spec fn token_match(
    provided: Seq<char>,
    entries: Seq<ControlApiBearerTokenEntry>,
) -> Option<TokenView>
    decreases entries.len(),
{
    if entries.len() == 0 {
        None
    } else if entries.last().token@ == provided {
        Some(TokenView { actor_id: opt(entries.last().actor_id), role: entries.last().role })
    } else {
        token_match(provided, entries.drop_last())
    }
}

/// The connection of a request shows a client certificate.
pub open spec fn has_certificate(context: Option<ContextView>) -> bool {
    match context {
        Some(context) => context.mtls_identity is Some,
        None => false,
    }
}

/// Who sent a request: a required certificate must be there, a header that is there must hold a
/// known token, and either of the two is enough where nothing more is required.
pub open spec fn authentication(
    headers: Seq<(String, Option<String>)>,
    context: Option<ContextView>,
    security: ControlApiSecurityPolicy,
) -> AuthenticationView {
    let kind = match security.identity_source {
        Some(source) => Some(source.kind@),
        None => None,
    };
    let identified = |token: Option<TokenView>|
        match identity_of(context, token, kind) {
            Some(identity) => AuthenticationView::Authenticated(identity),
            None => AuthenticationView::Missing,
        };
    if security.client_auth.mode == ControlApiClientAuthMode::Required && !has_certificate(
        context,
    ) {
        AuthenticationView::Missing
    } else if !has_header(headers, "authorization"@) {
        identified(None)
    } else {
        match header_value(headers, "authorization"@) {
            None => AuthenticationView::Invalid("invalid_authorization_header"@),
            Some(raw) => match bearer_token(raw) {
                None => AuthenticationView::Invalid("invalid_bearer_token"@),
                Some(provided) => match token_match(provided, security.bearer_tokens@) {
                    None => AuthenticationView::Invalid("invalid_bearer_token"@),
                    Some(token) => identified(Some(token)),
                },
            },
        }
    }
}

/// What is to be told to the throttle that guards against guessed credentials. It goes by the
/// address of the connection, never by what a header says.
#[derive(Debug, Clone, Copy, PartialEq, Eq, Structural)]
pub enum ThrottleAction {
    Nothing,
    RecordFailure(IpAddress),
    RecordSuccess(IpAddress),
}

/// The decision on a request: the identity that it is carried out under, or the answer that refuses
/// it; with what is recorded and what the throttle is told.
#[derive(Debug)]
pub struct AuthorizationOutcome {
    pub decision: Result<Option<AdminIdentity>, ControlApiAuthError>,
    pub records: Vec<AdminAuditRecord>,
    pub throttle: ThrottleAction,
}

pub struct AuthorizationView {
    pub decision: Result<Option<IdentityView>, AuthErrorView>,
    pub records: Seq<RecordView>,
    pub throttle: ThrottleAction,
}

impl View for AuthorizationOutcome {
    type V = AuthorizationView;

    open spec fn view(&self) -> AuthorizationView {
        AuthorizationView {
            decision: match self.decision {
                Ok(Some(identity)) => Ok(Some(identity@)),
                Ok(None) => Ok(None),
                Err(error) => Err(error@),
            },
            records: record_views(self.records@),
            throttle: self.throttle,
        }
    }
}

/// The refusal of a request by where it comes from.
pub open spec fn source_refusal(
    request: ControlApiRequest,
    security: ControlApiSecurityPolicy,
    route: ControlApiRoute,
    active_generation: Option<u64>,
) -> Option<AuthorizationView> {
    let context = request.context_view();
    let role = required_role(route, security.authorization);
    let refusal = |reason: Seq<char>, records: Seq<RecordView>|
        Some(
            AuthorizationView {
                decision: Err(
                    auth_error(route, StatusCode::Forbidden, "forbidden"@, reason, role),
                ),
                records,
                throttle: ThrottleAction::Nothing,
            },
        );
    let denied = |reason: Seq<char>|
        recorded(
            security.audit.enabled,
            None,
            context,
            auth_operation(route, active_generation, AdminAuditResult::Denied, reason),
        );
    if security.ip_allowlist.matcher is None {
        None
    } else if context is None {
        refusal("missing_peer_context"@, denied("missing_peer_context"@))
    } else if security.ip_allowlist.admits(request.source_ip) {
        None
    } else {
        refusal(
            "source_ip_not_allowed"@,
            denied("source_ip_not_allowed"@) + denial_records(
                security.audit.enabled,
                None,
                context,
                route,
                active_generation,
                "source_ip_not_allowed"@,
            ),
        )
    }
}

/// One of the roles permits what is required.
pub open spec fn role_suffices(roles: Seq<AdminRole>, required: AdminRole) -> bool {
    exists|i: int| 0 <= i < roles.len() && (#[trigger] roles[i]).rank() >= required.rank()
}

/// What the throttle is told, where the connection's address is known.
pub open spec fn throttle_report(context: Option<ContextView>, success: bool) -> ThrottleAction {
    match context {
        None => ThrottleAction::Nothing,
        Some(context) => if success {
            ThrottleAction::RecordSuccess(context.peer_addr.ip)
        } else {
            ThrottleAction::RecordFailure(context.peer_addr.ip)
        },
    }
}

/// The refusal of a request without valid credentials.
pub open spec fn unauthenticated(
    context: Option<ContextView>,
    enabled: bool,
    route: ControlApiRoute,
    role: AdminRole,
    active_generation: Option<u64>,
    reason: Seq<char>,
) -> AuthorizationView {
    AuthorizationView {
        decision: Err(
            auth_error(route, StatusCode::Unauthorized, "unauthorized"@, reason, Some(role)),
        ),
        records: recorded(
            enabled,
            None,
            context,
            auth_operation(route, active_generation, AdminAuditResult::Denied, reason),
        ),
        throttle: throttle_report(context, false),
    }
}

/// The decision on a request: first where it comes from, then whether its route is open, then
/// whether its sender is held off, then who they are, then whether their role is enough.
pub open spec fn authorization(
    request: ControlApiRequest,
    security: ControlApiSecurityPolicy,
    active_generation: Option<u64>,
    throttled: bool,
    route: ControlApiRoute,
) -> AuthorizationView {
    let context = request.context_view();
    let enabled = security.audit.enabled;
    match source_refusal(request, security, route, active_generation) {
        Some(refusal) => refusal,
        None => match required_role(route, security.authorization) {
            None => AuthorizationView {
                decision: Ok(None),
                records: Seq::empty(),
                throttle: ThrottleAction::Nothing,
            },
            Some(role) => if context is Some && throttled {
                AuthorizationView {
                    decision: Err(
                        auth_error(
                            route,
                            StatusCode::TooManyRequests,
                            "too_many_requests"@,
                            "authentication_throttled"@,
                            Some(role),
                        ),
                    ),
                    records: Seq::empty(),
                    throttle: ThrottleAction::Nothing,
                }
            } else {
                match authentication(request.headers.entries@, context, security) {
                    AuthenticationView::Missing => unauthenticated(
                        context,
                        enabled,
                        route,
                        role,
                        active_generation,
                        "missing_authentication"@,
                    ),
                    AuthenticationView::Invalid(reason) => unauthenticated(
                        context,
                        enabled,
                        route,
                        role,
                        active_generation,
                        reason,
                    ),
                    AuthenticationView::Authenticated(identity) => {
                        let authenticated = recorded(
                            enabled,
                            Some(identity),
                            context,
                            auth_operation(
                                route,
                                active_generation,
                                AdminAuditResult::Success,
                                "authenticated"@,
                            ),
                        );
                        if role_suffices(identity.roles, role) {
                            AuthorizationView {
                                decision: Ok(Some(identity)),
                                records: authenticated,
                                throttle: throttle_report(context, true),
                            }
                        } else {
                            AuthorizationView {
                                decision: Err(
                                    auth_error(
                                        route,
                                        StatusCode::Forbidden,
                                        "forbidden"@,
                                        "insufficient_role"@,
                                        Some(role),
                                    ),
                                ),
                                records: authenticated + denial_records(
                                    enabled,
                                    Some(identity),
                                    context,
                                    route,
                                    active_generation,
                                    "insufficient_role"@,
                                ),
                                throttle: throttle_report(context, true),
                            }
                        }
                    },
                }
            },
        },
    }
}

fn any_role_suffices(roles: &Vec<AdminRole>, required: AdminRole) -> (r: bool)
    ensures
        r == role_suffices(roles@, required),
{
    let mut i: usize = 0;
    while i < roles.len()
        invariant
            i <= roles.len(),
            forall|k: int| 0 <= k < i ==> (#[trigger] roles@[k]).rank() < required.rank(),
        decreases roles.len() - i,
    {
        if roles[i].at_least(required) {
            return true;
        }
        i = i + 1;
    }
    false
}

fn report_to_throttle(context: Option<&ControlApiRequestContext>, success: bool) -> (r:
    ThrottleAction)
    ensures
        r == throttle_report(opt_context(context), success),
{
    match context {
        None => ThrottleAction::Nothing,
        Some(context) => if success {
            ThrottleAction::RecordSuccess(context.peer_addr.ip)
        } else {
            ThrottleAction::RecordFailure(context.peer_addr.ip)
        },
    }
}

/// A request that was let through.
#[derive(Debug)]
pub struct GatedRequest {
    pub route: ControlApiRoute,
    pub identity: Option<AdminIdentity>,
}

/// The answer to a request that was not let through.
#[derive(Debug)]
pub enum GateRefusal {
    /// No such route. The body of the answer is `not found`.
    NotFound,
    Refused(ControlApiAuthError),
}

/// The decision on a request, with what is recorded and what the throttle is told.
#[derive(Debug)]
pub struct GateOutcome {
    pub decision: Result<GatedRequest, GateRefusal>,
    pub records: Vec<AdminAuditRecord>,
    pub throttle: ThrottleAction,
}

pub enum GateDecisionView {
    NotFound,
    Refused(AuthErrorView),
    Passed { route: ControlApiRoute, identity: Option<IdentityView> },
}

pub struct GateView {
    pub decision: GateDecisionView,
    pub records: Seq<RecordView>,
    pub throttle: ThrottleAction,
}

impl View for GateOutcome {
    type V = GateView;

    open spec fn view(&self) -> GateView {
        GateView {
            decision: match self.decision {
                Ok(GatedRequest { route, identity: Some(identity) }) => GateDecisionView::Passed {
                    route,
                    identity: Some(identity@),
                },
                Ok(GatedRequest { route, identity: None }) => GateDecisionView::Passed {
                    route,
                    identity: None,
                },
                Err(GateRefusal::NotFound) => GateDecisionView::NotFound,
                Err(GateRefusal::Refused(error)) => GateDecisionView::Refused(error@),
            },
            records: record_views(self.records@),
            throttle: self.throttle,
        }
    }
}

/// The decision on a request: there must be such a route, and its sender must be authorized.
pub open spec fn gate(
    request: ControlApiRequest,
    security: ControlApiSecurityPolicy,
    paths: ControlApiPaths,
    active_generation: Option<u64>,
    throttled: bool,
) -> GateView {
    match route_of(request.method, request.path@, paths) {
        None => GateView {
            decision: GateDecisionView::NotFound,
            records: Seq::empty(),
            throttle: ThrottleAction::Nothing,
        },
        Some(route) => {
            let outcome = authorization(request, security, active_generation, throttled, route);
            GateView {
                decision: match outcome.decision {
                    Ok(identity) => GateDecisionView::Passed { route, identity },
                    Err(error) => GateDecisionView::Refused(error),
                },
                records: outcome.records,
                throttle: outcome.throttle,
            }
        },
    }
}

impl QUICListener {
    pub fn control_api_token_match(
        provided: &str,
        entries: &Vec<ControlApiBearerTokenEntry>,
    ) -> (r: Option<AdminTokenMatch>)
        ensures
            opt_token(r) == token_match(provided@, entries@),
    {
        let mut matched: Option<AdminTokenMatch> = None;
        let mut i: usize = 0;
        while i < entries.len()
            invariant
                i <= entries.len(),
                opt_token(matched) == token_match(provided@, entries@.take(i as int)),
            decreases entries.len() - i,
        {
            assert(entries@.take(i + 1).drop_last() =~= entries@.take(i as int));
            let same = constant_time_eq(provided.as_bytes(), entries[i].token.as_str().as_bytes());
            proof {
                vstd::utf8::encode_utf8_decode_utf8(provided@);
                vstd::utf8::encode_utf8_decode_utf8(entries@[i as int].token@);
            }
            if same {
                matched = Some(
                    AdminTokenMatch {
                        actor_id: entries[i].actor_id.clone(),
                        role: entries[i].role,
                    },
                );
            }
            i = i + 1;
        }
        assert(entries@.take(i as int) =~= entries@);
        matched
    }

    pub fn authenticate_control_api_request(
        request: &ControlApiRequest,
        security: &ControlApiSecurityPolicy,
    ) -> (r: AuthenticationOutcome)
        ensures
            r@ == authentication(request.headers.entries@, request.context_view(), *security),
    {
        let context = request.context_ref();
        let has_identity = match context {
            Some(context) => context.mtls_identity.is_some(),
            None => false,
        };
        if security.client_auth.mode == ControlApiClientAuthMode::Required && !has_identity {
            return AuthenticationOutcome::Missing;
        }
        let token = if request.headers.contains("authorization") {
            let raw = match request.headers.lookup("authorization") {
                Some(raw) => raw,
                None => {
                    return AuthenticationOutcome::Invalid("invalid_authorization_header");
                },
            };
            let provided = match Self::bearer_token_from_authorization_header(raw) {
                Some(provided) => provided,
                None => {
                    return AuthenticationOutcome::Invalid("invalid_bearer_token");
                },
            };
            match Self::control_api_token_match(provided, &security.bearer_tokens) {
                Some(token) => Some(token),
                None => {
                    return AuthenticationOutcome::Invalid("invalid_bearer_token");
                },
            }
        } else {
            None
        };
        let identity_source = match &security.identity_source {
            Some(source) => Some(source),
            None => None,
        };
        match Self::build_admin_identity(context, token, identity_source) {
            Some(identity) => AuthenticationOutcome::Authenticated(identity),
            None => AuthenticationOutcome::Missing,
        }
    }

    pub fn control_api_auth_error_response(
        route: ControlApiRoute,
        status: StatusCode,
        error: &'static str,
        reason: &'static str,
        required_role: Option<AdminRole>,
    ) -> (r: ControlApiAuthError)
        ensures
            r@ == auth_error(route, status, error@, reason@, required_role),
    {
        let role = match required_role {
            Some(role) => Some(role_name(role)),
            None => None,
        };
        let (reloaded, accepted): (Option<bool>, Option<bool>) = match route {
            ControlApiRoute::ReloadCerts | ControlApiRoute::ReloadRuntime => (Some(false), None),
            ControlApiRoute::Restart => (None, Some(false)),
            _ => (None, None),
        };
        let retry_after_seconds: Option<u32> = if status == StatusCode::TooManyRequests {
            Some(60)
        } else {
            None
        };
        ControlApiAuthError {
            status,
            error,
            reason,
            required_role: role,
            reloaded,
            accepted,
            retry_after_seconds,
        }
    }

    /// Refuses a request by where it comes from; the records are appended.
    fn enforce_control_api_source_policy(
        request: &ControlApiRequest,
        gate: &ControlApiGate<'_>,
        route: ControlApiRoute,
        records: &mut Vec<AdminAuditRecord>,
    ) -> (r: Result<(), ControlApiAuthError>)
        requires
            gate.security.wf(),
            record_views(old(records)@) == Seq::<RecordView>::empty(),
        ensures
            match (r, source_refusal(*request, *gate.security, route, gate.active_generation)) {
                (Ok(_), None) => record_views(final(records)@) == Seq::<RecordView>::empty(),
                (Err(error), Some(refusal)) => refusal.decision == Err::<
                    Option<IdentityView>,
                    AuthErrorView,
                >(error@) && record_views(final(records)@) == refusal.records,
                _ => false,
            },
    {
        let security = gate.security;
        if !security.has_source_policy() {
            return Ok(());
        }
        let role = route.minimum_role(&security.authorization);
        let context = request.context_ref();
        if context.is_none() {
            Self::emit_control_api_auth_audit_event(
                &security.audit,
                records,
                None,
                None,
                route,
                gate.active_generation,
                AdminAuditResult::Denied,
                "missing_peer_context",
            );
            assert(record_views(records@) =~= source_refusal(
                *request,
                *gate.security,
                route,
                gate.active_generation,
            )->0.records);
            return Err(
                Self::control_api_auth_error_response(
                    route,
                    StatusCode::Forbidden,
                    "forbidden",
                    "missing_peer_context",
                    role,
                ),
            );
        }
        match security.evaluate_source_policy(request.source_ip) {
            ControlApiSourcePolicyDecision::Allow => Ok(()),
            ControlApiSourcePolicyDecision::Deny { reason } => {
                Self::emit_control_api_auth_audit_event(
                    &security.audit,
                    records,
                    None,
                    context,
                    route,
                    gate.active_generation,
                    AdminAuditResult::Denied,
                    reason,
                );
                Self::emit_control_api_route_denial_audit_event(
                    &security.audit,
                    records,
                    None,
                    context,
                    route,
                    gate.active_generation,
                    reason,
                );
                assert(record_views(records@) =~= source_refusal(
                    *request,
                    *gate.security,
                    route,
                    gate.active_generation,
                )->0.records);
                Err(
                    Self::control_api_auth_error_response(
                        route,
                        StatusCode::Forbidden,
                        "forbidden",
                        reason,
                        role,
                    ),
                )
            },
        }
    }

    /// Refuses a request without valid credentials.
    fn refuse_unauthenticated(
        request: &ControlApiRequest,
        gate: &ControlApiGate<'_>,
        route: ControlApiRoute,
        role: AdminRole,
        reason: &'static str,
    ) -> (r: AuthorizationOutcome)
        ensures
            r@ == unauthenticated(
                request.context_view(),
                gate.security.audit.enabled,
                route,
                role,
                gate.active_generation,
                reason@,
            ),
    {
        let mut records: Vec<AdminAuditRecord> = Vec::new();
        let context = request.context_ref();
        Self::emit_control_api_auth_audit_event(
            &gate.security.audit,
            &mut records,
            None,
            context,
            route,
            gate.active_generation,
            AdminAuditResult::Denied,
            reason,
        );
        let r = AuthorizationOutcome {
            decision: Err(
                Self::control_api_auth_error_response(
                    route,
                    StatusCode::Unauthorized,
                    "unauthorized",
                    reason,
                    Some(role),
                ),
            ),
            records,
            throttle: report_to_throttle(context, false),
        };
        assert(r@.records =~= unauthenticated(
            request.context_view(),
            gate.security.audit.enabled,
            route,
            role,
            gate.active_generation,
            reason@,
        ).records);
        r
    }

    /// Decides on a request to a route. `throttled` is what the throttle says of the connection's
    /// address.
    pub fn authorize_control_api_request_for(
        request: &ControlApiRequest,
        gate: &ControlApiGate<'_>,
        throttled: bool,
        route: ControlApiRoute,
    ) -> (r: AuthorizationOutcome)
        requires
            gate.security.wf(),
        ensures
            r@ == authorization(
                *request,
                *gate.security,
                gate.active_generation,
                throttled,
                route,
            ),
    {
        let security = gate.security;
        let mut records: Vec<AdminAuditRecord> = Vec::new();
        assert(record_views(records@) =~= Seq::<RecordView>::empty());
        if let Err(error) = Self::enforce_control_api_source_policy(
            request,
            gate,
            route,
            &mut records,
        ) {
            return AuthorizationOutcome {
                decision: Err(error),
                records,
                throttle: ThrottleAction::Nothing,
            };
        }
        let required_role = match route.minimum_role(&security.authorization) {
            Some(role) => role,
            None => {
                return AuthorizationOutcome {
                    decision: Ok(None),
                    records,
                    throttle: ThrottleAction::Nothing,
                };
            },
        };
        let context = request.context_ref();
        if context.is_some() && throttled {
            return AuthorizationOutcome {
                decision: Err(
                    Self::control_api_auth_error_response(
                        route,
                        StatusCode::TooManyRequests,
                        "too_many_requests",
                        "authentication_throttled",
                        Some(required_role),
                    ),
                ),
                records,
                throttle: ThrottleAction::Nothing,
            };
        }
        let identity = match Self::authenticate_control_api_request(request, security) {
            AuthenticationOutcome::Missing => {
                return Self::refuse_unauthenticated(
                    request,
                    gate,
                    route,
                    required_role,
                    "missing_authentication",
                );
            },
            AuthenticationOutcome::Invalid(reason) => {
                return Self::refuse_unauthenticated(request, gate, route, required_role, reason);
            },
            AuthenticationOutcome::Authenticated(identity) => identity,
        };
        let throttle = report_to_throttle(context, true);
        Self::emit_control_api_auth_audit_event(
            &security.audit,
            &mut records,
            Some(&identity),
            context,
            route,
            gate.active_generation,
            AdminAuditResult::Success,
            "authenticated",
        );
        let ghost authenticated = recorded(
            security.audit.enabled,
            Some(identity@),
            request.context_view(),
            auth_operation(
                route,
                gate.active_generation,
                AdminAuditResult::Success,
                "authenticated"@,
            ),
        );
        assert(record_views(records@) =~= authenticated);
        if any_role_suffices(&identity.roles, required_role) {
            return AuthorizationOutcome { decision: Ok(Some(identity)), records, throttle };
        }
        Self::emit_control_api_route_denial_audit_event(
            &security.audit,
            &mut records,
            Some(&identity),
            context,
            route,
            gate.active_generation,
            "insufficient_role",
        );
        AuthorizationOutcome {
            decision: Err(
                Self::control_api_auth_error_response(
                    route,
                    StatusCode::Forbidden,
                    "forbidden",
                    "insufficient_role",
                    Some(required_role),
                ),
            ),
            records,
            throttle,
        }
    }

    /// Decides on a request, from its route on.
    pub fn gate_control_api_request_for(
        request: &ControlApiRequest,
        gate: &ControlApiGate<'_>,
        throttled: bool,
    ) -> (r: GateOutcome)
        requires
            gate.security.wf(),
        ensures
            r@ == crate::control_api::auth::gate(
                *request,
                *gate.security,
                *gate.paths,
                gate.active_generation,
                throttled,
            ),
    {
        let route = match Self::control_api_request_route_for(
            request.method,
            request.path.as_str(),
            gate.paths,
        ) {
            Some(route) => route,
            None => {
                let r = GateOutcome {
                    decision: Err(GateRefusal::NotFound),
                    records: Vec::new(),
                    throttle: ThrottleAction::Nothing,
                };
                assert(r@.records =~= Seq::<RecordView>::empty());
                return r;
            },
        };
        let outcome = Self::authorize_control_api_request_for(request, gate, throttled, route);
        let decision = match outcome.decision {
            Ok(identity) => Ok(GatedRequest { route, identity }),
            Err(error) => Err(GateRefusal::Refused(error)),
        };
        GateOutcome { decision, records: outcome.records, throttle: outcome.throttle }
    }

    /// Decides on a request, as it comes in.
    pub fn gate_control_api_request(
        request: &ControlApiRequest,
        gate: &ControlApiGate<'_>,
        throttled: bool,
    ) -> (r: GateOutcome)
        requires
            gate.security.wf(),
        ensures
            r@ == crate::control_api::auth::gate(
                *request,
                *gate.security,
                *gate.paths,
                gate.active_generation,
                throttled,
            ),
    {
        Self::gate_control_api_request_for(request, gate, throttled)
    }

    /// The body of the answer to a request for no route.
    pub fn control_api_not_found_response() -> (r: (StatusCode, &'static str))
        ensures
            r.0 == StatusCode::NotFound,
            r.1@ == "not found\n"@,
    {
        (StatusCode::NotFound, "not found\n")
    }
}

} // verus!
