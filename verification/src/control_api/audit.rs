//! What is recorded of the operators' requests.
use crate::control_api::identity::{
    opt_context, opt_identity, AdminAuthnMechanism, AdminIdentity, AdminRole, ContextView,
    ControlApiRequestContext, IdentityView,
};
use crate::control_api::route::{route_label, ControlApiRoute};
use crate::control_api::security::{ControlApiAdminAuditTarget, ControlApiAuditPolicy};
use crate::listener::QUICListener;
use crate::text::{decimal, opt, opt_str, owned, same_text, to_decimal, trim, trimmed};
use vstd::prelude::*;

verus! {

/// The version of the records' form.
pub fn admin_audit_schema_version() -> (r: &'static str)
    ensures
        r@ == "v1"@,
{
    "v1"
}

#[derive(Debug, Clone, Copy, PartialEq, Eq, Structural)]
pub enum AdminAuditFailureClass {
    Authentication,
    Authorization,
    SourcePolicy,
    RequestValidation,
    RuntimeConfig,
    RuntimeState,
    ListenerTls,
    Watchdog,
}

#[derive(Debug, Clone, Copy, PartialEq, Eq, Structural)]
pub enum AdminAuditEventType {
    Auth,
    RuntimeSnapshot,
    RuntimeValidate,
    RuntimePreview,
    RuntimeReload,
    RuntimeActivate,
    RuntimeRollback,
    RuntimeRestart,
    CertReload,
    /// TLS material of an upstream (client certificate and key, authorities) changed with a
    /// generation.
    UpstreamMtlsMaterial,
}

#[derive(Debug, Clone, Copy, PartialEq, Eq, Structural)]
pub enum AdminAuditAction {
    Auth,
    RuntimeSnapshotRead,
    RuntimeValidateAttempt,
    RuntimeValidateResult,
    RuntimePreviewAttempt,
    RuntimePreviewResult,
    RuntimeReloadAttempt,
    RuntimeReloadResult,
    RuntimeActivateAttempt,
    RuntimeActivateResult,
    RuntimeRollbackAttempt,
    RuntimeRollbackResult,
    RuntimeRestartAttempt,
    RuntimeRestartResult,
    CertReloadAttempt,
    CertReloadResult,
    CertReloadApplied,
    SecretResolutionFailed,
    UpstreamMtlsMaterialChanged,
    UpstreamMtlsMaterialInvalid,
}

#[derive(Debug, Clone, Copy, PartialEq, Eq, Structural)]
pub enum AdminAuditResult {
    Success,
    Denied,
    Failed,
}

/// The generations that an operation is about.
#[derive(Debug, Clone, Copy, PartialEq, Eq, Structural)]
pub struct AdminAuditGeneration {
    pub active_generation: Option<u64>,
    pub candidate_generation: Option<u64>,
    pub target_generation: Option<u64>,
}

impl AdminAuditGeneration {
    /// The running generation alone.
    pub open spec fn running(active_generation: Option<u64>) -> AdminAuditGeneration {
        AdminAuditGeneration {
            active_generation,
            candidate_generation: None,
            target_generation: None,
        }
    }

    pub fn active(active_generation: Option<u64>) -> (r: Self)
        ensures
            r == AdminAuditGeneration::running(active_generation),
    {
        AdminAuditGeneration {
            active_generation,
            candidate_generation: None,
            target_generation: None,
        }
    }
}

/// What an operation is aimed at.
#[derive(Debug)]
pub struct AdminAuditTarget {
    pub route: Option<String>,
    pub resource: Option<String>,
    pub config_path: Option<String>,
}

pub struct TargetView {
    pub route: Option<Seq<char>>,
    pub resource: Option<Seq<char>>,
    pub config_path: Option<Seq<char>>,
}

impl View for AdminAuditTarget {
    type V = TargetView;

    open spec fn view(&self) -> TargetView {
        TargetView {
            route: opt(self.route),
            resource: opt(self.resource),
            config_path: opt(self.config_path),
        }
    }
}

/// Who carried an operation out.
#[derive(Debug)]
pub struct AdminAuditActor {
    pub id: Option<String>,
    pub roles: Vec<AdminRole>,
    pub authn_mechanisms: Vec<AdminAuthnMechanism>,
    pub mtls_subject: Option<String>,
}

pub struct ActorView {
    pub id: Option<Seq<char>>,
    pub roles: Seq<AdminRole>,
    pub authn_mechanisms: Seq<AdminAuthnMechanism>,
    pub mtls_subject: Option<Seq<char>>,
}

impl View for AdminAuditActor {
    type V = ActorView;

    open spec fn view(&self) -> ActorView {
        ActorView {
            id: opt(self.id),
            roles: self.roles@,
            authn_mechanisms: self.authn_mechanisms@,
            mtls_subject: opt(self.mtls_subject),
        }
    }
}

/// The actor that an identity stands for; nobody in particular where there is none.
pub open spec fn actor_of(identity: Option<IdentityView>) -> ActorView {
    match identity {
        Some(identity) => ActorView {
            id: identity.actor_id,
            roles: identity.roles,
            authn_mechanisms: identity.authn_mechanisms,
            mtls_subject: identity.mtls_subject,
        },
        None => ActorView {
            id: None,
            roles: Seq::empty(),
            authn_mechanisms: Seq::empty(),
            mtls_subject: None,
        },
    }
}

fn clone_roles(list: &Vec<AdminRole>) -> (r: Vec<AdminRole>)
    ensures
        r@ == list@,
{
    let mut r: Vec<AdminRole> = Vec::new();
    let mut i: usize = 0;
    while i < list.len()
        invariant
            i <= list.len(),
            r@ == list@.take(i as int),
        decreases list.len() - i,
    {
        r.push(list[i]);
        i = i + 1;
        assert(list@.take(i as int) =~= list@.take(i - 1).push(list@[i - 1]));
    }
    assert(list@.take(i as int) =~= list@);
    r
}

fn clone_mechanisms(list: &Vec<AdminAuthnMechanism>) -> (r: Vec<AdminAuthnMechanism>)
    ensures
        r@ == list@,
{
    let mut r: Vec<AdminAuthnMechanism> = Vec::new();
    let mut i: usize = 0;
    while i < list.len()
        invariant
            i <= list.len(),
            r@ == list@.take(i as int),
        decreases list.len() - i,
    {
        r.push(list[i]);
        i = i + 1;
        assert(list@.take(i as int) =~= list@.take(i - 1).push(list@[i - 1]));
    }
    assert(list@.take(i as int) =~= list@);
    r
}

impl AdminAuditActor {
    pub fn from_identity(identity: Option<&AdminIdentity>) -> (r: Self)
        ensures
            r@ == actor_of(opt_identity(identity)),
    {
        match identity {
            Some(identity) => AdminAuditActor {
                id: identity.actor_id.clone(),
                roles: clone_roles(&identity.roles),
                authn_mechanisms: clone_mechanisms(&identity.authn_mechanisms),
                mtls_subject: identity.mtls_subject.clone(),
            },
            None => {
                let r = AdminAuditActor {
                    id: None,
                    roles: Vec::new(),
                    authn_mechanisms: Vec::new(),
                    mtls_subject: None,
                };
                assert(r@.roles =~= Seq::empty());
                assert(r@.authn_mechanisms =~= Seq::empty());
                r
            },
        }
    }
}

/// How an operator proved who they are.
#[derive(Debug)]
pub struct AdminAuditAuthn {
    pub mechanisms: Vec<AdminAuthnMechanism>,
    pub mtls_subject: Option<String>,
}

pub struct AuthnView {
    pub mechanisms: Seq<AdminAuthnMechanism>,
    pub mtls_subject: Option<Seq<char>>,
}

impl View for AdminAuditAuthn {
    type V = AuthnView;

    open spec fn view(&self) -> AuthnView {
        AuthnView { mechanisms: self.mechanisms@, mtls_subject: opt(self.mtls_subject) }
    }
}

pub open spec fn authn_of(identity: Option<IdentityView>) -> AuthnView {
    match identity {
        Some(identity) => AuthnView {
            mechanisms: identity.authn_mechanisms,
            mtls_subject: identity.mtls_subject,
        },
        None => AuthnView { mechanisms: Seq::empty(), mtls_subject: None },
    }
}

impl AdminAuditAuthn {
    pub fn from_identity(identity: Option<&AdminIdentity>) -> (r: Self)
        ensures
            r@ == authn_of(opt_identity(identity)),
    {
        match identity {
            Some(identity) => AdminAuditAuthn {
                mechanisms: clone_mechanisms(&identity.authn_mechanisms),
                mtls_subject: identity.mtls_subject.clone(),
            },
            None => {
                let r = AdminAuditAuthn { mechanisms: Vec::new(), mtls_subject: None };
                assert(r@.mechanisms =~= Seq::empty());
                r
            },
        }
    }
}

/// A record, complete but for its number and its time.
#[derive(Debug)]
pub struct AdminAuditRecord {
    pub event_type: AdminAuditEventType,
    pub request_id: Option<String>,
    pub trace_id: Option<String>,
    pub span_id: Option<String>,
    pub listener: Option<String>,
    pub upstream: Option<String>,
    pub backend: Option<String>,
    pub actor: AdminAuditActor,
    pub action: AdminAuditAction,
    pub target: AdminAuditTarget,
    pub generation: AdminAuditGeneration,
    pub result: AdminAuditResult,
    pub reason: Option<String>,
    pub failure_class: Option<AdminAuditFailureClass>,
    pub peer_addr: Option<String>,
    pub authn: AdminAuditAuthn,
}

pub struct RecordView {
    pub event_type: AdminAuditEventType,
    pub request_id: Option<Seq<char>>,
    pub trace_id: Option<Seq<char>>,
    pub span_id: Option<Seq<char>>,
    pub listener: Option<Seq<char>>,
    pub upstream: Option<Seq<char>>,
    pub backend: Option<Seq<char>>,
    pub actor: ActorView,
    pub action: AdminAuditAction,
    pub target: TargetView,
    pub generation: AdminAuditGeneration,
    pub result: AdminAuditResult,
    pub reason: Option<Seq<char>>,
    pub failure_class: Option<AdminAuditFailureClass>,
    pub peer_addr: Option<Seq<char>>,
    pub authn: AuthnView,
}

impl View for AdminAuditRecord {
    type V = RecordView;

    open spec fn view(&self) -> RecordView {
        RecordView {
            event_type: self.event_type,
            request_id: opt(self.request_id),
            trace_id: opt(self.trace_id),
            span_id: opt(self.span_id),
            listener: opt(self.listener),
            upstream: opt(self.upstream),
            backend: opt(self.backend),
            actor: self.actor@,
            action: self.action,
            target: self.target@,
            generation: self.generation,
            result: self.result,
            reason: opt(self.reason),
            failure_class: self.failure_class,
            peer_addr: opt(self.peer_addr),
            authn: self.authn@,
        }
    }
}

/// What some records hold.
pub open spec fn record_views(records: Seq<AdminAuditRecord>) -> Seq<RecordView> {
    records.map_values(|record: AdminAuditRecord| record@)
}

/// A record as it is written.
#[derive(Debug)]
pub struct AdminAuditEvent {
    pub schema_version: &'static str,
    pub event_id: String,
    pub time_unix_ms: u64,
    pub record: AdminAuditRecord,
}

impl AdminAuditEvent {
    /// The `number`th record, written at `time_unix_ms`.
    pub fn stamp(record: AdminAuditRecord, number: u64, time_unix_ms: u64) -> (r: Self)
        ensures
            r.schema_version@ == "v1"@,
            r.event_id@ == "control-api-audit-"@ + decimal(number as nat),
            r.time_unix_ms == time_unix_ms,
            r.record == record,
    {
        let mut event_id = owned("control-api-audit-");
        event_id.append(to_decimal(number).as_str());
        AdminAuditEvent {
            schema_version: admin_audit_schema_version(),
            event_id,
            time_unix_ms,
            record,
        }
    }
}

/// The class of a failure that its reason alone decides.
pub open spec fn reason_class(reason: Option<Seq<char>>) -> Option<AdminAuditFailureClass> {
    match reason {
        None => None,
        Some(reason) => if reason == "missing_authentication"@ || reason
            == "invalid_authorization_header"@ || reason == "invalid_bearer_token"@ {
            Some(AdminAuditFailureClass::Authentication)
        } else if reason == "insufficient_role"@ {
            Some(AdminAuditFailureClass::Authorization)
        } else if reason == "missing_peer_context"@ || reason == "source_ip_not_allowed"@ {
            Some(AdminAuditFailureClass::SourcePolicy)
        } else if reason == "invalid_request_body"@ {
            Some(AdminAuditFailureClass::RequestValidation)
        } else {
            None
        },
    }
}

/// The class of a failure that its reason does not decide.
pub open spec fn event_class(event_type: AdminAuditEventType) -> AdminAuditFailureClass {
    match event_type {
        AdminAuditEventType::Auth => AdminAuditFailureClass::Authentication,
        AdminAuditEventType::RuntimeSnapshot => AdminAuditFailureClass::RuntimeState,
        AdminAuditEventType::RuntimeValidate
        | AdminAuditEventType::RuntimePreview
        | AdminAuditEventType::RuntimeReload
        | AdminAuditEventType::RuntimeActivate
        | AdminAuditEventType::RuntimeRollback
        | AdminAuditEventType::UpstreamMtlsMaterial => AdminAuditFailureClass::RuntimeConfig,
        AdminAuditEventType::RuntimeRestart => AdminAuditFailureClass::Watchdog,
        AdminAuditEventType::CertReload => AdminAuditFailureClass::ListenerTls,
    }
}

/// The class of an operation's failure; none where it succeeded.
pub open spec fn failure_class(
    event_type: AdminAuditEventType,
    result: AdminAuditResult,
    reason: Option<Seq<char>>,
) -> Option<AdminAuditFailureClass> {
    if result == AdminAuditResult::Success {
        None
    } else {
        match reason_class(reason) {
            Some(class) => Some(class),
            None => Some(event_class(event_type)),
        }
    }
}

/// The resource that a route is about.
pub open spec fn route_resource(route: ControlApiRoute) -> Seq<char> {
    match route {
        ControlApiRoute::Health | ControlApiRoute::Ready => "control_api_status"@,
        ControlApiRoute::Runtime
        | ControlApiRoute::RuntimeHistory
        | ControlApiRoute::RuntimeHistoryGeneration(_) => "runtime_state"@,
        ControlApiRoute::RuntimeValidate
        | ControlApiRoute::RuntimePreview
        | ControlApiRoute::RuntimeActivate
        | ControlApiRoute::RuntimeRollback
        | ControlApiRoute::ReloadRuntime => "runtime_generation"@,
        ControlApiRoute::ReloadCerts => "listener_tls"@,
        ControlApiRoute::Restart => "watchdog"@,
    }
}

/// What an operation on a route is aimed at.
pub open spec fn route_target(route: ControlApiRoute, config_path: Option<Seq<char>>) -> TargetView {
    TargetView {
        route: Some(route_label(route)),
        resource: Some(route_resource(route)),
        config_path,
    }
}

/// The operation that is recorded as denied when a route is; none for the status routes.
pub open spec fn denied_operation(route: ControlApiRoute) -> Option<
    (AdminAuditEventType, AdminAuditAction),
> {
    match route {
        ControlApiRoute::Runtime
        | ControlApiRoute::RuntimeHistory
        | ControlApiRoute::RuntimeHistoryGeneration(_) => Some(
            (AdminAuditEventType::RuntimeSnapshot, AdminAuditAction::RuntimeSnapshotRead),
        ),
        ControlApiRoute::RuntimeValidate => Some(
            (AdminAuditEventType::RuntimeValidate, AdminAuditAction::RuntimeValidateAttempt),
        ),
        ControlApiRoute::RuntimePreview => Some(
            (AdminAuditEventType::RuntimePreview, AdminAuditAction::RuntimePreviewAttempt),
        ),
        ControlApiRoute::RuntimeActivate => Some(
            (AdminAuditEventType::RuntimeActivate, AdminAuditAction::RuntimeActivateAttempt),
        ),
        ControlApiRoute::RuntimeRollback => Some(
            (AdminAuditEventType::RuntimeRollback, AdminAuditAction::RuntimeRollbackAttempt),
        ),
        ControlApiRoute::ReloadCerts => Some(
            (AdminAuditEventType::CertReload, AdminAuditAction::CertReloadAttempt),
        ),
        ControlApiRoute::ReloadRuntime => Some(
            (AdminAuditEventType::RuntimeReload, AdminAuditAction::RuntimeReloadAttempt),
        ),
        ControlApiRoute::Restart => Some(
            (AdminAuditEventType::RuntimeRestart, AdminAuditAction::RuntimeRestartAttempt),
        ),
        ControlApiRoute::Health | ControlApiRoute::Ready => None,
    }
}

/// A reason without white space around it; none where nothing is left.
pub open spec fn stated_reason(reason: Option<Seq<char>>) -> Option<Seq<char>> {
    match reason {
        Some(reason) => if trimmed(reason).len() > 0 {
            Some(trimmed(reason))
        } else {
            None
        },
        None => None,
    }
}

/// The address that a record names: the identity's, or else the connection's.
pub open spec fn recorded_peer(
    identity: Option<IdentityView>,
    context: Option<ContextView>,
) -> Option<Seq<char>> {
    match identity {
        Some(IdentityView { peer_addr: Some(peer), .. }) => Some(peer.text@),
        _ => match context {
            Some(context) => Some(context.peer_addr.text@),
            None => None,
        },
    }
}

/// The operation that is recorded, and how it went.
pub struct OperationView {
    pub event_type: AdminAuditEventType,
    pub action: AdminAuditAction,
    pub target: TargetView,
    pub generation: AdminAuditGeneration,
    pub result: AdminAuditResult,
    pub reason: Option<Seq<char>>,
}

/// The record of an operation.
pub open spec fn record_of(
    identity: Option<IdentityView>,
    context: Option<ContextView>,
    operation: OperationView,
) -> RecordView {
    let reason = stated_reason(operation.reason);
    RecordView {
        event_type: operation.event_type,
        request_id: match context {
            Some(context) => context.request_id,
            None => None,
        },
        trace_id: match context {
            Some(context) => context.trace_id,
            None => None,
        },
        span_id: match context {
            Some(context) => context.span_id,
            None => None,
        },
        listener: match context {
            Some(context) => context.listener,
            None => None,
        },
        upstream: None,
        backend: None,
        actor: actor_of(identity),
        action: operation.action,
        target: operation.target,
        generation: operation.generation,
        result: operation.result,
        reason,
        failure_class: failure_class(operation.event_type, operation.result, reason),
        peer_addr: recorded_peer(identity, context),
        authn: authn_of(identity),
    }
}

/// The records of an operation: one, or none where recording is off.
pub open spec fn recorded(
    enabled: bool,
    identity: Option<IdentityView>,
    context: Option<ContextView>,
    operation: OperationView,
) -> Seq<RecordView> {
    if enabled {
        seq![record_of(identity, context, operation)]
    } else {
        Seq::empty()
    }
}

/// The check of a request's credentials as an operation.
pub open spec fn auth_operation(
    route: ControlApiRoute,
    active_generation: Option<u64>,
    result: AdminAuditResult,
    reason: Seq<char>,
) -> OperationView {
    OperationView {
        event_type: AdminAuditEventType::Auth,
        action: AdminAuditAction::Auth,
        target: route_target(route, None),
        generation: AdminAuditGeneration::running(active_generation),
        result,
        reason: Some(reason),
    }
}

/// The records of a denied operation.
pub open spec fn denial_records(
    enabled: bool,
    identity: Option<IdentityView>,
    context: Option<ContextView>,
    route: ControlApiRoute,
    active_generation: Option<u64>,
    reason: Seq<char>,
) -> Seq<RecordView> {
    match denied_operation(route) {
        None => Seq::empty(),
        Some((event_type, action)) => recorded(
            enabled,
            identity,
            context,
            OperationView {
                event_type,
                action,
                target: route_target(route, None),
                generation: AdminAuditGeneration::running(active_generation),
                result: AdminAuditResult::Denied,
                reason: Some(reason),
            },
        ),
    }
}

/// The records so far, with more behind them.
pub open spec fn with_records(
    before: Seq<AdminAuditRecord>,
    after: Seq<AdminAuditRecord>,
    more: Seq<RecordView>,
) -> bool {
    record_views(after) == record_views(before) + more
}

impl QUICListener {
    pub fn control_api_audit_failure_class(
        event_type: AdminAuditEventType,
        result: AdminAuditResult,
        reason: Option<&str>,
    ) -> (r: Option<AdminAuditFailureClass>)
        ensures
            r == failure_class(event_type, result, opt_str(reason)),
    {
        if result == AdminAuditResult::Success {
            return None;
        }
        if let Some(reason) = reason {
            if same_text(reason, "missing_authentication") || same_text(
                reason,
                "invalid_authorization_header",
            ) || same_text(reason, "invalid_bearer_token") {
                return Some(AdminAuditFailureClass::Authentication);
            }
            if same_text(reason, "insufficient_role") {
                return Some(AdminAuditFailureClass::Authorization);
            }
            if same_text(reason, "missing_peer_context") || same_text(
                reason,
                "source_ip_not_allowed",
            ) {
                return Some(AdminAuditFailureClass::SourcePolicy);
            }
            if same_text(reason, "invalid_request_body") {
                return Some(AdminAuditFailureClass::RequestValidation);
            }
        }
        let class = match event_type {
            AdminAuditEventType::Auth => AdminAuditFailureClass::Authentication,
            AdminAuditEventType::RuntimeSnapshot => AdminAuditFailureClass::RuntimeState,
            AdminAuditEventType::RuntimeValidate
            | AdminAuditEventType::RuntimePreview
            | AdminAuditEventType::RuntimeReload
            | AdminAuditEventType::RuntimeActivate
            | AdminAuditEventType::RuntimeRollback
            | AdminAuditEventType::UpstreamMtlsMaterial => AdminAuditFailureClass::RuntimeConfig,
            AdminAuditEventType::RuntimeRestart => AdminAuditFailureClass::Watchdog,
            AdminAuditEventType::CertReload => AdminAuditFailureClass::ListenerTls,
        };
        Some(class)
    }

    pub fn control_api_audit_target_for_route(
        route: ControlApiRoute,
        config_path: Option<String>,
    ) -> (r: AdminAuditTarget)
        ensures
            r@ == route_target(route, opt(config_path)),
    {
        let resource = match route {
            ControlApiRoute::Health | ControlApiRoute::Ready => "control_api_status",
            ControlApiRoute::Runtime
            | ControlApiRoute::RuntimeHistory
            | ControlApiRoute::RuntimeHistoryGeneration(_) => "runtime_state",
            ControlApiRoute::RuntimeValidate
            | ControlApiRoute::RuntimePreview
            | ControlApiRoute::RuntimeActivate
            | ControlApiRoute::RuntimeRollback
            | ControlApiRoute::ReloadRuntime => "runtime_generation",
            ControlApiRoute::ReloadCerts => "listener_tls",
            ControlApiRoute::Restart => "watchdog",
        };
        AdminAuditTarget {
            route: Some(owned(Self::control_api_route_name(route))),
            resource: Some(owned(resource)),
            config_path,
        }
    }

    pub fn control_api_denied_action_for_route(route: ControlApiRoute) -> (r: Option<
        (AdminAuditEventType, AdminAuditAction),
    >)
        ensures
            r == denied_operation(route),
    {
        match route {
            ControlApiRoute::Runtime
            | ControlApiRoute::RuntimeHistory
            | ControlApiRoute::RuntimeHistoryGeneration(_) => Some(
                (AdminAuditEventType::RuntimeSnapshot, AdminAuditAction::RuntimeSnapshotRead),
            ),
            ControlApiRoute::RuntimeValidate => Some(
                (AdminAuditEventType::RuntimeValidate, AdminAuditAction::RuntimeValidateAttempt),
            ),
            ControlApiRoute::RuntimePreview => Some(
                (AdminAuditEventType::RuntimePreview, AdminAuditAction::RuntimePreviewAttempt),
            ),
            ControlApiRoute::RuntimeActivate => Some(
                (AdminAuditEventType::RuntimeActivate, AdminAuditAction::RuntimeActivateAttempt),
            ),
            ControlApiRoute::RuntimeRollback => Some(
                (AdminAuditEventType::RuntimeRollback, AdminAuditAction::RuntimeRollbackAttempt),
            ),
            ControlApiRoute::ReloadCerts => Some(
                (AdminAuditEventType::CertReload, AdminAuditAction::CertReloadAttempt),
            ),
            ControlApiRoute::ReloadRuntime => Some(
                (AdminAuditEventType::RuntimeReload, AdminAuditAction::RuntimeReloadAttempt),
            ),
            ControlApiRoute::Restart => Some(
                (AdminAuditEventType::RuntimeRestart, AdminAuditAction::RuntimeRestartAttempt),
            ),
            ControlApiRoute::Health | ControlApiRoute::Ready => None,
        }
    }

    fn control_api_audit_peer_addr(
        identity: Option<&AdminIdentity>,
        request_context: Option<&ControlApiRequestContext>,
    ) -> (r: Option<String>)
        ensures
            opt(r) == recorded_peer(opt_identity(identity), opt_context(request_context)),
    {
        if let Some(identity) = identity {
            if let Some(peer) = &identity.peer_addr {
                return Some(peer.text.clone());
            }
        }
        match request_context {
            Some(context) => Some(context.peer_addr.text.clone()),
            None => None,
        }
    }

    /// Appends the record of an operation, where operations are recorded.
    pub fn emit_control_api_audit_event(
        audit: &ControlApiAuditPolicy,
        records: &mut Vec<AdminAuditRecord>,
        identity: Option<&AdminIdentity>,
        request_context: Option<&ControlApiRequestContext>,
        event_type: AdminAuditEventType,
        action: AdminAuditAction,
        target: AdminAuditTarget,
        generation: AdminAuditGeneration,
        result: AdminAuditResult,
        reason: Option<&str>,
    )
        ensures
            with_records(
                old(records)@,
                final(records)@,
                recorded(
                    audit.enabled,
                    opt_identity(identity),
                    opt_context(request_context),
                    OperationView {
                        event_type,
                        action,
                        target: target@,
                        generation,
                        result,
                        reason: opt_str(reason),
                    },
                ),
            ),
    {
        if !audit.enabled {
            assert(record_views(records@) =~= record_views(old(records)@) + Seq::empty());
            return ;
        }
        let stated = match reason {
            Some(reason) => {
                let text = trim(reason);
                if text.is_empty() {
                    None
                } else {
                    Some(text)
                }
            },
            None => None,
        };
        let failure_class = Self::control_api_audit_failure_class(event_type, result, stated);
        let reason = match stated {
            Some(text) => Some(owned(text)),
            None => None,
        };
        let (request_id, trace_id, span_id, listener) = match request_context {
            Some(context) => (
                context.request_id.clone(),
                context.trace_id.clone(),
                context.span_id.clone(),
                context.listener.clone(),
            ),
            None => (None, None, None, None),
        };
        let record = AdminAuditRecord {
            event_type,
            request_id,
            trace_id,
            span_id,
            listener,
            upstream: None,
            backend: None,
            actor: AdminAuditActor::from_identity(identity),
            action,
            target,
            generation,
            result,
            reason,
            failure_class,
            peer_addr: Self::control_api_audit_peer_addr(identity, request_context),
            authn: AdminAuditAuthn::from_identity(identity),
        };
        records.push(record);
        assert(record_views(records@) =~= record_views(old(records)@) + seq![record@]);
    }

    /// Appends the record of a check of credentials.
    pub fn emit_control_api_auth_audit_event(
        audit: &ControlApiAuditPolicy,
        records: &mut Vec<AdminAuditRecord>,
        identity: Option<&AdminIdentity>,
        request_context: Option<&ControlApiRequestContext>,
        route: ControlApiRoute,
        active_generation: Option<u64>,
        result: AdminAuditResult,
        reason: &str,
    )
        ensures
            with_records(
                old(records)@,
                final(records)@,
                recorded(
                    audit.enabled,
                    opt_identity(identity),
                    opt_context(request_context),
                    auth_operation(route, active_generation, result, reason@),
                ),
            ),
    {
        Self::emit_control_api_audit_event(
            audit,
            records,
            identity,
            request_context,
            AdminAuditEventType::Auth,
            AdminAuditAction::Auth,
            Self::control_api_audit_target_for_route(route, None),
            AdminAuditGeneration::active(active_generation),
            result,
            Some(reason),
        );
    }

    /// Appends the record of a denied operation.
    pub fn emit_control_api_route_denial_audit_event(
        audit: &ControlApiAuditPolicy,
        records: &mut Vec<AdminAuditRecord>,
        identity: Option<&AdminIdentity>,
        request_context: Option<&ControlApiRequestContext>,
        route: ControlApiRoute,
        active_generation: Option<u64>,
        reason: &str,
    )
        ensures
            with_records(
                old(records)@,
                final(records)@,
                denial_records(
                    audit.enabled,
                    opt_identity(identity),
                    opt_context(request_context),
                    route,
                    active_generation,
                    reason@,
                ),
            ),
    {
        match Self::control_api_denied_action_for_route(route) {
            None => {
                assert(record_views(records@) =~= record_views(old(records)@) + Seq::empty());
            },
            Some((event_type, action)) => {
                Self::emit_control_api_audit_event(
                    audit,
                    records,
                    identity,
                    request_context,
                    event_type,
                    action,
                    Self::control_api_audit_target_for_route(route, None),
                    AdminAuditGeneration::active(active_generation),
                    AdminAuditResult::Denied,
                    Some(reason),
                );
            },
        }
    }
}

/// The state of a file sink's writer.
#[derive(Debug, Clone, Copy, PartialEq, Eq, Structural)]
pub enum AuditWriterState {
    /// The sink needs no writer.
    NotNeeded,
    Running,
    StartFailed,
}

impl AuditWriterState {
    pub open spec fn degraded(self) -> bool {
        self == AuditWriterState::StartFailed
    }

    /// Records are being lost because the writer could not be started.
    pub fn delivery_degraded(self) -> (r: bool)
        ensures
            r == self.degraded(),
    {
        match self {
            AuditWriterState::StartFailed => true,
            _ => false,
        }
    }

    pub fn delivery_reason(self) -> (r: Option<&'static str>)
        ensures
            match r {
                Some(reason) => self.degraded() && reason@ == "writer_thread_start_failed"@,
                None => !self.degraded(),
            },
    {
        match self {
            AuditWriterState::StartFailed => Some("writer_thread_start_failed"),
            _ => None,
        }
    }
}

/// What becomes of a written record.
#[derive(Debug, Clone, Copy, PartialEq, Eq, Structural)]
pub enum AuditDelivery {
    Log,
    /// A file sink without a path: the record goes to the log, with a warning.
    LogForWantOfPath,
    Enqueue,
    Drop,
}

pub open spec fn delivery_of(
    sink: ControlApiAdminAuditTarget,
    writer: AuditWriterState,
) -> AuditDelivery {
    match sink {
        ControlApiAdminAuditTarget::Log => AuditDelivery::Log,
        ControlApiAdminAuditTarget::File(None) => AuditDelivery::LogForWantOfPath,
        ControlApiAdminAuditTarget::File(Some(_)) => if writer == AuditWriterState::Running {
            AuditDelivery::Enqueue
        } else {
            AuditDelivery::Drop
        },
    }
}

/// Decides where a record goes. A record for a file is never written anywhere else.
pub fn audit_delivery(sink: &ControlApiAdminAuditTarget, writer: AuditWriterState) -> (r:
    AuditDelivery)
    ensures
        r == delivery_of(*sink, writer),
{
    match sink {
        ControlApiAdminAuditTarget::Log => AuditDelivery::Log,
        ControlApiAdminAuditTarget::File(None) => AuditDelivery::LogForWantOfPath,
        ControlApiAdminAuditTarget::File(Some(_)) => match writer {
            AuditWriterState::Running => AuditDelivery::Enqueue,
            _ => AuditDelivery::Drop,
        },
    }
}

/// A sink needs a writer exactly where it is a file with a path.
pub fn audit_writer_path(sink: &ControlApiAdminAuditTarget) -> (r: Option<String>)
    ensures
        opt(r) == match *sink {
            ControlApiAdminAuditTarget::File(path) => opt(path),
            ControlApiAdminAuditTarget::Log => None,
        },
{
    match sink {
        ControlApiAdminAuditTarget::File(path) => path.clone(),
        ControlApiAdminAuditTarget::Log => None,
    }
}

} // verus!
