//! What the records of the operators' interface say, whatever is recorded.
use crate::admission::credential_laws::{first_named, law_a_header_is_its_first_entry};
use crate::control_api::audit::{
    delivery_of, denial_records, failure_class, record_of, recorded, route_target, AdminAuditAction,
    AdminAuditEventType, AdminAuditFailureClass, AdminAuditResult, AuditDelivery, AuditWriterState,
    OperationView, RecordView,
};
use crate::control_api::auth::{
    authentication, authorization, AuthenticationView, ControlApiRequest, GateDecisionView, GateView,
};
use crate::control_api::certificate::certificate_of;
use crate::control_api::context::{augmented, connection_identity, header_text};
use crate::control_api::dispatch::{dispatched, read_records};
use crate::control_api::identity::{
    certificate_identity, ContextView, ControlApiIdentitySourcePolicy, IdentityView,
};
use crate::control_api::route::{required_role, route_label, ControlApiRoute};
use crate::control_api::security::{ControlApiAdminAuditTarget, ControlApiSecurityPolicy};
use crate::headers::RequestHeaders;
use crate::status::StatusCode;
use crate::text::opt;
use crate::text_laws::{all_white, has_firm_ends, law_trimming_cuts_the_white_ends};
use vstd::prelude::*;

verus! {

/// A record tells what was done, to what and with what result, as the operation says; who did it,
/// with which roles and proved by what, as the identity says; and over which connection and in
/// which request, as the context says. The identity's address stands before the connection's.
pub proof fn law_a_record_tells_who_did_what(
    identity: Option<IdentityView>,
    context: Option<ContextView>,
    operation: OperationView,
)
    ensures
        ({
            let record = record_of(identity, context, operation);
            &&& record.event_type == operation.event_type
            &&& record.action == operation.action
            &&& record.target == operation.target
            &&& record.generation == operation.generation
            &&& record.result == operation.result
            &&& record.upstream is None && record.backend is None
            &&& identity matches Some(who) ==> {
                &&& record.actor.id == who.actor_id
                &&& record.actor.roles == who.roles
                &&& record.actor.authn_mechanisms == who.authn_mechanisms
                &&& record.actor.mtls_subject == who.mtls_subject
                &&& record.authn.mechanisms == who.authn_mechanisms
                &&& record.authn.mtls_subject == who.mtls_subject
                &&& who.peer_addr matches Some(peer) ==> record.peer_addr == Some(peer.text@)
            }
            &&& identity is None ==> {
                &&& record.actor.id is None
                &&& record.actor.roles.len() == 0
                &&& record.actor.authn_mechanisms.len() == 0
                &&& record.authn.mechanisms.len() == 0
            }
            &&& context matches Some(context) ==> {
                &&& record.request_id == context.request_id
                &&& record.trace_id == context.trace_id
                &&& record.span_id == context.span_id
                &&& record.listener == context.listener
                &&& identity is None ==> record.peer_addr == Some(context.peer_addr.text@)
                &&& identity matches Some(who) ==> (who.peer_addr is None ==> record.peer_addr
                    == Some(context.peer_addr.text@))
            }
            &&& context is None ==> record.request_id is None && record.trace_id is None
                && record.span_id is None && record.listener is None
            &&& context is None && identity is None ==> record.peer_addr is None
        }),
{
}

/// A reason is recorded without the white space around it, and an empty one not at all.
pub proof fn law_a_reason_is_recorded_trimmed(
    identity: Option<IdentityView>,
    context: Option<ContextView>,
    operation: OperationView,
    left: Seq<char>,
    reason: Seq<char>,
    right: Seq<char>,
)
    requires
        all_white(left),
        all_white(right),
        has_firm_ends(reason),
        operation.reason == Some(left + reason + right),
    ensures
        record_of(identity, context, operation).reason == if reason.len() > 0 {
            Some(reason)
        } else {
            None
        },
        record_of(identity, context, OperationView { reason: None, ..operation }).reason is None,
{
    law_trimming_cuts_the_white_ends(left, reason, right);
}

/// A failure is classed by its reason where that tells, and by its operation where it does not.
pub proof fn law_a_failure_is_classed_by_its_cause(
    event: AdminAuditEventType,
    result: AdminAuditResult,
    reason: Option<Seq<char>>,
)
    ensures
        ({
            let class = failure_class(event, result, reason);
            let is = |text: Seq<char>| reason == Some(text);
            let credentials = is("missing_authentication"@) || is("invalid_authorization_header"@)
                || is("invalid_bearer_token"@);
            let role = is("insufficient_role"@);
            let source = is("missing_peer_context"@) || is("source_ip_not_allowed"@);
            let body = is("invalid_request_body"@);
            let bad = result != AdminAuditResult::Success;
            &&& !bad ==> class is None
            &&& bad && credentials ==> class == Some(AdminAuditFailureClass::Authentication)
            &&& bad && !credentials && role ==> class == Some(AdminAuditFailureClass::Authorization)
            &&& bad && !credentials && !role && source ==> class == Some(
                AdminAuditFailureClass::SourcePolicy,
            )
            &&& bad && !credentials && !role && !source && body ==> class == Some(
                AdminAuditFailureClass::RequestValidation,
            )
            &&& bad && !credentials && !role && !source && !body ==> class == Some(
                match event {
                    AdminAuditEventType::Auth => AdminAuditFailureClass::Authentication,
                    AdminAuditEventType::RuntimeSnapshot => AdminAuditFailureClass::RuntimeState,
                    AdminAuditEventType::RuntimeRestart => AdminAuditFailureClass::Watchdog,
                    AdminAuditEventType::CertReload => AdminAuditFailureClass::ListenerTls,
                    _ => AdminAuditFailureClass::RuntimeConfig,
                },
            )
        }),
{
}

/// Where records are kept, what happened is recorded once; where they are not, nothing is.
pub proof fn law_what_happened_is_recorded_once(
    identity: Option<IdentityView>,
    context: Option<ContextView>,
    operation: OperationView,
)
    ensures
        recorded(true, identity, context, operation).len() == 1,
        recorded(true, identity, context, operation)[0] == record_of(identity, context, operation),
        recorded(false, identity, context, operation).len() == 0,
{
}

/// Where records are kept, each judgement of credentials leaves a record of itself: as a success
/// for the identity that was proved, as denied where none was. A proved identity without the role
/// that a route asks for leaves a second record, that the route's own operation was denied it.
pub proof fn law_judgements_are_recorded(
    request: ControlApiRequest,
    security: ControlApiSecurityPolicy,
    active: Option<u64>,
    route: ControlApiRoute,
)
    requires
        security.audit.enabled,
        security.ip_allowlist.matcher is None || (request.context is Some
            && security.ip_allowlist.admits(request.source_ip)),
        required_role(route, security.authorization) is Some,
    ensures
        ({
            let outcome = authorization(request, security, active, false, route);
            let found = authentication(
                request.headers.entries@,
                request.context_view(),
                security,
            );
            let about = |record: RecordView|
                record.target.route == Some(route_label(route))
                    && record.generation.active_generation == active;
            &&& outcome.records.len() >= 1
            &&& about(outcome.records[0])
            &&& outcome.records[0].event_type == AdminAuditEventType::Auth
            &&& outcome.records[0].action == AdminAuditAction::Auth
            &&& found matches AuthenticationView::Authenticated(identity) ==> {
                &&& outcome.records[0].result == AdminAuditResult::Success
                &&& outcome.records[0].actor.id == identity.actor_id
                &&& outcome.records[0].actor.roles == identity.roles
                &&& outcome.decision is Ok ==> outcome.records.len() == 1
                &&& outcome.decision is Err && route != ControlApiRoute::Health && route
                    != ControlApiRoute::Ready ==> {
                    &&& outcome.records.len() == 2
                    &&& about(outcome.records[1])
                    &&& outcome.records[1].result == AdminAuditResult::Denied
                    &&& outcome.records[1].actor.id == identity.actor_id
                    &&& outcome.records[1].event_type != AdminAuditEventType::Auth
                }
            }
            &&& !(found is Authenticated) ==> {
                &&& outcome.records.len() == 1
                &&& outcome.records[0].result == AdminAuditResult::Denied
                &&& outcome.records[0].actor.id is None
            }
        }),
{
}

/// A denied operation is recorded as the one that its route stands for; the two status routes stand
/// for none.
pub proof fn law_a_denial_names_its_operation(
    identity: Option<IdentityView>,
    context: Option<ContextView>,
    route: ControlApiRoute,
    active: Option<u64>,
    reason: Seq<char>,
)
    ensures
        ({
            let denied = denial_records(true, identity, context, route, active, reason);
            let status = route == ControlApiRoute::Health || route == ControlApiRoute::Ready;
            &&& status ==> denied.len() == 0
            &&& !status ==> {
                &&& denied.len() == 1
                &&& denied[0].result == AdminAuditResult::Denied
                &&& denied[0].generation.active_generation == active
                &&& denied[0].event_type == match route {
                    ControlApiRoute::RuntimeValidate => AdminAuditEventType::RuntimeValidate,
                    ControlApiRoute::RuntimePreview => AdminAuditEventType::RuntimePreview,
                    ControlApiRoute::RuntimeActivate => AdminAuditEventType::RuntimeActivate,
                    ControlApiRoute::RuntimeRollback => AdminAuditEventType::RuntimeRollback,
                    ControlApiRoute::ReloadCerts => AdminAuditEventType::CertReload,
                    ControlApiRoute::ReloadRuntime => AdminAuditEventType::RuntimeReload,
                    ControlApiRoute::Restart => AdminAuditEventType::RuntimeRestart,
                    _ => AdminAuditEventType::RuntimeSnapshot,
                }
                &&& denied[0].action == match route {
                    ControlApiRoute::RuntimeValidate => AdminAuditAction::RuntimeValidateAttempt,
                    ControlApiRoute::RuntimePreview => AdminAuditAction::RuntimePreviewAttempt,
                    ControlApiRoute::RuntimeActivate => AdminAuditAction::RuntimeActivateAttempt,
                    ControlApiRoute::RuntimeRollback => AdminAuditAction::RuntimeRollbackAttempt,
                    ControlApiRoute::ReloadCerts => AdminAuditAction::CertReloadAttempt,
                    ControlApiRoute::ReloadRuntime => AdminAuditAction::RuntimeReloadAttempt,
                    ControlApiRoute::Restart => AdminAuditAction::RuntimeRestartAttempt,
                    _ => AdminAuditAction::RuntimeSnapshotRead,
                }
            }
        }),
{
}

/// What passes is dispatched as it passed; to read the runtime's state or its history leaves one
/// record more, with the generation that was asked for, and nothing else does.
pub proof fn law_reads_of_the_runtime_are_recorded(
    gated: GateView,
    request: ControlApiRequest,
    active: Option<u64>,
)
    ensures
        ({
            let after = dispatched(gated, request, true, active);
            &&& after.decision == gated.decision
            &&& after.throttle == gated.throttle
            &&& match gated.decision {
                GateDecisionView::Passed { route, identity } => {
                    let reads = route == ControlApiRoute::Runtime || route
                        == ControlApiRoute::RuntimeHistory || (route matches
                    ControlApiRoute::RuntimeHistoryGeneration(generation));
                    &&& !reads ==> after.records == gated.records
                    &&& reads ==> {
                        &&& after.records.len() == gated.records.len() + 1
                        &&& after.records.drop_last() == gated.records
                        &&& after.records.last().event_type == AdminAuditEventType::RuntimeSnapshot
                        &&& after.records.last().target.route == Some(route_label(route))
                        &&& after.records.last().action == AdminAuditAction::RuntimeSnapshotRead
                        &&& after.records.last().result == AdminAuditResult::Success
                        &&& after.records.last().generation.active_generation == active
                        &&& after.records.last().generation.target_generation == match route {
                            ControlApiRoute::RuntimeHistoryGeneration(generation) => Some(
                                generation,
                            ),
                            _ => None,
                        }
                        &&& identity matches Some(who) ==> after.records.last().actor.id
                            == who.actor_id
                    }
                },
                _ => after.records == gated.records,
            }
        }),
{
    if let GateDecisionView::Passed { route, identity } = gated.decision {
        let more = read_records(request, true, active, route, identity);
        if more.len() == 0 {
            assert(gated.records + more =~= gated.records);
        } else {
            assert((gated.records + more).drop_last() =~= gated.records);
        }
    }
}

/// A connection has an identity exactly where it shows a certificate that can be read, and then
/// that certificate's, with roles by the configured attribute.
pub proof fn law_a_connection_is_known_by_its_certificate(
    certificate: Option<&[u8]>,
    source: Option<&ControlApiIdentitySourcePolicy>,
)
    ensures
        connection_identity(certificate, source) is Some <==> (certificate matches Some(der)
            && certificate_of(der@) is Some),
        certificate matches Some(der) ==> (certificate_of(der@) matches Some(read)
            ==> connection_identity(certificate, source) == Some(
            certificate_identity(
                read,
                match source {
                    Some(source) => opt(source.role_attribute),
                    None => None,
                },
            ),
        )),
{
}

/// A header's text is its first value without the white space around it, and none where nothing is
/// left of it.
pub proof fn law_a_header_is_read_trimmed(
    headers: RequestHeaders,
    name: Seq<char>,
    at: int,
    left: Seq<char>,
    core: Seq<char>,
    right: Seq<char>,
)
    requires
        first_named(headers.entries@, name, at),
        headers.entries@[at].1 matches Some(value) && value@ == left + core + right,
        all_white(left),
        all_white(right),
        has_firm_ends(core),
    ensures
        header_text(headers, name) == if core.len() > 0 {
            Some(core)
        } else {
            None
        },
{
    law_a_header_is_its_first_entry(headers.entries@, name);
    law_trimming_cuts_the_white_ends(left, core, right);
}

/// A request's context is its connection's, with the request's own number and trace.
pub proof fn law_a_request_keeps_its_connection(
    context: ContextView,
    request_id: Option<Seq<char>>,
    trace: Option<(Seq<char>, Seq<char>)>,
)
    ensures
        ({
            let after = augmented(context, request_id, trace);
            &&& after.request_id == request_id
            &&& after.peer_addr == context.peer_addr
            &&& after.mtls_identity == context.mtls_identity
            &&& after.listener == context.listener
            &&& trace matches Some((trace_id, span_id)) ==> after.trace_id == Some(trace_id)
                && after.span_id == Some(span_id)
            &&& trace is None ==> after.trace_id == context.trace_id && after.span_id
                == context.span_id
        }),
{
}

/// Records for the log go there, and so do those for a file that has no path; those for a file are
/// written while its writer runs, and are lost where it does not.
pub proof fn law_records_go_where_they_are_kept(
    sink: ControlApiAdminAuditTarget,
    writer: AuditWriterState,
)
    ensures
        delivery_of(sink, writer) == AuditDelivery::Log <==> sink is Log,
        delivery_of(sink, writer) == AuditDelivery::LogForWantOfPath <==> (
        sink matches ControlApiAdminAuditTarget::File(path) && path is None),
        delivery_of(sink, writer) == AuditDelivery::Enqueue <==> (
        sink matches ControlApiAdminAuditTarget::File(path) && path is Some) && writer
            == AuditWriterState::Running,
        delivery_of(sink, writer) == AuditDelivery::Drop <==> (
        sink matches ControlApiAdminAuditTarget::File(path) && path is Some) && writer
            != AuditWriterState::Running,
        writer.degraded() <==> writer == AuditWriterState::StartFailed,
{
}

/// A route goes by the path that it has by default, and stands for what it is about.
pub proof fn law_a_route_goes_by_its_default_path(route: ControlApiRoute)
    ensures
        route_label(route) == match route {
            ControlApiRoute::Health => "/health"@,
            ControlApiRoute::Ready => "/ready"@,
            ControlApiRoute::Runtime => "/admin/runtime"@,
            ControlApiRoute::RuntimeValidate => "/admin/runtime/validate"@,
            ControlApiRoute::RuntimePreview => "/admin/runtime/preview"@,
            ControlApiRoute::RuntimeActivate => "/admin/runtime/activate"@,
            ControlApiRoute::RuntimeRollback => "/admin/runtime/rollback"@,
            ControlApiRoute::RuntimeHistory => "/admin/runtime/history"@,
            ControlApiRoute::RuntimeHistoryGeneration(_) => {
                "/admin/runtime/history/{generation}"@
            },
            ControlApiRoute::ReloadCerts => "/admin/reload-certs"@,
            ControlApiRoute::ReloadRuntime => "/admin/reload"@,
            ControlApiRoute::Restart => "/admin/restart"@,
        },
        route_target(route, None).route == Some(route_label(route)),
        route_target(route, None).config_path is None,
        forall|path: Seq<char>| (#[trigger] route_target(route, Some(path))).config_path == Some(path),
        route_target(route, None).resource == Some(
            match route {
                ControlApiRoute::Health | ControlApiRoute::Ready => "control_api_status"@,
                ControlApiRoute::Runtime
                | ControlApiRoute::RuntimeHistory
                | ControlApiRoute::RuntimeHistoryGeneration(_) => "runtime_state"@,
                ControlApiRoute::ReloadCerts => "listener_tls"@,
                ControlApiRoute::Restart => "watchdog"@,
                _ => "runtime_generation"@,
            },
        ),
{
}

/// A refusal says what it is by its status, and a sender that is held off may come back after a
/// minute.
pub proof fn law_a_refusal_is_named_by_its_status(
    request: ControlApiRequest,
    security: ControlApiSecurityPolicy,
    active: Option<u64>,
    throttled: bool,
    route: ControlApiRoute,
)
    ensures
        authorization(request, security, active, throttled, route).decision matches Err(refusal)
            ==> {
            &&& refusal.status == StatusCode::Unauthorized ==> refusal.error == "unauthorized"@
            &&& refusal.status == StatusCode::Forbidden ==> refusal.error == "forbidden"@
            &&& refusal.status == StatusCode::TooManyRequests ==> refusal.error
                == "too_many_requests"@ && refusal.retry_after_seconds == Some(60u32)
        },
{
}

/// Where records are kept, a request from where none may come leaves a record that it was denied,
/// with the reason and without an identity; and one from an address that is not on the list leaves
/// a second one, under the operation that its route stands for.
pub proof fn law_denied_sources_are_recorded(
    request: ControlApiRequest,
    security: ControlApiSecurityPolicy,
    active: Option<u64>,
    throttled: bool,
    route: ControlApiRoute,
)
    requires
        security.audit.enabled,
        security.ip_allowlist.matcher is Some,
        request.context is None || !security.ip_allowlist.admits(request.source_ip),
    ensures
        ({
            let records = authorization(request, security, active, throttled, route).records;
            let status = route == ControlApiRoute::Health || route == ControlApiRoute::Ready;
            &&& records.len() == if request.context is Some && !status {
                2int
            } else {
                1int
            }
            &&& forall|i: int|
                0 <= i < records.len() ==> {
                    &&& (#[trigger] records[i]).result == AdminAuditResult::Denied
                    &&& records[i].actor.id is None && records[i].actor.roles.len() == 0
                    &&& records[i].target.route == Some(route_label(route))
                    &&& records[i].generation.active_generation == active
                }
            &&& records[0].event_type == AdminAuditEventType::Auth
            &&& records.len() == 2 ==> records[1].event_type != AdminAuditEventType::Auth
        }),
{
}

} // verus!
