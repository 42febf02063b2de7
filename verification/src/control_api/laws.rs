//! What holds of every request to the interface.
use crate::control_api::audit::{
    failure_class, recorded, AdminAuditEventType, AdminAuditResult, OperationView,
};
use crate::control_api::auth::{
    authentication, authorization, has_certificate, role_suffices, source_refusal, token_match,
    AuthenticationView, AuthErrorView, ControlApiRequest, ThrottleAction,
};
use crate::control_api::identity::{
    ascending, dual_actor, effective_roles, highest_role, principals, AdminRole, IdentityView,
    MtlsView, TokenView,
};
use crate::control_api::reload::generation::{
    activation_status, refused_as, reload_status, rollback_status, target_missing, GenerationStatus,
    RejectedChange, RejectedChangeKind,
};
use crate::control_api::route::{
    required_role, route_of, ControlApiPaths, ControlApiRoute, Method,
};
use crate::control_api::security::{
    ControlApiAuthorizationPolicy, ControlApiBearerTokenEntry, ControlApiClientAuthMode,
    ControlApiSecurityPolicy,
};
use crate::status::StatusCode;
use vstd::prelude::*;

verus! {

/// The highest of some roles is one of them, and none is higher.
proof fn lemma_highest(roles: Seq<AdminRole>)
    ensures
        highest_role(roles) is None <==> roles.len() == 0,
        highest_role(roles) matches Some(best) ==> roles.contains(best) && forall|i: int|
            0 <= i < roles.len() ==> (#[trigger] roles[i]).rank() <= best.rank(),
    decreases roles.len(),
{
    if roles.len() > 0 {
        let before = roles.drop_last();
        lemma_highest(before);
        assert(roles[roles.len() - 1] == roles.last());
        let best = highest_role(roles)->0;
        if highest_role(before) is Some && highest_role(before)->0 == best {
            let k = choose|k: int| 0 <= k < before.len() && before[k] == best;
            assert(roles[k] == best);
        }
        assert forall|i: int| 0 <= i < roles.len() implies (#[trigger] roles[i]).rank()
            <= best.rank() by {
            if i < before.len() {
                assert(before[i] == roles[i]);
            }
        }
    }
}

/// An operator who brings both a token and a certificate has one role: never more than the token
/// gives, and never more than the certificate gives where it gives any.
pub proof fn law_two_proofs_never_raise_a_role(token: TokenView, mtls: MtlsView)
    ensures
        effective_roles(Some(token), Some(mtls)).len() == 1,
        effective_roles(Some(token), Some(mtls))[0].rank() <= token.role.rank(),
        mtls.roles.len() > 0 ==> exists|i: int|
            0 <= i < mtls.roles.len() && effective_roles(Some(token), Some(mtls))[0].rank() <= (
            #[trigger] mtls.roles[i]).rank(),
{
    lemma_highest(mtls.roles);
    if mtls.roles.len() > 0 {
        let best = highest_role(mtls.roles)->0;
        let k = choose|k: int| 0 <= k < mtls.roles.len() && mtls.roles[k] == best;
        assert(effective_roles(Some(token), Some(mtls))[0].rank() <= mtls.roles[k].rank());
    }
}

/// A certificate alone gives exactly the roles that it names.
pub proof fn law_certificate_gives_its_roles(mtls: MtlsView, role: AdminRole)
    ensures
        effective_roles(None, Some(mtls)).contains(role) <==> mtls.roles.contains(role),
{
    let all = ascending(mtls.roles);
    if mtls.roles.contains(AdminRole::Viewer) {
        assert(all[0] == AdminRole::Viewer);
    }
    if mtls.roles.contains(AdminRole::Admin) {
        assert(all[all.len() - 1] == AdminRole::Admin);
    }
    if mtls.roles.contains(AdminRole::Operator) {
        let k: int = if mtls.roles.contains(AdminRole::Viewer) { 1 } else { 0 };
        assert(all[k] == AdminRole::Operator);
    }
}

/// Beside a certificate, a token's name counts only where the certificate bears it out; and no name
/// comes from nowhere.
pub proof fn law_names_are_borne_out(
    token: Option<Seq<char>>,
    own: Option<Seq<char>>,
    mtls: MtlsView,
)
    ensures
        dual_actor(token, own, Some(mtls)) matches Some(name) ==> {
            ||| own == Some(name)
            ||| (token == Some(name) && principals(mtls).contains(name))
        },
{
}

/// More privilege never takes access away.
pub proof fn law_access_grows_with_roles(
    roles: Seq<AdminRole>,
    more: Seq<AdminRole>,
    required: AdminRole,
)
    requires
        role_suffices(roles, required),
        forall|i: int|
            0 <= i < roles.len() ==> exists|k: int|
                0 <= k < more.len() && (#[trigger] more[k]).rank() >= (#[trigger] roles[i]).rank(),
    ensures
        role_suffices(more, required),
{
    let i = choose|i: int| 0 <= i < roles.len() && (#[trigger] roles[i]).rank() >= required.rank();
    let k = choose|k: int| 0 <= k < more.len() && (#[trigger] more[k]).rank() >= roles[i].rank();
    assert(more[k].rank() >= required.rank());
}

/// A refused request is answered with one of three statuses; only a held-off one is told when to
/// come back; and operations that answer whether they were done say that they were not.
pub proof fn law_refusals_are_answered(
    request: ControlApiRequest,
    security: ControlApiSecurityPolicy,
    active_generation: Option<u64>,
    throttled: bool,
    route: ControlApiRoute,
)
    requires
        authorization(request, security, active_generation, throttled, route).decision is Err,
    ensures
        authorization(request, security, active_generation, throttled, route).decision matches Err(
            error,
        ) && {
            &&& error.status == StatusCode::Unauthorized || error.status == StatusCode::Forbidden
                || error.status == StatusCode::TooManyRequests
            &&& error.retry_after_seconds is Some <==> error.status == StatusCode::TooManyRequests
            &&& error.reloaded == (if route == ControlApiRoute::ReloadCerts || route
                == ControlApiRoute::ReloadRuntime {
                Some(false)
            } else {
                None
            })
            &&& error.accepted == (if route == ControlApiRoute::Restart {
                Some(false)
            } else {
                None
            })
        },
{
}

/// A request that is let through to a protected route comes from an admitted address, was not held
/// off, and its sender is known and has the role that the route asks for.
pub proof fn law_passed_requests_are_authorized(
    request: ControlApiRequest,
    security: ControlApiSecurityPolicy,
    active_generation: Option<u64>,
    throttled: bool,
    route: ControlApiRoute,
)
    requires
        authorization(request, security, active_generation, throttled, route).decision is Ok,
        required_role(route, security.authorization) is Some,
    ensures
        security.ip_allowlist.matcher is Some ==> request.context is Some
            && security.ip_allowlist.admits(request.source_ip),
        request.context is Some ==> !throttled,
        authorization(request, security, active_generation, throttled, route).decision matches Ok(
            Some(identity),
        ) && {
            &&& role_suffices(identity.roles, required_role(route, security.authorization)->0)
            &&& authentication(request.headers.entries@, request.context_view(), security)
                == AuthenticationView::Authenticated(identity)
        },
        security.client_auth.mode == ControlApiClientAuthMode::Required ==> has_certificate(
            request.context_view(),
        ),
{
}

/// A route that asks for no role is open to whoever comes from an admitted address, and nothing is
/// recorded of that.
pub proof fn law_open_routes_need_no_credentials(
    request: ControlApiRequest,
    security: ControlApiSecurityPolicy,
    active_generation: Option<u64>,
    throttled: bool,
    route: ControlApiRoute,
)
    requires
        required_role(route, security.authorization) is None,
        security.ip_allowlist.matcher is None || (request.context is Some
            && security.ip_allowlist.admits(request.source_ip)),
    ensures
        authorization(request, security, active_generation, throttled, route).decision == Ok::<
            Option<IdentityView>,
            AuthErrorView,
        >(None),
        authorization(request, security, active_generation, throttled, route).records.len() == 0,
{
}

/// Only the status routes can be open: every route that shows or changes the runtime asks for a
/// role.
pub proof fn law_runtime_routes_are_protected(
    route: ControlApiRoute,
    policy: ControlApiAuthorizationPolicy,
)
    ensures
        required_role(route, policy) is None ==> route == ControlApiRoute::Health || route
            == ControlApiRoute::Ready,
{
}

/// Where a request comes from is judged before anything that it says: two requests over the same
/// connection from the same address get the same refusal, whatever their headers.
pub proof fn law_source_is_judged_first(
    a: ControlApiRequest,
    b: ControlApiRequest,
    security: ControlApiSecurityPolicy,
    active_generation: Option<u64>,
    throttled: bool,
    route: ControlApiRoute,
)
    requires
        a.context_view() == b.context_view(),
        a.source_ip == b.source_ip,
        source_refusal(a, security, route, active_generation) is Some,
    ensures
        authorization(a, security, active_generation, throttled, route) == authorization(
            b,
            security,
            active_generation,
            throttled,
            route,
        ),
{
    assert((a.context is Some) == (b.context is Some));
}

/// The throttle is told of the connection's address and no other, of a failure exactly where
/// credentials were refused, and of nothing where they were not looked at.
pub proof fn law_throttle_goes_by_the_connection(
    request: ControlApiRequest,
    security: ControlApiSecurityPolicy,
    active_generation: Option<u64>,
    throttled: bool,
    route: ControlApiRoute,
)
    ensures
        ({
            let outcome = authorization(request, security, active_generation, throttled, route);
            &&& outcome.throttle matches ThrottleAction::RecordFailure(ip)
                ==> request.context matches Some(context) && context.peer_addr.ip == ip
            &&& outcome.throttle matches ThrottleAction::RecordSuccess(ip)
                ==> request.context matches Some(context) && context.peer_addr.ip == ip
            &&& request.context is Some && (outcome.decision matches Err(error) && error.status
                == StatusCode::Unauthorized) <==> outcome.throttle is RecordFailure
            &&& (outcome.decision matches Err(error) && error.status
                == StatusCode::TooManyRequests) ==> outcome.throttle == ThrottleAction::Nothing
        }),
{
}

/// Where operations are recorded, every request that is refused leaves a record, unless its sender
/// is held off; and the record of refused credentials says that they were denied.
pub proof fn law_refusals_are_recorded(
    request: ControlApiRequest,
    security: ControlApiSecurityPolicy,
    active_generation: Option<u64>,
    throttled: bool,
    route: ControlApiRoute,
)
    requires
        security.audit.enabled,
        authorization(request, security, active_generation, throttled, route).decision matches Err(
            error,
        ) && error.status != StatusCode::TooManyRequests,
    ensures
        authorization(request, security, active_generation, throttled, route).records.len() > 0,
        authorization(request, security, active_generation, throttled, route).decision matches Err(
            error,
        ) && (error.status == StatusCode::Unauthorized ==> authorization(
            request,
            security,
            active_generation,
            throttled,
            route,
        ).records[0].result == AdminAuditResult::Denied),
{
}

/// Where nothing is to be recorded, nothing is.
pub proof fn law_disabled_audit_records_nothing(
    request: ControlApiRequest,
    security: ControlApiSecurityPolicy,
    active_generation: Option<u64>,
    throttled: bool,
    route: ControlApiRoute,
)
    requires
        !security.audit.enabled,
    ensures
        authorization(request, security, active_generation, throttled, route).records.len() == 0,
{
    let context = request.context_view();
    assert forall|identity: Option<IdentityView>, operation: OperationView|
        #[trigger] recorded(false, identity, context, operation).len() == 0 by {}
}

/// A failure has a class, a success has none.
pub proof fn law_failures_have_a_class(
    event_type: AdminAuditEventType,
    result: AdminAuditResult,
    reason: Option<Seq<char>>,
)
    ensures
        failure_class(event_type, result, reason) is None <==> result == AdminAuditResult::Success,
{
}

/// Of several entries with one token the last counts; and a token matches exactly where an entry
/// has it.
pub proof fn law_last_entry_counts(
    provided: Seq<char>,
    entries: Seq<ControlApiBearerTokenEntry>,
    last: ControlApiBearerTokenEntry,
)
    ensures
        last.token@ == provided ==> token_match(provided, entries.push(last)) == Some(
            TokenView { actor_id: crate::text::opt(last.actor_id), role: last.role },
        ),
        last.token@ != provided ==> token_match(provided, entries.push(last)) == token_match(
            provided,
            entries,
        ),
{
    assert(entries.push(last).drop_last() =~= entries);
}

/// A token matches exactly where an entry has it.
pub proof fn law_known_tokens_match(
    provided: Seq<char>,
    entries: Seq<ControlApiBearerTokenEntry>,
)
    ensures
        token_match(provided, entries) is Some <==> exists|i: int|
            0 <= i < entries.len() && (#[trigger] entries[i]).token@ == provided,
    decreases entries.len(),
{
    if entries.len() > 0 {
        let before = entries.drop_last();
        law_known_tokens_match(provided, before);
        if entries.last().token@ == provided {
            assert(entries[entries.len() - 1].token@ == provided);
        } else {
            if exists|i: int| 0 <= i < entries.len() && (#[trigger] entries[i]).token@ == provided {
                let i = choose|i: int|
                    0 <= i < entries.len() && (#[trigger] entries[i]).token@ == provided;
                assert(before[i].token@ == provided);
            }
            if exists|i: int| 0 <= i < before.len() && (#[trigger] before[i]).token@ == provided {
                let i = choose|i: int|
                    0 <= i < before.len() && (#[trigger] before[i]).token@ == provided;
                assert(entries[i].token@ == provided);
            }
        }
    }
}

/// Reading and changing are kept apart: a request to read has no route that changes anything, and
/// other methods have no route.
pub proof fn law_methods_are_kept_apart(path: Seq<char>, paths: ControlApiPaths)
    ensures
        route_of(Method::Other, path, paths) is None,
        route_of(Method::Get, path, paths) matches Some(route) ==> match route {
            ControlApiRoute::Health
            | ControlApiRoute::Ready
            | ControlApiRoute::Runtime
            | ControlApiRoute::RuntimeHistory
            | ControlApiRoute::RuntimeHistoryGeneration(_) => true,
            _ => false,
        },
        route_of(Method::Post, path, paths) matches Some(route) ==> match route {
            ControlApiRoute::RuntimeValidate
            | ControlApiRoute::RuntimePreview
            | ControlApiRoute::RuntimeActivate
            | ControlApiRoute::RuntimeRollback
            | ControlApiRoute::ReloadCerts
            | ControlApiRoute::ReloadRuntime
            | ControlApiRoute::Restart => true,
            _ => false,
        },
{
}

/// An invalid configuration is the operator's fault on every route; and the routes differ only in
/// what they make of a runtime that is not as expected.
pub proof fn law_refused_operations_have_a_status(
    changes: Seq<RejectedChange>,
    status: GenerationStatus,
)
    ensures
        refused_as(changes, RejectedChangeKind::InvalidConfiguration) ==> {
            &&& activation_status(changes, status) == StatusCode::BadRequest
            &&& reload_status(changes, status) == StatusCode::BadRequest
            &&& rollback_status(changes, status) == StatusCode::BadRequest
        },
        !refused_as(changes, RejectedChangeKind::RuntimeStateUnavailable) ==> {
            &&& reload_status(changes, status) == activation_status(changes, status)
            &&& rollback_status(changes, status) == activation_status(changes, status)
        },
        rollback_status(changes, status) == StatusCode::NotFound ==> target_missing(changes),
{
}

} // verus!
