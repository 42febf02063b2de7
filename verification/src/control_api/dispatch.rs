//! The way of a request through the interface.
use crate::control_api::audit::{
    record_views, recorded, route_target, AdminAuditAction, AdminAuditEventType,
    AdminAuditGeneration, AdminAuditResult, OperationView, RecordView,
};
use crate::control_api::auth::{
    ControlApiGate, ControlApiRequest, GateDecisionView, GateOutcome, GateView,
};
use crate::control_api::identity::IdentityView;
use crate::control_api::route::ControlApiRoute;
use crate::listener::QUICListener;
use vstd::prelude::*;

verus! {

/// The generation that a route asks about.
pub open spec fn asked_generation(route: ControlApiRoute) -> Option<u64> {
    match route {
        ControlApiRoute::RuntimeHistoryGeneration(generation) => Some(generation),
        _ => None,
    }
}

/// A route shows the runtime's state.
pub open spec fn shows_runtime_state(route: ControlApiRoute) -> bool {
    match route {
        ControlApiRoute::Runtime
        | ControlApiRoute::RuntimeHistory
        | ControlApiRoute::RuntimeHistoryGeneration(_) => true,
        _ => false,
    }
}

/// What is recorded of a request that was let through, before it is served: that the runtime's state
/// was read. The other routes record themselves.
pub open spec fn read_records(
    request: ControlApiRequest,
    enabled: bool,
    active_generation: Option<u64>,
    route: ControlApiRoute,
    identity: Option<IdentityView>,
) -> Seq<RecordView> {
    if shows_runtime_state(route) {
        recorded(
            enabled,
            identity,
            request.context_view(),
            OperationView {
                event_type: AdminAuditEventType::RuntimeSnapshot,
                action: AdminAuditAction::RuntimeSnapshotRead,
                target: route_target(route, None),
                generation: AdminAuditGeneration {
                    active_generation,
                    candidate_generation: None,
                    target_generation: asked_generation(route),
                },
                result: AdminAuditResult::Success,
                reason: None,
            },
        )
    } else {
        Seq::empty()
    }
}

/// The decision on a request, with the reading of the runtime's state recorded behind it.
pub open spec fn dispatched(
    gated: GateView,
    request: ControlApiRequest,
    enabled: bool,
    active_generation: Option<u64>,
) -> GateView {
    match gated.decision {
        GateDecisionView::Passed { route, identity } => GateView {
            records: gated.records + read_records(
                request,
                enabled,
                active_generation,
                route,
                identity,
            ),
            ..gated
        },
        _ => gated,
    }
}

impl QUICListener {
    /// Decides on a request and records what is read. A request that is let through is then served
    /// by its route.
    pub fn handle_control_api_request(
        request: &ControlApiRequest,
        gate: &ControlApiGate<'_>,
        throttled: bool,
    ) -> (r: GateOutcome)
        requires
            gate.security.wf(),
        ensures
            r@ == dispatched(
                crate::control_api::auth::gate(
                    *request,
                    *gate.security,
                    *gate.paths,
                    gate.active_generation,
                    throttled,
                ),
                *request,
                gate.security.audit.enabled,
                gate.active_generation,
            ),
    {
        let outcome = Self::gate_control_api_request(request, gate, throttled);
        let ghost decided = outcome@;
        let mut records = outcome.records;
        if let Ok(passed) = &outcome.decision {
            let route = passed.route;
            let (reads, target_generation): (bool, Option<u64>) = match route {
                ControlApiRoute::Runtime | ControlApiRoute::RuntimeHistory => (true, None),
                ControlApiRoute::RuntimeHistoryGeneration(generation) => (true, Some(generation)),
                _ => (false, None),
            };
            let ghost before = record_views(records@);
            if reads {
                let identity = match &passed.identity {
                    Some(identity) => Some(identity),
                    None => None,
                };
                Self::emit_control_api_audit_event(
                    &gate.security.audit,
                    &mut records,
                    identity,
                    request.context_ref(),
                    AdminAuditEventType::RuntimeSnapshot,
                    AdminAuditAction::RuntimeSnapshotRead,
                    Self::control_api_audit_target_for_route(route, None),
                    AdminAuditGeneration {
                        active_generation: gate.active_generation,
                        candidate_generation: None,
                        target_generation,
                    },
                    AdminAuditResult::Success,
                    None,
                );
            } else {
                assert(before + Seq::empty() =~= before);
            }
        }
        GateOutcome { decision: outcome.decision, records, throttle: outcome.throttle }
    }
}

} // verus!
