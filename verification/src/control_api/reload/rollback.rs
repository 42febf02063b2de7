//! Rollbacks to an earlier generation.
use crate::control_api::audit::{
    route_target, with_records, AdminAuditAction, AdminAuditEventType, AdminAuditGeneration,
    AdminAuditRecord, AdminAuditResult, OperationView,
};
use crate::control_api::reload::activate::{
    authorization_current, is_authorization_current, or_default,
    ControlApiAuthorizationGeneration,
};
use crate::control_api::reload::body::ControlApiBodyError;
use crate::control_api::reload::generation::{
    refusal_text, rollback_error, rollback_result_status, rollback_status, RollbackRequest,
    RollbackResult,
};
use crate::control_api::reload::session::{audit_result, ended, AuditSession};
use crate::control_api::route::ControlApiRoute;
use crate::listener::QUICListener;
use crate::status::StatusCode;
use crate::text::{opt, owned};
use vstd::prelude::*;

verus! {

/// What a request to roll back asks for.
#[derive(Debug)]
pub struct ControlApiRuntimeRollbackPayload {
    pub target_generation: u64,
    pub requested_by: Option<String>,
    pub reason: Option<String>,
    pub expected_active_generation: Option<u64>,
}

/// Why no rollback was tried.
#[derive(Debug)]
pub enum RollbackObstacle {
    /// There is no runtime to act on: the route is answered as unknown.
    NoRuntime,
    /// The body is unusable.
    Body(ControlApiBodyError),
    /// The authorization was given under other generations than the current ones.
    StaleAuthorization,
}

/// The record of a request whose body is unusable.
pub open spec fn bad_rollback_body() -> OperationView {
    OperationView {
        event_type: AdminAuditEventType::RuntimeRollback,
        action: AdminAuditAction::RuntimeRollbackResult,
        target: route_target(ControlApiRoute::RuntimeRollback, None),
        generation: AdminAuditGeneration::running(None),
        result: AdminAuditResult::Failed,
        reason: Some("invalid_request_body"@),
    }
}

/// The record of an attempt.
pub open spec fn rollback_attempt(
    payload: ControlApiRuntimeRollbackPayload,
    current_generation: u64,
) -> OperationView {
    OperationView {
        event_type: AdminAuditEventType::RuntimeRollback,
        action: AdminAuditAction::RuntimeRollbackAttempt,
        target: route_target(ControlApiRoute::RuntimeRollback, None),
        generation: AdminAuditGeneration {
            active_generation: Some(current_generation),
            candidate_generation: None,
            target_generation: Some(payload.target_generation),
        },
        result: AdminAuditResult::Success,
        reason: or_default(opt(payload.reason), "runtime_rollback"@),
    }
}

/// The request to the runtime is the one that the payload stands for.
pub open spec fn stands_for(
    request: RollbackRequest,
    payload: ControlApiRuntimeRollbackPayload,
    now_ms: u64,
) -> bool {
    &&& request.target_generation == payload.target_generation
    &&& opt(request.requested_by) == or_default(opt(payload.requested_by), "control_api"@)
    &&& opt(request.trigger_source) == Some("control_api"@)
    &&& opt(request.reason) == or_default(opt(payload.reason), "runtime_rollback"@)
    &&& request.expected_active_generation == payload.expected_active_generation
    &&& request.requested_at_ms == now_ms
}

/// The reason that a rollback's end is recorded under.
pub open spec fn rollback_reason(rollback: RollbackResult) -> Seq<char> {
    match rollback.verdict.primary_rejection {
        Some(reason) => reason@,
        None => rollback.verdict.outcome@,
    }
}

/// The record of a rollback's end.
pub open spec fn rollback_result(rollback: RollbackResult) -> OperationView {
    OperationView {
        event_type: AdminAuditEventType::RuntimeRollback,
        action: AdminAuditAction::RuntimeRollbackResult,
        target: route_target(ControlApiRoute::RuntimeRollback, None),
        generation: AdminAuditGeneration {
            active_generation: Some(rollback.active_generation),
            candidate_generation: rollback.rolled_back_to,
            target_generation: Some(rollback.request.target_generation),
        },
        result: ended(rollback.verdict.succeeded),
        reason: Some(rollback_reason(rollback)),
    }
}

/// The answer to a rollback.
#[derive(Debug)]
pub enum RollbackResponse {
    /// The rollback, as the runtime reports it.
    RolledBack(RollbackResult),
    /// A refused rollback, with what it is refused for.
    Refused { status: StatusCode, error: String, rollback: RollbackResult },
}

impl RollbackResponse {
    pub open spec fn status_code(self) -> StatusCode {
        match self {
            RollbackResponse::RolledBack(_) => StatusCode::Accepted,
            RollbackResponse::Refused { status, .. } => status,
        }
    }

    /// The status of the answer.
    pub fn status(&self) -> (r: StatusCode)
        ensures
            r == self.status_code(),
    {
        match self {
            RollbackResponse::RolledBack(_) => StatusCode::Accepted,
            RollbackResponse::Refused { status, .. } => *status,
        }
    }
}

/// What is counted of a rollback's end.
#[derive(Debug)]
pub struct RollbackObservation {
    pub outcome: String,
    pub rejection: Option<String>,
}

impl QUICListener {
    /// Begins a rollback: what the runtime is asked to do, with the attempt recorded. The
    /// generation is absent where there is no runtime.
    pub fn begin_control_api_runtime_rollback(
        session: &AuditSession<'_>,
        records: &mut Vec<AdminAuditRecord>,
        current_generation: Option<u64>,
        body: Result<ControlApiRuntimeRollbackPayload, ControlApiBodyError>,
        given: Option<ControlApiAuthorizationGeneration>,
        current: ControlApiAuthorizationGeneration,
        now_ms: u64,
    ) -> (r: Result<RollbackRequest, RollbackObstacle>)
        ensures
            match (current_generation, body) {
                (None, _) => r matches Err(RollbackObstacle::NoRuntime) && final(records)@ == old(
                    records,
                )@,
                (Some(_), Err(error)) => r == Err::<RollbackRequest, RollbackObstacle>(
                    RollbackObstacle::Body(error),
                ) && with_records(
                    old(records)@,
                    final(records)@,
                    session.record(bad_rollback_body()),
                ),
                (Some(generation), Ok(payload)) => if authorization_current(given, current) {
                    r matches Ok(request) && stands_for(request, payload, now_ms) && with_records(
                        old(records)@,
                        final(records)@,
                        session.record(rollback_attempt(payload, generation)),
                    )
                } else {
                    r matches Err(RollbackObstacle::StaleAuthorization) && final(records)@ == old(
                        records,
                    )@
                },
            },
    {
        let generation: u64 = match current_generation {
            Some(generation) => generation,
            None => {
                return Err(RollbackObstacle::NoRuntime);
            },
        };
        let payload = match body {
            Ok(payload) => payload,
            Err(error) => {
                session.emit(
                    records,
                    AdminAuditEventType::RuntimeRollback,
                    AdminAuditAction::RuntimeRollbackResult,
                    Self::control_api_audit_target_for_route(
                        ControlApiRoute::RuntimeRollback,
                        None,
                    ),
                    AdminAuditGeneration::active(None),
                    AdminAuditResult::Failed,
                    Some("invalid_request_body"),
                );
                return Err(RollbackObstacle::Body(error));
            },
        };
        if !is_authorization_current(given, current) {
            return Err(RollbackObstacle::StaleAuthorization);
        }
        let reason = match payload.reason {
            Some(reason) => reason,
            None => owned("runtime_rollback"),
        };
        session.emit(
            records,
            AdminAuditEventType::RuntimeRollback,
            AdminAuditAction::RuntimeRollbackAttempt,
            Self::control_api_audit_target_for_route(ControlApiRoute::RuntimeRollback, None),
            AdminAuditGeneration {
                active_generation: Some(generation),
                candidate_generation: None,
                target_generation: Some(payload.target_generation),
            },
            AdminAuditResult::Success,
            Some(reason.as_str()),
        );
        let requested_by = match payload.requested_by {
            Some(by) => by,
            None => owned("control_api"),
        };
        Ok(
            RollbackRequest {
                target_generation: payload.target_generation,
                requested_by: Some(requested_by),
                trigger_source: Some(owned("control_api")),
                reason: Some(reason),
                expected_active_generation: payload.expected_active_generation,
                requested_at_ms: now_ms,
            },
        )
    }

    /// Ends a rollback with what the runtime says of it.
    pub fn handle_control_api_runtime_rollback(
        session: &AuditSession<'_>,
        records: &mut Vec<AdminAuditRecord>,
        rollback: RollbackResult,
    ) -> (r: RollbackResponse)
        ensures
            with_records(
                old(records)@,
                final(records)@,
                session.record(rollback_result(rollback)),
            ),
            r.status_code() == if rollback.verdict.succeeded {
                StatusCode::Accepted
            } else {
                rollback_status(rollback.rejected_changes@, rollback.status)
            },
            match r {
                RollbackResponse::RolledBack(answer) => rollback.verdict.succeeded && answer
                    == rollback,
                RollbackResponse::Refused { status, error, rollback: answer } => {
                    &&& !rollback.verdict.succeeded
                    &&& status == rollback_status(rollback.rejected_changes@, rollback.status)
                    &&& error@ == refusal_text(
                        rollback.rejected_changes@,
                        rollback.history_entry.summary@,
                    )
                    &&& answer == rollback
                },
            },
    {
        let reason = match &rollback.verdict.primary_rejection {
            Some(reason) => reason.clone(),
            None => rollback.verdict.outcome.clone(),
        };
        session.emit(
            records,
            AdminAuditEventType::RuntimeRollback,
            AdminAuditAction::RuntimeRollbackResult,
            Self::control_api_audit_target_for_route(ControlApiRoute::RuntimeRollback, None),
            AdminAuditGeneration {
                active_generation: Some(rollback.active_generation),
                candidate_generation: rollback.rolled_back_to,
                target_generation: Some(rollback.request.target_generation),
            },
            audit_result(rollback.verdict.succeeded),
            Some(reason.as_str()),
        );
        if rollback.verdict.succeeded {
            return RollbackResponse::RolledBack(rollback);
        }
        let status = rollback_result_status(&rollback);
        let error = owned(rollback_error(&rollback));
        RollbackResponse::Refused { status, error, rollback }
    }

    /// Gathers what is counted of a rollback's end.
    pub fn record_control_api_rollback_outcome(rollback: &RollbackResult) -> (r:
        RollbackObservation)
        ensures
            r.outcome@ == rollback.verdict.outcome@,
            opt(r.rejection) == opt(rollback.verdict.primary_rejection),
    {
        RollbackObservation {
            outcome: rollback.verdict.outcome.clone(),
            rejection: rollback.verdict.primary_rejection.clone(),
        }
    }
}

} // verus!
