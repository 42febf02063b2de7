//! Plans: a candidate generation is validated or previewed, and nothing changes.
use crate::control_api::audit::{
    route_target, with_records, AdminAuditAction, AdminAuditEventType, AdminAuditGeneration,
    AdminAuditRecord, AdminAuditResult, OperationView,
};
use crate::control_api::reload::activate::{
    or_default, plan_path, runtime_request, ControlApiRuntimePlanRequest, RunningGeneration,
};
use crate::control_api::reload::body::ControlApiBodyError;
use crate::control_api::reload::generation::ActivationRequest;
use crate::control_api::reload::session::{audit_result, ended, AuditSession};
use crate::control_api::route::ControlApiRoute;
use crate::listener::QUICListener;
use crate::status::StatusCode;
use crate::text::{as_deref, opt, owned};
use vstd::prelude::*;

verus! {

#[derive(Debug, Clone, Copy, PartialEq, Eq, Structural)]
pub enum PlanOperation {
    Validate,
    Preview,
}

impl PlanOperation {
    pub open spec fn route(self) -> ControlApiRoute {
        match self {
            PlanOperation::Validate => ControlApiRoute::RuntimeValidate,
            PlanOperation::Preview => ControlApiRoute::RuntimePreview,
        }
    }

    pub open spec fn event(self) -> AdminAuditEventType {
        match self {
            PlanOperation::Validate => AdminAuditEventType::RuntimeValidate,
            PlanOperation::Preview => AdminAuditEventType::RuntimePreview,
        }
    }

    pub open spec fn attempt(self) -> AdminAuditAction {
        match self {
            PlanOperation::Validate => AdminAuditAction::RuntimeValidateAttempt,
            PlanOperation::Preview => AdminAuditAction::RuntimePreviewAttempt,
        }
    }

    pub open spec fn result(self) -> AdminAuditAction {
        match self {
            PlanOperation::Validate => AdminAuditAction::RuntimeValidateResult,
            PlanOperation::Preview => AdminAuditAction::RuntimePreviewResult,
        }
    }

    pub open spec fn default_reason(self) -> Seq<char> {
        match self {
            PlanOperation::Validate => "runtime_validate"@,
            PlanOperation::Preview => "runtime_preview"@,
        }
    }

    fn route_of(self) -> (r: ControlApiRoute)
        ensures
            r == self.route(),
    {
        match self {
            PlanOperation::Validate => ControlApiRoute::RuntimeValidate,
            PlanOperation::Preview => ControlApiRoute::RuntimePreview,
        }
    }

    fn event_of(self) -> (r: AdminAuditEventType)
        ensures
            r == self.event(),
    {
        match self {
            PlanOperation::Validate => AdminAuditEventType::RuntimeValidate,
            PlanOperation::Preview => AdminAuditEventType::RuntimePreview,
        }
    }

    fn attempt_of(self) -> (r: AdminAuditAction)
        ensures
            r == self.attempt(),
    {
        match self {
            PlanOperation::Validate => AdminAuditAction::RuntimeValidateAttempt,
            PlanOperation::Preview => AdminAuditAction::RuntimePreviewAttempt,
        }
    }

    fn result_of(self) -> (r: AdminAuditAction)
        ensures
            r == self.result(),
    {
        match self {
            PlanOperation::Validate => AdminAuditAction::RuntimeValidateResult,
            PlanOperation::Preview => AdminAuditAction::RuntimePreviewResult,
        }
    }

    fn reason_of(self) -> (r: &'static str)
        ensures
            r@ == self.default_reason(),
    {
        match self {
            PlanOperation::Validate => "runtime_validate",
            PlanOperation::Preview => "runtime_preview",
        }
    }
}

/// A candidate generation, as far as its record goes by it.
#[derive(Debug)]
pub struct ReloadPlan {
    pub candidate_generation: u64,
    pub primary_rejection: Option<String>,
    pub rejection_summary: Option<String>,
    pub summary: String,
}

/// Why no plan was made.
#[derive(Debug)]
pub enum PlanObstacle {
    /// There is no runtime to plan for: the route is answered as unknown.
    NoRuntime,
    /// The body is unusable.
    Body(ControlApiBodyError),
}

/// A plan that the runtime is to make.
#[derive(Debug)]
pub struct PlanAttempt {
    pub request: ActivationRequest,
    pub config_path: String,
}

/// The record of a request whose body is unusable.
pub open spec fn bad_plan_body(operation: PlanOperation, generation: u64) -> OperationView {
    OperationView {
        event_type: operation.event(),
        action: operation.result(),
        target: route_target(operation.route(), None),
        generation: AdminAuditGeneration::running(Some(generation)),
        result: AdminAuditResult::Failed,
        reason: Some("invalid_request_body"@),
    }
}

/// The record of an attempt.
pub open spec fn plan_attempt(
    operation: PlanOperation,
    plan: ControlApiRuntimePlanRequest,
    running: RunningGeneration,
) -> OperationView {
    OperationView {
        event_type: operation.event(),
        action: operation.attempt(),
        target: route_target(operation.route(), Some(plan_path(plan, running.config_path@))),
        generation: AdminAuditGeneration::running(Some(running.generation)),
        result: AdminAuditResult::Success,
        reason: or_default(opt(plan.reason), operation.default_reason()),
    }
}

/// The record of a plan.
pub open spec fn plan_result(
    operation: PlanOperation,
    config_path: Seq<char>,
    generation: u64,
    plan: ReloadPlan,
) -> OperationView {
    OperationView {
        event_type: operation.event(),
        action: operation.result(),
        target: route_target(operation.route(), Some(config_path)),
        generation: AdminAuditGeneration {
            active_generation: Some(generation),
            candidate_generation: Some(plan.candidate_generation),
            target_generation: None,
        },
        result: ended(plan.primary_rejection is None),
        reason: opt(plan.primary_rejection),
    }
}

/// What is counted and noted of a plan: the reason it was refused for, and how it is summed up.
#[derive(Debug)]
pub struct PlanNote {
    pub rejection: Option<String>,
    pub summary: String,
}

impl QUICListener {
    /// Begins a plan: what the runtime is asked for, with the attempt recorded. `running` is absent
    /// where there is no runtime.
    pub fn begin_control_api_runtime_plan(
        session: &AuditSession<'_>,
        records: &mut Vec<AdminAuditRecord>,
        operation: PlanOperation,
        running: Option<&RunningGeneration>,
        body: Result<ControlApiRuntimePlanRequest, ControlApiBodyError>,
        now_ms: u64,
    ) -> (r: Result<PlanAttempt, PlanObstacle>)
        ensures
            match (running, body) {
                (None, _) => r matches Err(PlanObstacle::NoRuntime) && final(records)@ == old(
                    records,
                )@,
                (Some(running), Err(error)) => r == Err::<PlanAttempt, PlanObstacle>(
                    PlanObstacle::Body(error),
                ) && with_records(
                    old(records)@,
                    final(records)@,
                    session.record(bad_plan_body(operation, running.generation)),
                ),
                (Some(running), Ok(plan)) => r matches Ok(attempt) && {
                    &&& attempt.request@ == runtime_request(
                        plan,
                        running.generation,
                        operation.default_reason(),
                        now_ms,
                    )
                    &&& attempt.config_path@ == plan_path(plan, running.config_path@)
                    &&& with_records(
                        old(records)@,
                        final(records)@,
                        session.record(plan_attempt(operation, plan, *running)),
                    )
                },
            },
    {
        let running = match running {
            Some(running) => running,
            None => {
                return Err(PlanObstacle::NoRuntime);
            },
        };
        let plan = match body {
            Ok(plan) => plan,
            Err(error) => {
                session.emit(
                    records,
                    operation.event_of(),
                    operation.result_of(),
                    Self::control_api_audit_target_for_route(operation.route_of(), None),
                    AdminAuditGeneration::active(Some(running.generation)),
                    AdminAuditResult::Failed,
                    Some("invalid_request_body"),
                );
                return Err(PlanObstacle::Body(error));
            },
        };
        let request = Self::control_api_activation_request(
            &plan,
            running.generation,
            operation.reason_of(),
            now_ms,
        );
        let config_path = Self::control_api_reload_config_input(running, &plan);
        session.emit(
            records,
            operation.event_of(),
            operation.attempt_of(),
            Self::control_api_audit_target_for_route(
                operation.route_of(),
                Some(config_path.clone()),
            ),
            AdminAuditGeneration::active(Some(running.generation)),
            AdminAuditResult::Success,
            as_deref(&request.reason),
        );
        Ok(PlanAttempt { request, config_path })
    }

    /// Answers a validation with the plan that the runtime made, refused or not.
    pub fn handle_control_api_runtime_validate(
        session: &AuditSession<'_>,
        records: &mut Vec<AdminAuditRecord>,
        config_path: &str,
        generation: u64,
        plan: ReloadPlan,
    ) -> (r: (StatusCode, ReloadPlan))
        ensures
            r.0 == StatusCode::Success,
            r.1 == plan,
            with_records(
                old(records)@,
                final(records)@,
                session.record(plan_result(PlanOperation::Validate, config_path@, generation, plan)),
            ),
    {
        let operation = PlanOperation::Validate;
        Self::finish_control_api_runtime_plan(
            session,
            records,
            operation,
            config_path,
            generation,
            &plan,
        );
        (StatusCode::Success, plan)
    }

    /// Answers a preview with the plan that the runtime made, refused or not.
    pub fn handle_control_api_runtime_preview(
        session: &AuditSession<'_>,
        records: &mut Vec<AdminAuditRecord>,
        config_path: &str,
        generation: u64,
        plan: ReloadPlan,
    ) -> (r: (StatusCode, ReloadPlan))
        ensures
            r.0 == StatusCode::Success,
            r.1 == plan,
            with_records(
                old(records)@,
                final(records)@,
                session.record(plan_result(PlanOperation::Preview, config_path@, generation, plan)),
            ),
    {
        let operation = PlanOperation::Preview;
        Self::finish_control_api_runtime_plan(
            session,
            records,
            operation,
            config_path,
            generation,
            &plan,
        );
        (StatusCode::Success, plan)
    }

    /// Records the plan that the runtime made.
    fn finish_control_api_runtime_plan(
        session: &AuditSession<'_>,
        records: &mut Vec<AdminAuditRecord>,
        operation: PlanOperation,
        config_path: &str,
        generation: u64,
        plan: &ReloadPlan,
    )
        ensures
            with_records(
                old(records)@,
                final(records)@,
                session.record(plan_result(operation, config_path@, generation, *plan)),
            ),
    {
        session.emit(
            records,
            operation.event_of(),
            operation.result_of(),
            Self::control_api_audit_target_for_route(
                operation.route_of(),
                Some(owned(config_path)),
            ),
            AdminAuditGeneration {
                active_generation: Some(generation),
                candidate_generation: Some(plan.candidate_generation),
                target_generation: None,
            },
            audit_result(plan.primary_rejection.is_none()),
            as_deref(&plan.primary_rejection),
        );
    }

    /// Sums a plan up. A refused one is summed up by why it was refused, where that is said.
    pub fn record_control_api_plan_result(plan: &ReloadPlan) -> (r: PlanNote)
        ensures
            opt(r.rejection) == opt(plan.primary_rejection),
            r.summary@ == match (plan.primary_rejection, plan.rejection_summary) {
                (Some(_), Some(summary)) => summary@,
                _ => plan.summary@,
            },
    {
        let summary = match (&plan.primary_rejection, &plan.rejection_summary) {
            (Some(_), Some(summary)) => summary.clone(),
            _ => plan.summary.clone(),
        };
        PlanNote { rejection: plan.primary_rejection.clone(), summary }
    }
}

} // verus!
