//! Restarts through the watchdog.
use crate::control_api::audit::{
    record_views, route_target, with_records, AdminAuditAction, AdminAuditEventType,
    AdminAuditGeneration, AdminAuditRecord, AdminAuditResult, OperationView,
};
use crate::control_api::reload::session::{audit_result, ended, AuditSession};
use crate::control_api::route::ControlApiRoute;
use crate::listener::QUICListener;
use crate::status::StatusCode;
use vstd::prelude::*;

verus! {

/// The answer to a request to restart.
#[derive(Debug)]
pub struct RestartResponse {
    pub status: StatusCode,
    pub accepted: bool,
    pub error: Option<&'static str>,
    pub restart_requested: Option<bool>,
    pub reason: Option<&'static str>,
}

pub struct RestartView {
    pub status: StatusCode,
    pub accepted: bool,
    pub error: Option<Seq<char>>,
    pub restart_requested: Option<bool>,
    pub reason: Option<Seq<char>>,
}

impl View for RestartResponse {
    type V = RestartView;

    open spec fn view(&self) -> RestartView {
        RestartView {
            status: self.status,
            accepted: self.accepted,
            error: match self.error {
                Some(error) => Some(error@),
                None => None,
            },
            restart_requested: self.restart_requested,
            reason: match self.reason {
                Some(reason) => Some(reason@),
                None => None,
            },
        }
    }
}

/// The answer where there is no watchdog.
pub open spec fn watchdog_disabled() -> RestartView {
    RestartView {
        status: StatusCode::ServiceUnavailable,
        accepted: false,
        error: Some("watchdog disabled"@),
        restart_requested: None,
        reason: None,
    }
}

/// The answer that the watchdog gives.
pub open spec fn watchdog_answer(accepted: bool, restart_requested: bool) -> RestartView {
    RestartView {
        status: if accepted {
            StatusCode::Accepted
        } else {
            StatusCode::Conflict
        },
        accepted,
        error: None,
        restart_requested: Some(restart_requested),
        reason: Some(
            if accepted {
                "admin_runtime_api"@
            } else {
                "restart pending or cooldown active"@
            },
        ),
    }
}

/// A step of a restart, for its record.
pub open spec fn restart_operation(
    action: AdminAuditAction,
    active_generation: Option<u64>,
    result: AdminAuditResult,
    reason: Seq<char>,
) -> OperationView {
    OperationView {
        event_type: AdminAuditEventType::RuntimeRestart,
        action,
        target: route_target(ControlApiRoute::Restart, None),
        generation: AdminAuditGeneration::running(active_generation),
        result,
        reason: Some(reason),
    }
}

fn emit_restart(
    session: &AuditSession<'_>,
    records: &mut Vec<AdminAuditRecord>,
    action: AdminAuditAction,
    active_generation: Option<u64>,
    result: AdminAuditResult,
    reason: &str,
)
    ensures
        with_records(
            old(records)@,
            final(records)@,
            session.record(restart_operation(action, active_generation, result, reason@)),
        ),
{
    session.emit(
        records,
        AdminAuditEventType::RuntimeRestart,
        action,
        QUICListener::control_api_audit_target_for_route(ControlApiRoute::Restart, None),
        AdminAuditGeneration::active(active_generation),
        result,
        Some(reason),
    );
}

impl QUICListener {
    /// Begins a restart: the watchdog is asked, unless it is off and the answer is known.
    pub fn begin_control_api_restart(
        session: &AuditSession<'_>,
        records: &mut Vec<AdminAuditRecord>,
        active_generation: Option<u64>,
        watchdog_enabled: bool,
    ) -> (r: Option<RestartResponse>)
        ensures
            r is None <==> watchdog_enabled,
            r matches Some(response) ==> response@ == watchdog_disabled(),
            with_records(
                old(records)@,
                final(records)@,
                session.record(
                    restart_operation(
                        AdminAuditAction::RuntimeRestartAttempt,
                        active_generation,
                        AdminAuditResult::Success,
                        "requested"@,
                    ),
                ) + if watchdog_enabled {
                    Seq::empty()
                } else {
                    session.record(
                        restart_operation(
                            AdminAuditAction::RuntimeRestartResult,
                            active_generation,
                            AdminAuditResult::Failed,
                            "watchdog_disabled"@,
                        ),
                    )
                },
            ),
    {
        emit_restart(
            session,
            records,
            AdminAuditAction::RuntimeRestartAttempt,
            active_generation,
            AdminAuditResult::Success,
            "requested",
        );
        let ghost attempted = record_views(records@);
        if watchdog_enabled {
            assert(attempted + Seq::empty() =~= attempted);
            assert(record_views(records@) =~= record_views(old(records)@) + (session.record(
                restart_operation(
                    AdminAuditAction::RuntimeRestartAttempt,
                    active_generation,
                    AdminAuditResult::Success,
                    "requested"@,
                ),
            ) + Seq::empty()));
            return None;
        }
        emit_restart(
            session,
            records,
            AdminAuditAction::RuntimeRestartResult,
            active_generation,
            AdminAuditResult::Failed,
            "watchdog_disabled",
        );
        assert(record_views(records@) =~= record_views(old(records)@) + (session.record(
            restart_operation(
                AdminAuditAction::RuntimeRestartAttempt,
                active_generation,
                AdminAuditResult::Success,
                "requested"@,
            ),
        ) + session.record(
            restart_operation(
                AdminAuditAction::RuntimeRestartResult,
                active_generation,
                AdminAuditResult::Failed,
                "watchdog_disabled"@,
            ),
        )));
        Some(
            RestartResponse {
                status: StatusCode::ServiceUnavailable,
                accepted: false,
                error: Some("watchdog disabled"),
                restart_requested: None,
                reason: None,
            },
        )
    }

    /// Ends a restart with the watchdog's answer.
    pub fn handle_control_api_restart(
        session: &AuditSession<'_>,
        records: &mut Vec<AdminAuditRecord>,
        active_generation: Option<u64>,
        accepted: bool,
        restart_requested: bool,
    ) -> (r: RestartResponse)
        ensures
            r@ == watchdog_answer(accepted, restart_requested),
            with_records(
                old(records)@,
                final(records)@,
                session.record(
                    restart_operation(
                        AdminAuditAction::RuntimeRestartResult,
                        active_generation,
                        ended(accepted),
                        if accepted {
                            "restart_requested"@
                        } else {
                            "restart_pending_or_cooldown_active"@
                        },
                    ),
                ),
            ),
    {
        emit_restart(
            session,
            records,
            AdminAuditAction::RuntimeRestartResult,
            active_generation,
            audit_result(accepted),
            if accepted {
                "restart_requested"
            } else {
                "restart_pending_or_cooldown_active"
            },
        );
        RestartResponse {
            status: if accepted {
                StatusCode::Accepted
            } else {
                StatusCode::Conflict
            },
            accepted,
            error: None,
            restart_requested: Some(restart_requested),
            reason: Some(
                if accepted {
                    "admin_runtime_api"
                } else {
                    "restart pending or cooldown active"
                },
            ),
        }
    }
}

} // verus!
