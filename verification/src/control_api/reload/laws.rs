//! What holds of every operation on the running generation.
use crate::control_api::audit::{
    AdminAuditAction, AdminAuditEventType, AdminAuditResult, OperationView, RecordView,
};
use crate::control_api::reload::activate::{
    activation_reason, attempt_operation, authorization_current, bad_body_operation,
    failed_provider, latest, material_outcome, names_reason, observes_secrets, outcome_records,
    plan_path, result_operation, runtime_request, ActivationKind, ActivationObstacle,
    ActivationResponse, ControlApiAuthorizationGeneration, ControlApiRuntimePlanRequest,
    RunningGeneration, SecretObservation, UpstreamMtlsMaterialOutcome,
};
use crate::control_api::reload::body::{invalid_body, missing_body, oversized_body};
use crate::control_api::reload::certs::{
    all_built, failed_listeners, failure_views, generation_of, last_loaded, reported_failed,
    reported_reloaded, CertReloadResponse, ListenerFailure, ListenerReload, ListenerReloaded,
};
use crate::control_api::reload::compatibility::{
    added, compatibility_rejections, control_api_rejection, first_rejection,
    first_removed, listener_rejection, metrics_rejection, pushed_if, restart_rejections,
    startup_changes, ControlApiPreflight, EndpointSettings, ListenerPreflight, MetricsPreflight,
    RejectionView, StartupSettings,
};
use crate::control_api::reload::generation::{
    activation_status, refusal_text, reload_status, rollback_status,
    ActivationResult, GenerationStatus, RejectedChange, RejectedChangeKind, RollbackRequest,
    RollbackResult, RuntimeRejectionReason,
};
use crate::control_api::reload::plan::{
    bad_plan_body, plan_attempt, plan_result, PlanOperation, ReloadPlan,
};
use crate::control_api::reload::probes::{
    first_stop, reload_items, reload_step, socket_items, verdict_of, ItemView, ProbeKind, ProbeView,
    ReloadTransition, StepView,
};
use crate::control_api::reload::restart::{
    restart_operation, watchdog_answer, watchdog_disabled,
};
use crate::control_api::reload::rollback::{
    bad_rollback_body, rollback_attempt, rollback_reason, rollback_result, stands_for,
    ControlApiRuntimeRollbackPayload, RollbackResponse,
};
use crate::control_api::reload::session::{ended, AuditSession};
use crate::status::StatusCode;
use crate::text::{contains_text, decimal, occurs_at, opt, texts, trimmed};
use vstd::prelude::*;

verus! {

/// A request that names a configuration file is about that file, and the record of the attempt
/// names it too; only a request that names none is about the file of the running generation.
pub proof fn law_a_named_file_is_the_one_used(
    plan: ControlApiRuntimePlanRequest,
    running: RunningGeneration,
    kind: ActivationKind,
    operation: PlanOperation,
)
    ensures
        plan.config_path matches Some(named) ==> {
            &&& plan_path(plan, running.config_path@) == named@
            &&& attempt_operation(kind, plan, running).target.config_path == Some(named@)
            &&& plan_attempt(operation, plan, running).target.config_path == Some(named@)
        },
        plan.config_path is None ==> {
            &&& plan_path(plan, running.config_path@) == running.config_path@
            &&& attempt_operation(kind, plan, running).target.config_path == Some(
                running.config_path@,
            )
            &&& plan_attempt(operation, plan, running).target.config_path == Some(
                running.config_path@,
            )
        },
{
}

/// Two requests that differ in the file that they name differ in the file that they are about.
pub proof fn law_files_are_told_apart(
    a: ControlApiRuntimePlanRequest,
    b: ControlApiRuntimePlanRequest,
    running: Seq<char>,
)
    requires
        opt(a.config_path) is Some,
        opt(b.config_path) is Some,
        opt(a.config_path) != opt(b.config_path),
    ensures
        plan_path(a, running) != plan_path(b, running),
{
}

/// A request is passed on as it was made: by whom, why, and against which generation; who did not
/// say counts as the interface itself, no reason as the operation's own, and no generation as the
/// running one.
pub proof fn law_a_request_is_passed_on_as_made(
    plan: ControlApiRuntimePlanRequest,
    generation: u64,
    reason: Seq<char>,
    now_ms: u64,
)
    ensures
        ({
            let request = runtime_request(plan, generation, reason, now_ms);
            &&& plan.requested_by matches Some(by) ==> request.requested_by == Some(by@)
            &&& plan.requested_by is None ==> request.requested_by == Some("control_api"@)
            &&& request.trigger_source == Some("control_api"@)
            &&& plan.reason matches Some(given) ==> request.reason == Some(given@)
            &&& plan.reason is None ==> request.reason == Some(reason)
            &&& plan.expected_generation matches Some(expected) ==> request.expected_generation
                == Some(expected)
            &&& plan.expected_generation is None ==> request.expected_generation == Some(generation)
            &&& request.requested_at_ms == now_ms
        }),
{
}

/// An authorization holds exactly while neither the runtime nor the listeners' certificates have
/// changed since it was given.
pub proof fn law_an_authorization_ends_with_its_generations(
    given: ControlApiAuthorizationGeneration,
    current: ControlApiAuthorizationGeneration,
)
    ensures
        authorization_current(Some(given), current) <==> given.runtime == current.runtime
            && given.listener_tls == current.listener_tls,
        !authorization_current(None, current),
{
}

/// An attempt is recorded under its own operation, against the running generation, and with the
/// reason that was given.
pub proof fn law_attempts_are_recorded_as_what_they_are(
    plan: ControlApiRuntimePlanRequest,
    running: RunningGeneration,
    kind: ActivationKind,
    operation: PlanOperation,
)
    ensures
        ({
            let started = attempt_operation(kind, plan, running);
            let planned = plan_attempt(operation, plan, running);
            let activates = kind == ActivationKind::Activate;
            let validates = operation == PlanOperation::Validate;
            &&& started.result == AdminAuditResult::Success && planned.result
                == AdminAuditResult::Success
            &&& started.generation.active_generation == Some(running.generation)
                && started.generation.candidate_generation is None
                && started.generation.target_generation is None
            &&& planned.generation == started.generation
            &&& plan.reason matches Some(reason) ==> started.reason == Some(reason@)
                && planned.reason == Some(reason@)
            &&& plan.reason is None && activates ==> started.reason == Some("runtime_activate"@)
            &&& plan.reason is None && !activates ==> started.reason == Some("runtime_reload"@)
            &&& plan.reason is None && validates ==> planned.reason == Some("runtime_validate"@)
            &&& plan.reason is None && !validates ==> planned.reason == Some("runtime_preview"@)
            &&& activates ==> started.event_type == AdminAuditEventType::RuntimeActivate
                && started.action == AdminAuditAction::RuntimeActivateAttempt
                && started.target.route == Some("/admin/runtime/activate"@)
            &&& !activates ==> started.event_type == AdminAuditEventType::RuntimeReload
                && started.action == AdminAuditAction::RuntimeReloadAttempt && started.target.route
                == Some("/admin/reload"@)
            &&& validates ==> planned.event_type == AdminAuditEventType::RuntimeValidate
                && planned.action == AdminAuditAction::RuntimeValidateAttempt
                && planned.target.route == Some("/admin/runtime/validate"@)
            &&& !validates ==> planned.event_type == AdminAuditEventType::RuntimePreview
                && planned.action == AdminAuditAction::RuntimePreviewAttempt
                && planned.target.route == Some("/admin/runtime/preview"@)
        }),
{
}

/// A request whose body cannot be used is recorded as a failed operation of its own kind, for that
/// reason, and names no file.
pub proof fn law_unusable_bodies_are_recorded(
    kind: ActivationKind,
    operation: PlanOperation,
    active: Option<u64>,
    generation: u64,
)
    ensures
        ({
            let failed = |record: OperationView|
                record.result == AdminAuditResult::Failed && record.reason == Some(
                    "invalid_request_body"@,
                ) && record.target.config_path is None && record.generation.candidate_generation
                    is None && record.generation.target_generation is None;
            let started = bad_body_operation(kind, active);
            let planned = bad_plan_body(operation, generation);
            &&& failed(started) && failed(planned) && failed(bad_rollback_body())
            &&& started.generation.active_generation == active
            &&& planned.generation.active_generation == Some(generation)
            &&& started.action == if kind == ActivationKind::Activate {
                AdminAuditAction::RuntimeActivateResult
            } else {
                AdminAuditAction::RuntimeReloadResult
            }
            &&& planned.action == if operation == PlanOperation::Validate {
                AdminAuditAction::RuntimeValidateResult
            } else {
                AdminAuditAction::RuntimePreviewResult
            }
            &&& bad_rollback_body().action == AdminAuditAction::RuntimeRollbackResult
        }),
{
}

/// A text has another one somewhere in it.
pub open spec fn mentions(text: Seq<char>, part: Seq<char>) -> bool {
    exists|before: Seq<char>, after: Seq<char>| text == #[trigger] (before + part + after)
}

/// A text contains another one exactly where it is made of something, the other one and something.
pub proof fn law_a_contained_text_is_a_part(text: Seq<char>, part: Seq<char>)
    ensures
        contains_text(text, part) <==> mentions(text, part),
{
    if contains_text(text, part) {
        let i = choose|i: int| occurs_at(text, part, i);
        let before = text.take(i);
        let after = text.skip(i + part.len());
        assert(before + part + after =~= text);
        assert(mentions(text, part));
    }
    if mentions(text, part) {
        let (before, after) = choose|before: Seq<char>, after: Seq<char>|
            text == #[trigger] (before + part + after);
        let i = before.len() as int;
        assert(text.subrange(i, i + part.len()) =~= part);
        assert(occurs_at(text, part, i));
    }
}

/// A successful activation is about secret material exactly where some entry of its difference
/// changed some; a failed one where its message says that a secret could not be resolved, or else
/// that material is invalid. The message is that of the first refused change, or the summary where
/// none was refused.
pub proof fn law_secret_material_is_told_by_the_outcome(activation: ActivationResult)
    ensures
        ({
            let outcome = material_outcome(activation);
            let entries = activation.history_entry.diff.entries@;
            let message = if activation.rejected_changes@.len() > 0 {
                activation.rejected_changes@[0].message@
            } else {
                activation.history_entry.summary@
            };
            let unresolved = mentions(message, "secret_resolution_failed"@) || mentions(
                message,
                "secret resolution failed"@,
            );
            let invalid = mentions(message, "tls_material_invalid"@) || mentions(
                message,
                "client_certificate"@,
            ) || mentions(message, "client_key"@);
            let changed = exists|i: int|
                0 <= i < entries.len() && (#[trigger] entries[i]).secret_material_changed;
            &&& activation.verdict.succeeded ==> outcome == if changed {
                Some(UpstreamMtlsMaterialOutcome::Changed)
            } else {
                None
            }
            &&& !activation.verdict.succeeded ==> outcome == if unresolved {
                Some(UpstreamMtlsMaterialOutcome::ResolutionFailed)
            } else if invalid {
                Some(UpstreamMtlsMaterialOutcome::Invalid)
            } else {
                None
            }
            &&& outcome == Some(UpstreamMtlsMaterialOutcome::Changed) ==> activation_reason(
                activation,
            ) == "upstream_mtls_material_changed"@
            &&& outcome == Some(UpstreamMtlsMaterialOutcome::ResolutionFailed)
                ==> activation_reason(activation) == "secret_resolution_failed"@
            &&& outcome == Some(UpstreamMtlsMaterialOutcome::Invalid) ==> activation_reason(
                activation,
            ) == "upstream_mtls_material_invalid"@
            &&& outcome is None ==> activation_reason(activation)
                == match activation.verdict.primary_rejection {
                Some(reason) => reason@,
                None => activation.verdict.outcome@,
            }
        }),
{
    let message = refusal_text(activation.rejected_changes@, activation.history_entry.summary@);
    law_a_contained_text_is_a_part(message, "secret_resolution_failed"@);
    law_a_contained_text_is_a_part(message, "secret resolution failed"@);
    law_a_contained_text_is_a_part(message, "tls_material_invalid"@);
    law_a_contained_text_is_a_part(message, "client_certificate"@);
    law_a_contained_text_is_a_part(message, "client_key"@);
}

/// The end of an activation is recorded with the generation that now runs, the one that was built
/// and the one that was activated, as a success or a failure; and once more under its secret
/// material where it is about some.
pub proof fn law_an_activation_is_recorded_as_it_ended(
    session: AuditSession,
    kind: ActivationKind,
    config_path: Seq<char>,
    activation: ActivationResult,
)
    requires
        session.audit.enabled,
    ensures
        ({
            let records = outcome_records(session, kind, config_path, activation);
            let told = |record: RecordView|
                {
                    &&& record.result == if activation.verdict.succeeded {
                        AdminAuditResult::Success
                    } else {
                        AdminAuditResult::Failed
                    }
                    &&& record.target.config_path == Some(config_path)
                    &&& record.generation.active_generation == Some(activation.active_generation)
                    &&& record.generation.candidate_generation == Some(
                        activation.history_entry.generation,
                    )
                    &&& record.generation.target_generation == activation.activated_generation
                };
            &&& records.len() == if material_outcome(activation) is Some {
                2int
            } else {
                1int
            }
            &&& told(records[0])
            &&& records[0].action == if kind == ActivationKind::Activate {
                AdminAuditAction::RuntimeActivateResult
            } else {
                AdminAuditAction::RuntimeReloadResult
            }
            &&& records[0].event_type == if kind == ActivationKind::Activate {
                AdminAuditEventType::RuntimeActivate
            } else {
                AdminAuditEventType::RuntimeReload
            }
            &&& material_outcome(activation) matches Some(outcome) ==> {
                &&& told(records[1])
                &&& records[1].event_type == AdminAuditEventType::UpstreamMtlsMaterial
                &&& records[1].action == match outcome {
                    UpstreamMtlsMaterialOutcome::Changed => {
                        AdminAuditAction::UpstreamMtlsMaterialChanged
                    },
                    UpstreamMtlsMaterialOutcome::ResolutionFailed => {
                        AdminAuditAction::SecretResolutionFailed
                    },
                    UpstreamMtlsMaterialOutcome::Invalid => {
                        AdminAuditAction::UpstreamMtlsMaterialInvalid
                    },
                }
            }
        }),
        result_operation(kind, config_path, activation).reason == Some(
            activation_reason(activation),
        ),
{
}

/// The latest of some times is one of them, and none is later.
pub proof fn law_the_latest_time_is_the_greatest(times: Seq<u64>)
    ensures
        latest(times) is None <==> times.len() == 0,
        latest(times) matches Some(time) ==> times.contains(time) && forall|i: int|
            0 <= i < times.len() ==> #[trigger] times[i] <= time,
    decreases times.len(),
{
    if times.len() > 0 {
        let before = times.drop_last();
        law_the_latest_time_is_the_greatest(before);
        let best = latest(times)->0;
        if best == times.last() {
            assert(times[times.len() - 1] == best);
        } else {
            let k = choose|k: int| 0 <= k < before.len() && before[k] == best;
            assert(times[k] == best);
        }
        assert forall|i: int| 0 <= i < times.len() implies #[trigger] times[i] <= best by {
            if i < before.len() {
                assert(before[i] == times[i]);
            }
        }
    }
}

/// What is observed of secrets after an activation: whether any were concerned and how it ended,
/// the second of the latest load after a success, and after a failed resolution the provider and
/// the cause that stand in the message, the cause behind its last colon.
pub proof fn law_observed_secrets_are_those_of_the_outcome(
    observation: SecretObservation,
    loaded: Seq<u64>,
    activation: ActivationResult,
    cause: Seq<char>,
    i: int,
)
    requires
        observes_secrets(observation, loaded, activation),
    ensures
        observation.reload_result is Some <==> material_outcome(activation) is Some,
        observation.reload_result matches Some(result) ==> result@
            == if activation.verdict.succeeded {
            "success"@
        } else {
            "failed"@
        },
        observation.last_success_unix_seconds is Some <==> activation.verdict.succeeded
            && material_outcome(activation) is Some && loaded.len() > 0,
        observation.last_success_unix_seconds matches Some(seconds) ==> (0 <= i < loaded.len()
            ==> loaded[i] / 1000 <= seconds),
        observation.last_success_unix_seconds matches Some(seconds) ==> exists|k: int|
            0 <= k < loaded.len() && (#[trigger] loaded[k]) / 1000 == seconds,
        observation.failed_resolution is Some ==> !activation.verdict.succeeded
            && material_outcome(activation) == Some(UpstreamMtlsMaterialOutcome::ResolutionFailed),
        ({
            let message = if activation.rejected_changes@.len() > 0 {
                activation.rejected_changes@[0].message@
            } else {
                activation.history_entry.summary@
            };
            !activation.verdict.succeeded && mentions(message, "secret resolution failed"@)
                && names_reason(message, cause) ==> (observation.failed_resolution matches Some(
                (provider, told),
            ) && provider@ == failed_provider(message) && told@ == cause)
        }),
{
    let message = refusal_text(activation.rejected_changes@, activation.history_entry.summary@);
    law_a_contained_text_is_a_part(message, "secret resolution failed"@);
    if let Some((provider, told)) = observation.failed_resolution {
        law_a_failed_resolution_names_its_provider(message, cause, told@);
    }
    law_the_latest_time_is_the_greatest(loaded);
    if let Some(time) = latest(loaded) {
        let k = choose|k: int| 0 <= k < loaded.len() && loaded[k] == time;
        assert(loaded[k] / 1000 == time / 1000);
        if 0 <= i < loaded.len() {
            assert(loaded[i] <= time);
        }
    }
}

/// The provider whose secret could not be resolved is the one that the message names, and the cause
/// is what stands behind its last colon, of which there is only one.
pub proof fn law_a_failed_resolution_names_its_provider(
    error: Seq<char>,
    a: Seq<char>,
    b: Seq<char>,
)
    ensures
        mentions(error, "file secret resolution failed"@) ==> failed_provider(error) == "file"@,
        !mentions(error, "file secret resolution failed"@) && mentions(
            error,
            "literal secret resolution failed"@,
        ) ==> failed_provider(error) == "literal"@,
        !mentions(error, "file secret resolution failed"@) && !mentions(
            error,
            "literal secret resolution failed"@,
        ) ==> failed_provider(error) == "unknown"@,
        names_reason(error, a) && names_reason(error, b) ==> a == b,
{
    law_a_contained_text_is_a_part(error, "file secret resolution failed"@);
    law_a_contained_text_is_a_part(error, "literal secret resolution failed"@);
    if names_reason(error, a) && names_reason(error, b) {
        let (h1, t1) = choose|head: Seq<char>, tail: Seq<char>|
            #![trigger head.push(':') + tail]
            error == head.push(':') + tail && !tail.contains(':') && a == trimmed(tail);
        let (h2, t2) = choose|head: Seq<char>, tail: Seq<char>|
            #![trigger head.push(':') + tail]
            error == head.push(':') + tail && !tail.contains(':') && b == trimmed(tail);
        let n1 = h1.len() as int;
        let n2 = h2.len() as int;
        assert(error == h1.push(':') + t1 && error == h2.push(':') + t2);
        assert(error.len() == n1 + 1 + t1.len() && error.len() == n2 + 1 + t2.len());
        assert((h1.push(':') + t1)[n1] == ':');
        assert((h2.push(':') + t2)[n2] == ':');
        if n1 < n2 {
            assert((h1.push(':') + t1)[n2] == t1[n2 - n1 - 1]);
            assert(t1.contains(':'));
        }
        if n2 < n1 {
            assert((h2.push(':') + t2)[n1] == t2[n1 - n2 - 1]);
            assert(t2.contains(':'));
        }
        assert(t1 =~= error.skip(n1 + 1));
        assert(t2 =~= error.skip(n2 + 1));
    }
}

/// A plan's end is recorded with the running generation and the one that it would make, as a
/// failure exactly where the plan was refused, and then with the refusal.
pub proof fn law_a_plan_is_recorded_as_it_ended(
    operation: PlanOperation,
    config_path: Seq<char>,
    generation: u64,
    plan: ReloadPlan,
)
    ensures
        ({
            let end = plan_result(operation, config_path, generation, plan);
            &&& end.result == AdminAuditResult::Success <==> plan.primary_rejection is None
            &&& end.result == AdminAuditResult::Failed <==> plan.primary_rejection is Some
            &&& end.reason == opt(plan.primary_rejection)
            &&& end.target.config_path == Some(config_path)
            &&& end.generation.active_generation == Some(generation)
            &&& end.generation.candidate_generation == Some(plan.candidate_generation)
            &&& end.generation.target_generation is None
            &&& end.action == if operation == PlanOperation::Validate {
                AdminAuditAction::RuntimeValidateResult
            } else {
                AdminAuditAction::RuntimePreviewResult
            }
        }),
{
}

/// A rollback goes to the generation that was asked for, by whom and why it was asked for, and only
/// against the generation that was expected, where one was.
pub proof fn law_a_rollback_goes_where_it_was_asked_to(
    request: RollbackRequest,
    payload: ControlApiRuntimeRollbackPayload,
    current: u64,
    now_ms: u64,
)
    requires
        stands_for(request, payload, now_ms),
    ensures
        request.target_generation == payload.target_generation,
        request.expected_active_generation == payload.expected_active_generation,
        payload.requested_by matches Some(by) ==> opt(request.requested_by) == Some(by@),
        payload.requested_by is None ==> opt(request.requested_by) == Some("control_api"@),
        payload.reason matches Some(reason) ==> opt(request.reason) == Some(reason@),
        payload.reason is None ==> opt(request.reason) == Some("runtime_rollback"@),
        opt(request.trigger_source) == Some("control_api"@),
        request.requested_at_ms == now_ms,
        rollback_attempt(payload, current).generation.target_generation == Some(
            request.target_generation,
        ),
        rollback_attempt(payload, current).generation.active_generation == Some(current),
        rollback_attempt(payload, current).generation.candidate_generation is None,
        rollback_attempt(payload, current).reason == opt(request.reason),
        rollback_attempt(payload, current).result == AdminAuditResult::Success,
        rollback_attempt(payload, current).action == AdminAuditAction::RuntimeRollbackAttempt,
        rollback_attempt(payload, current).event_type == AdminAuditEventType::RuntimeRollback,
{
}

/// A rollback's end is recorded with the generation that now runs, the one that was restored and
/// the one that was asked for, as a success or a failure, with the refusal where there was one.
pub proof fn law_a_rollback_is_recorded_as_it_ended(rollback: RollbackResult)
    ensures
        ({
            let end = rollback_result(rollback);
            &&& end.result == if rollback.verdict.succeeded {
                AdminAuditResult::Success
            } else {
                AdminAuditResult::Failed
            }
            &&& end.generation.active_generation == Some(rollback.active_generation)
            &&& end.generation.candidate_generation == rollback.rolled_back_to
            &&& end.generation.target_generation == Some(rollback.request.target_generation)
            &&& end.reason == Some(rollback_reason(rollback))
            &&& rollback.verdict.primary_rejection matches Some(reason) ==> rollback_reason(
                rollback,
            ) == reason@
            &&& rollback.verdict.primary_rejection is None ==> rollback_reason(rollback)
                == rollback.verdict.outcome@
            &&& end.action == AdminAuditAction::RuntimeRollbackResult
            &&& end.event_type == AdminAuditEventType::RuntimeRollback
        }),
{
}

/// A refused operation is answered by the worst of its refusals: an invalid configuration first,
/// then what could not be prepared or has failed, then a generation that is not there, and
/// otherwise a conflict. A runtime that is not as expected fails a reload.
pub proof fn law_refusals_are_answered_by_the_worst(
    changes: Seq<RejectedChange>,
    status: GenerationStatus,
)
    ensures
        ({
            let has = |kind: RejectedChangeKind|
                exists|i: int| 0 <= i < changes.len() && (#[trigger] changes[i]).kind == kind;
            let invalid = has(RejectedChangeKind::InvalidConfiguration);
            let broken = has(RejectedChangeKind::ResourcePreparationFailed) || status
                == GenerationStatus::Failed;
            let away = has(RejectedChangeKind::RuntimeStateUnavailable);
            let missing = exists|i: int|
                0 <= i < changes.len() && (#[trigger] changes[i]).kind
                    == RejectedChangeKind::RuntimeStateUnavailable && changes[i].reason
                    == RuntimeRejectionReason::UnknownGeneration;
            &&& invalid <==> activation_status(changes, status) == StatusCode::BadRequest
            &&& invalid <==> reload_status(changes, status) == StatusCode::BadRequest
            &&& invalid <==> rollback_status(changes, status) == StatusCode::BadRequest
            &&& !invalid && broken <==> activation_status(changes, status)
                == StatusCode::InternalServerError
            &&& !invalid && (broken || away) <==> reload_status(changes, status)
                == StatusCode::InternalServerError
            &&& !invalid && broken <==> rollback_status(changes, status)
                == StatusCode::InternalServerError
            &&& !invalid && !broken && missing <==> rollback_status(changes, status)
                == StatusCode::NotFound
            &&& !invalid && !broken <==> activation_status(changes, status) == StatusCode::Conflict
            &&& !invalid && !broken && !away <==> reload_status(changes, status)
                == StatusCode::Conflict
            &&& !invalid && !broken && !missing <==> rollback_status(changes, status)
                == StatusCode::Conflict
        }),
{
}

/// A refusal is put in the words of the first change that was refused, or of the summary where no
/// single change was.
pub proof fn law_the_first_refused_change_speaks(changes: Seq<RejectedChange>, summary: Seq<char>)
    ensures
        changes.len() > 0 ==> refusal_text(changes, summary) == changes[0].message@,
        changes.len() == 0 ==> refusal_text(changes, summary) == summary,
{
}

/// What was done is accepted, what was refused has the refusal's status, and what was not tried has
/// its own: a bad body the body's, a missing runtime as if the route were not there, and a missing
/// generation as a failure of the server.
pub proof fn law_operations_are_answered(
    response: ActivationResponse,
    rollback: RollbackResponse,
    certs: CertReloadResponse,
)
    ensures
        match response {
            ActivationResponse::Activated(_) => response.status_code() == Some(
                StatusCode::Accepted,
            ),
            ActivationResponse::Reloaded { .. } => response.status_code() == Some(
                StatusCode::Accepted,
            ),
            ActivationResponse::Refused { status, .. } => response.status_code() == Some(status),
            ActivationResponse::ReloadRefused { status, .. } => response.status_code() == Some(
                status,
            ),
            ActivationResponse::Obstacle(ActivationObstacle::Body(error)) => response.status_code()
                == Some(error.status),
            ActivationResponse::Obstacle(ActivationObstacle::NoRuntime) => response.status_code()
                == Some(StatusCode::NotFound),
            ActivationResponse::Obstacle(ActivationObstacle::NoGeneration) => response.status_code()
                == Some(StatusCode::InternalServerError),
            ActivationResponse::Obstacle(ActivationObstacle::NoActivatedGeneration) => {
                response.status_code() == Some(StatusCode::InternalServerError)
            },
            ActivationResponse::Obstacle(ActivationObstacle::StaleAuthorization) => true,
        },
        match rollback {
            RollbackResponse::RolledBack(_) => rollback.status_code() == StatusCode::Accepted,
            RollbackResponse::Refused { status, .. } => rollback.status_code() == status,
        },
        certs is Applied <==> certs.status_code() == StatusCode::Accepted,
        !(certs is Applied) <==> certs.status_code() == StatusCode::InternalServerError,
        certs is Applied <==> certs.succeeded(),
{
}

/// A restart is accepted exactly where the watchdog takes it, refused as a conflict where one is
/// pending or was done too recently, and not available where there is no watchdog.
pub proof fn law_a_restart_is_answered_by_the_watchdog(accepted: bool, requested: bool)
    ensures
        watchdog_answer(accepted, requested).accepted == accepted,
        watchdog_answer(accepted, requested).restart_requested == Some(requested),
        watchdog_answer(accepted, requested).status == StatusCode::Accepted <==> accepted,
        watchdog_answer(accepted, requested).status == StatusCode::Conflict <==> !accepted,
        watchdog_answer(accepted, requested).error is None,
        !watchdog_disabled().accepted,
        watchdog_disabled().status == StatusCode::ServiceUnavailable,
        watchdog_disabled().error is Some,
        watchdog_disabled().restart_requested is None,
{
}

/// A restart is recorded as what it is, against the running generation.
pub proof fn law_a_restart_is_recorded_as_one(
    action: AdminAuditAction,
    active: Option<u64>,
    result: AdminAuditResult,
    reason: Seq<char>,
)
    ensures
        ({
            let record = restart_operation(action, active, result, reason);
            &&& record.event_type == AdminAuditEventType::RuntimeRestart
            &&& record.action == action
            &&& record.result == result
            &&& record.reason == Some(reason)
            &&& record.target.route == Some("/admin/restart"@)
            &&& record.target.config_path is None
            &&& record.generation.active_generation == active
        }),
{
}

/// The listeners that are reported as failed are exactly those whose certificates could not be
/// loaded, each with its own error; and there are none exactly where all could.
pub proof fn law_each_failed_listener_is_reported(
    listeners: Seq<ListenerReload>,
    name: Seq<char>,
    error: Seq<char>,
)
    ensures
        failed_listeners(listeners).contains((name, error)) <==> exists|i: int|
            0 <= i < listeners.len() && (#[trigger] listeners[i]).listener@ == name && (
            listeners[i].built matches Err(text) && text@ == error),
        failed_listeners(listeners).len() == 0 <==> all_built(listeners),
        failed_listeners(listeners).len() <= listeners.len(),
    decreases listeners.len(),
{
    if listeners.len() > 0 {
        let before = listeners.drop_last();
        let last = listeners.len() - 1;
        law_each_failed_listener_is_reported(before, name, error);
        let sofar = failed_listeners(before);
        let all = failed_listeners(listeners);
        if all.contains((name, error)) {
            let k = choose|k: int| 0 <= k < all.len() && all[k] == (name, error);
            if k < sofar.len() {
                assert(sofar[k] == (name, error));
                let i = choose|i: int|
                    0 <= i < before.len() && (#[trigger] before[i]).listener@ == name && (
                    before[i].built matches Err(text) && text@ == error);
                assert(listeners[i] == before[i]);
            } else {
                assert(listeners[last].listener@ == name);
            }
        }
        if exists|i: int|
            0 <= i < listeners.len() && (#[trigger] listeners[i]).listener@ == name && (
            listeners[i].built matches Err(text) && text@ == error) {
            let i = choose|i: int|
                0 <= i < listeners.len() && (#[trigger] listeners[i]).listener@ == name && (
                listeners[i].built matches Err(text) && text@ == error);
            if i < last {
                assert(before[i] == listeners[i]);
                let k = choose|k: int| 0 <= k < sofar.len() && sofar[k] == (name, error);
                assert(all[k] == (name, error));
            } else {
                assert(all[all.len() - 1] == (name, error));
            }
        }
        if all_built(listeners) {
            assert forall|i: int| 0 <= i < before.len() implies (#[trigger] before[i]).built
                is Ok by {
                assert(before[i] == listeners[i]);
            }
            assert(listeners[last].built is Ok);
        }
        if all_built(before) && listeners[last].built is Ok {
            assert forall|i: int| 0 <= i < listeners.len() implies (#[trigger] listeners[i]).built
                is Ok by {
                if i < last {
                    assert(before[i] == listeners[i]);
                }
            }
        }
    }
}

/// A listener's generation is the one that stands with its name first, and a listener that is not
/// among them has generation zero.
pub proof fn law_a_listener_has_its_own_generation(
    generations: Seq<(String, u64)>,
    listener: Seq<char>,
    i: int,
)
    requires
        forall|j: int| 0 <= j < i && j < generations.len() ==> (#[trigger] generations[j]).0@
            != listener,
    ensures
        0 <= i < generations.len() && generations[i].0@ == listener ==> generation_of(
            generations,
            listener,
        ) == generations[i].1,
        i >= generations.len() ==> generation_of(generations, listener) == 0,
    decreases generations.len(),
{
    if generations.len() > 0 && i > 0 {
        let rest = generations.drop_first();
        assert(generations[0].0@ != listener);
        assert forall|j: int| 0 <= j < i - 1 && j < rest.len() implies (#[trigger] rest[j]).0@
            != listener by {
            assert(rest[j] == generations[j + 1]);
        }
        law_a_listener_has_its_own_generation(rest, listener, i - 1);
        if i < generations.len() {
            assert(rest[i - 1] == generations[i]);
        }
    }
}

/// The last load of a reload is no earlier than any listener's, and is some listener's, where any
/// listener's certificates were loaded.
pub proof fn law_the_last_load_is_the_latest(listeners: Seq<ListenerReload>)
    ensures
        forall|i: int|
            0 <= i < listeners.len() ==> ((#[trigger] listeners[i]).built matches Ok(facts)
                ==> facts.loaded_at_unix_ms <= last_loaded(listeners)),
        last_loaded(listeners) > 0 ==> exists|i: int|
            0 <= i < listeners.len() && ((#[trigger] listeners[i]).built matches Ok(facts)
                && facts.loaded_at_unix_ms == last_loaded(listeners)),
    decreases listeners.len(),
{
    if listeners.len() > 0 {
        let before = listeners.drop_last();
        let last = listeners.len() - 1;
        law_the_last_load_is_the_latest(before);
        assert forall|i: int| 0 <= i < listeners.len() implies ((
        #[trigger] listeners[i]).built matches Ok(facts) ==> facts.loaded_at_unix_ms <= last_loaded(
            listeners,
        )) by {
            if i < last {
                assert(before[i] == listeners[i]);
            }
        }
        if last_loaded(listeners) > 0 {
            if last_loaded(listeners) == last_loaded(before) {
                let i = choose|i: int|
                    0 <= i < before.len() && ((#[trigger] before[i]).built matches Ok(facts)
                        && facts.loaded_at_unix_ms == last_loaded(before));
                assert(listeners[i] == before[i]);
            } else {
                assert(listeners[last].built is Ok);
            }
        }
    }
}

/// A listener that the next configuration lacks is a change of its address, and the first such one
/// is told of; where none is lacking, none is.
pub proof fn law_a_removed_listener_is_found(current: Seq<Seq<char>>, next: Seq<Seq<char>>)
    ensures
        first_removed(current, next) is None <==> forall|i: int|
            0 <= i < current.len() ==> next.contains(#[trigger] current[i]),
        forall|i: int|
            0 <= i < current.len() && !next.contains(#[trigger] current[i]) && (forall|j: int|
                0 <= j < i ==> next.contains(#[trigger] current[j])) ==> first_removed(current, next)
                == Some(current[i]),
    decreases current.len(),
{
    if current.len() > 0 {
        let rest = current.drop_first();
        law_a_removed_listener_is_found(rest, next);
        if forall|i: int| 0 <= i < current.len() ==> next.contains(#[trigger] current[i]) {
            assert(next.contains(current[0]));
            assert forall|i: int| 0 <= i < rest.len() implies next.contains(#[trigger] rest[i]) by {
                assert(rest[i] == current[i + 1]);
            }
        }
        if first_removed(current, next) is None {
            assert forall|i: int| 0 <= i < current.len() implies next.contains(
                #[trigger] current[i],
            ) by {
                if i > 0 {
                    assert(rest[i - 1] == current[i]);
                }
            }
        }
        assert forall|i: int|
            0 <= i < current.len() && !next.contains(#[trigger] current[i]) && (forall|j: int|
                0 <= j < i ==> next.contains(#[trigger] current[j])) implies first_removed(
            current,
            next,
        ) == Some(current[i]) by {
            if i > 0 {
                assert(next.contains(current[0]));
                assert(rest[i - 1] == current[i]);
                assert forall|j: int| 0 <= j < i - 1 implies next.contains(#[trigger] rest[j]) by {
                    assert(rest[j] == current[j + 1]);
                }
            }
        }
    }
}

/// The listeners that are new are exactly those of the next configuration that the current one
/// lacks.
pub proof fn law_new_listeners_are_those_not_there(
    current: Seq<Seq<char>>,
    next: Seq<Seq<char>>,
    label: Seq<char>,
)
    ensures
        added(current, next).contains(label) <==> next.contains(label) && !current.contains(label),
    decreases next.len(),
{
    if next.len() > 0 {
        let before = next.drop_last();
        law_new_listeners_are_those_not_there(current, before, label);
        let sofar = added(current, before);
        let all = added(current, next);
        assert(next.contains(label) <==> before.contains(label) || next.last() == label) by {
            if before.contains(label) {
                let k = choose|k: int| 0 <= k < before.len() && before[k] == label;
                assert(next[k] == label);
            }
            if next.last() == label {
                assert(next[next.len() - 1] == label);
            }
            if next.contains(label) && next.last() != label {
                let k = choose|k: int| 0 <= k < next.len() && next[k] == label;
                assert(before[k] == label);
            }
        }
        if !current.contains(next.last()) {
            assert(all == sofar.push(next.last()));
            if sofar.contains(label) {
                let k = choose|k: int| 0 <= k < sofar.len() && sofar[k] == label;
                assert(all[k] == label);
            }
            if next.last() == label {
                assert(all[all.len() - 1] == label);
            }
            if all.contains(label) && next.last() != label {
                let k = choose|k: int| 0 <= k < all.len() && all[k] == label;
                assert(sofar[k] == label);
            }
        }
    }
}

/// The first listener that cannot be bound refuses the reload, its QUIC socket before its bootstrap
/// socket; where all can be, none does, and a listener that is lacking refuses before any of them.
pub proof fn law_the_first_unbindable_listener_refuses(
    current: Seq<Seq<char>>,
    next: Seq<Seq<char>>,
    preflights: Seq<ListenerPreflight>,
)
    ensures
        first_rejection(preflights) is None <==> forall|i: int|
            0 <= i < preflights.len() ==> (#[trigger] preflights[i]).quic is Ok
                && preflights[i].bootstrap is Ok,
        forall|i: int|
            0 <= i < preflights.len() && (forall|j: int|
                0 <= j < i ==> (#[trigger] preflights[j]).quic is Ok && preflights[j].bootstrap
                    is Ok) ==> {
                &&& (#[trigger] preflights[i]).quic matches Err(error) ==> first_rejection(
                    preflights,
                ) == Some(
                    RejectionView::ResourcePreflightFailed {
                        component: "QUIC listener"@,
                        label: preflights[i].label@,
                        error: error@,
                    },
                )
                &&& preflights[i].quic is Ok ==> (preflights[i].bootstrap matches Err(error)
                    ==> first_rejection(preflights) == Some(
                    RejectionView::ResourcePreflightFailed {
                        component: "bootstrap TLS listener"@,
                        label: preflights[i].label@,
                        error: error@,
                    },
                ))
            },
        first_removed(current, next) matches Some(label) ==> listener_rejection(
            current,
            next,
            preflights,
        ) == Some(RejectionView::ListenerBindChanged { label }),
        first_removed(current, next) is None ==> listener_rejection(current, next, preflights)
            == first_rejection(preflights),
    decreases preflights.len(),
{
    if preflights.len() > 0 {
        let rest = preflights.drop_first();
        law_the_first_unbindable_listener_refuses(current, next, rest);
        if forall|i: int|
            0 <= i < preflights.len() ==> (#[trigger] preflights[i]).quic is Ok
                && preflights[i].bootstrap is Ok {
            assert(preflights[0].quic is Ok && preflights[0].bootstrap is Ok);
            assert forall|i: int| 0 <= i < rest.len() implies (#[trigger] rest[i]).quic is Ok
                && rest[i].bootstrap is Ok by {
                assert(rest[i] == preflights[i + 1]);
            }
        }
        if first_rejection(preflights) is None {
            assert forall|i: int| 0 <= i < preflights.len() implies (#[trigger] preflights[i]).quic
                is Ok && preflights[i].bootstrap is Ok by {
                if i > 0 {
                    assert(rest[i - 1] == preflights[i]);
                }
            }
        }
        assert forall|i: int|
            0 < i < preflights.len() && (forall|j: int|
                0 <= j < i ==> (#[trigger] preflights[j]).quic is Ok && preflights[j].bootstrap
                    is Ok) implies (first_rejection(preflights) == first_rejection(rest) && rest[i
            - 1] == #[trigger] preflights[i] && forall|j: int|
            0 <= j < i - 1 ==> (#[trigger] rest[j]).quic is Ok && rest[j].bootstrap is Ok) by {
            assert(preflights[0].quic is Ok && preflights[0].bootstrap is Ok);
            assert forall|j: int| 0 <= j < i - 1 implies (#[trigger] rest[j]).quic is Ok
                && rest[j].bootstrap is Ok by {
                assert(rest[j] == preflights[j + 1]);
            }
        }
    }
}

/// The operators' interface keeps a reload from happening exactly where it is on and has no
/// listener to take its certificate from, no such certificate, one that cannot be used, or an
/// address that is new to it and cannot be bound.
pub proof fn law_the_interface_must_be_able_to_move(
    current: EndpointSettings,
    next: EndpointSettings,
    preflight: ControlApiPreflight,
)
    ensures
        ({
            let moves = !current.enabled || current.address@ != next.address@ || current.port
                != next.port;
            &&& control_api_rejection(current, next, preflight) is None <==> !next.enabled || (
            preflight.primary_listener is Some && preflight.tls_config_present
                && preflight.tls_build is Ok && (preflight.endpoint_probe is Ok || !moves))
            &&& next.enabled && preflight.primary_listener is Some && preflight.tls_config_present
                ==> {
                &&& preflight.tls_build matches Err(error) ==> control_api_rejection(
                    current,
                    next,
                    preflight,
                ) == Some(
                    RejectionView::ResourcePreflightFailed {
                        component: "control API TLS"@,
                        label: preflight.primary_listener->0@,
                        error: error@,
                    },
                )
                &&& preflight.tls_build is Ok && moves ==> (preflight.endpoint_probe matches Err(
                    error,
                ) ==> control_api_rejection(current, next, preflight) == Some(
                    RejectionView::ResourcePreflightFailed {
                        component: "control API endpoint"@,
                        label: next.address@ + ":"@ + decimal(next.port as nat),
                        error: error@,
                    },
                ))
            }
        }),
{
}

/// The metrics endpoint keeps a reload from happening exactly where it is on and its address is new
/// to it and cannot be bound, or where it may be reached from elsewhere and has no listener to take
/// its certificate from or one that cannot be used.
pub proof fn law_the_metrics_must_be_able_to_move(
    current: EndpointSettings,
    next: EndpointSettings,
    preflight: MetricsPreflight,
)
    ensures
        ({
            let moves = !current.enabled || current.address@ != next.address@ || current.port
                != next.port;
            &&& metrics_rejection(current, next, preflight) is None <==> !next.enabled || ((
            preflight.endpoint_probe is Ok || !moves) && (!preflight.allow_non_loopback || (
            preflight.primary_listener is Some && preflight.tls_build is Ok)))
            &&& next.enabled && moves ==> (preflight.endpoint_probe matches Err(error)
                ==> metrics_rejection(current, next, preflight) == Some(
                RejectionView::ResourcePreflightFailed {
                    component: "metrics endpoint"@,
                    label: next.address@ + ":"@ + decimal(next.port as nat),
                    error: error@,
                },
            ))
            &&& next.enabled && (preflight.endpoint_probe is Ok || !moves)
                && preflight.allow_non_loopback ==> {
                &&& preflight.primary_listener is None ==> (metrics_rejection(
                    current,
                    next,
                    preflight,
                ) matches Some(RejectionView::ResourceMessage(text)))
                &&& preflight.primary_listener is Some ==> (preflight.tls_build matches Err(error)
                    ==> metrics_rejection(current, next, preflight) == Some(
                    RejectionView::ResourcePreflightFailed {
                        component: "metrics TLS"@,
                        label: preflight.primary_listener->0@,
                        error: error@,
                    },
                ))
            }
        }),
{
}

/// A setting that is read only at start asks for a restart exactly where it changes, and nothing
/// else asks for one.
pub proof fn law_startup_settings_ask_for_a_restart(
    current: StartupSettings,
    next: StartupSettings,
    ratio: bool,
)
    ensures
        ({
            let changes = startup_changes(current, next, ratio);
            let count = |changed: bool|
                if changed {
                    1int
                } else {
                    0int
                };
            let file = current.log_file_enabled != next.log_file_enabled;
            let path = current.log_file_path@ != next.log_file_path@;
            let format = current.log_format@ != next.log_format@;
            let tracing = current.tracing_enabled != next.tracing_enabled;
            let name = current.tracing_service_name@ != next.tracing_service_name@;
            let endpoint = opt(current.tracing_otlp_endpoint) != opt(next.tracing_otlp_endpoint);
            let threads = current.control_plane_threads != next.control_plane_threads;
            &&& file ==> changes.contains("log.file.enabled"@)
            &&& path ==> changes.contains("log.file.path"@)
            &&& format ==> changes.contains("log.format"@)
            &&& tracing ==> changes.contains("observability.tracing.enabled"@)
            &&& name ==> changes.contains("observability.tracing.service_name"@)
            &&& endpoint ==> changes.contains("observability.tracing.otlp_endpoint"@)
            &&& ratio ==> changes.contains("observability.tracing.sample_ratio"@)
            &&& threads ==> changes.contains("performance.control_plane_threads"@)
            &&& changes.len() == count(file) + count(path) + count(format) + count(tracing) + count(
                name,
            ) + count(endpoint) + count(ratio) + count(threads)
        }),
{
    let s0 = Seq::<Seq<char>>::empty();
    let s1 = pushed_if(s0, "log.file.enabled"@, current.log_file_enabled != next.log_file_enabled);
    let s2 = pushed_if(s1, "log.file.path"@, current.log_file_path@ != next.log_file_path@);
    let s3 = pushed_if(s2, "log.format"@, current.log_format@ != next.log_format@);
    let s4 = pushed_if(
        s3,
        "observability.tracing.enabled"@,
        current.tracing_enabled != next.tracing_enabled,
    );
    let s5 = pushed_if(
        s4,
        "observability.tracing.service_name"@,
        current.tracing_service_name@ != next.tracing_service_name@,
    );
    let s6 = pushed_if(
        s5,
        "observability.tracing.otlp_endpoint"@,
        opt(current.tracing_otlp_endpoint) != opt(next.tracing_otlp_endpoint),
    );
    let s7 = pushed_if(s6, "observability.tracing.sample_ratio"@, ratio);
    lemma_pushed_if(
        s0,
        "log.file.enabled"@,
        current.log_file_enabled != next.log_file_enabled,
    );
    lemma_pushed_if(s1, "log.file.path"@, current.log_file_path@ != next.log_file_path@);
    lemma_pushed_if(s2, "log.format"@, current.log_format@ != next.log_format@);
    lemma_pushed_if(
        s3,
        "observability.tracing.enabled"@,
        current.tracing_enabled != next.tracing_enabled,
    );
    lemma_pushed_if(
        s4,
        "observability.tracing.service_name"@,
        current.tracing_service_name@ != next.tracing_service_name@,
    );
    lemma_pushed_if(
        s5,
        "observability.tracing.otlp_endpoint"@,
        opt(current.tracing_otlp_endpoint) != opt(next.tracing_otlp_endpoint),
    );
    lemma_pushed_if(s6, "observability.tracing.sample_ratio"@, ratio);
    lemma_pushed_if(
        s7,
        "performance.control_plane_threads"@,
        current.control_plane_threads != next.control_plane_threads,
    );
}

proof fn lemma_pushed_if(list: Seq<Seq<char>>, item: Seq<char>, wanted: bool)
    ensures
        forall|x: Seq<char>| list.contains(x) ==> #[trigger] pushed_if(list, item, wanted).contains(x),
        wanted ==> pushed_if(list, item, wanted).contains(item),
{
    let all = pushed_if(list, item, wanted);
    assert forall|x: Seq<char>| list.contains(x) implies #[trigger] all.contains(x) by {
        let k = choose|k: int| 0 <= k < list.len() && list[k] == x;
        assert(all[k] == x);
    }
    if wanted {
        assert(all[list.len() as int] == item);
    }
}

/// A reload is refused for its listeners before the interface, for the interface before the
/// metrics, and for what needs a restart only where nothing else refuses it, each setting by name.
pub proof fn law_refusals_of_a_reload_come_in_order(
    listeners: Option<RejectionView>,
    interface: Option<RejectionView>,
    metrics: Option<RejectionView>,
    paths: Seq<Seq<char>>,
    i: int,
)
    ensures
        ({
            let restarts = restart_rejections(paths);
            let all = compatibility_rejections(listeners, interface, metrics, restarts);
            &&& listeners matches Some(refusal) ==> all == seq![refusal]
            &&& listeners is None ==> (interface matches Some(refusal) ==> all == seq![refusal])
            &&& listeners is None && interface is None ==> (metrics matches Some(refusal) ==> all
                == seq![refusal])
            &&& listeners is None && interface is None && metrics is None ==> all.len()
                == paths.len() && (0 <= i < paths.len() ==> all[i] == (
            RejectionView::RestartRequired { field_path: paths[i] }))
        }),
{
}

/// A listener whose certificates were loaded is reported with its own times and the generation that
/// it has now.
pub proof fn law_a_reloaded_listener_is_reported_as_its_own(
    report: ListenerReloaded,
    listener: ListenerReload,
    generations: Seq<(String, u64)>,
    i: int,
)
    requires
        reported_reloaded(report, listener, generations),
        0 <= i < generations.len(),
        generations[i].0@ == listener.listener@,
        forall|j: int| 0 <= j < i ==> (#[trigger] generations[j]).0@ != listener.listener@,
    ensures
        report.listener@ == listener.listener@,
        report.generation == generations[i].1,
        report.status@ == "cert_reload_applied"@,
        listener.built matches Ok(facts) && report.loaded_at_unix_ms == facts.loaded_at_unix_ms
            && report.default_cert_not_after_unix_seconds
            == facts.default_cert_not_after_unix_seconds,
{
    law_a_listener_has_its_own_generation(generations, listener.listener@, i);
}

/// What was done is recorded as a success, and what was not as a failure.
pub proof fn law_what_was_done_is_a_success(succeeded: bool, certs: CertReloadResponse)
    ensures
        ended(succeeded) == AdminAuditResult::Success <==> succeeded,
        ended(succeeded) == AdminAuditResult::Failed <==> !succeeded,
        certs is Applied ==> certs.reason_text() == "cert_reload_applied"@,
        !(certs is Applied) ==> certs.reason_text() == "cert_reload_failed"@,
{
}

/// A body that cannot be read or is missing is the client's fault, and one that is too long is
/// refused as such, with the limit.
pub proof fn law_a_bad_body_is_the_clients_fault(detail: Seq<char>, limit: nat)
    ensures
        invalid_body(detail).status == StatusCode::BadRequest,
        invalid_body(detail).error == "invalid request body: "@ + detail,
        missing_body().status == StatusCode::BadRequest,
        missing_body().error == "request body is required"@,
        oversized_body(limit).status == StatusCode::PayloadTooLarge,
        oversized_body(limit).error == "request body exceeded "@ + decimal(limit) + " bytes"@,
{
}

/// A reload goes ahead exactly where nothing refuses it, and every refusal is passed on.
pub proof fn law_a_reload_goes_ahead_unrefused(refusals: Seq<RejectionView>)
    ensures
        verdict_of(refusals) == StepView::Accepted <==> refusals.len() == 0,
        refusals.len() > 0 ==> verdict_of(refusals) == StepView::Refused(refusals),
{
}

proof fn lemma_next_of_probes(items: Seq<ItemView>, results: Seq<Result<(), String>>, k: int)
    requires
        0 <= k < items.len(),
        forall|i: int| 0 <= i <= k ==> (#[trigger] items[i]) is Probe,
        k <= results.len(),
        forall|i: int| 0 <= i < k ==> (#[trigger] results[i]) is Ok,
    ensures
        results.len() == k ==> first_stop(items, results) == Some(
            StepView::Probe(items[k]->Probe_0),
        ),
        results.len() > k ==> (results[k] matches Err(error) ==> first_stop(items, results) == Some(
            StepView::Refused(seq![items[k]->Probe_0.failure(error@)]),
        )),
    decreases k,
{
    assert(items[0] is Probe);
    if k > 0 {
        assert(results[0] is Ok);
        let rest = items.drop_first();
        let more = results.drop_first();
        assert forall|i: int| 0 <= i <= k - 1 implies (#[trigger] rest[i]) is Probe by {
            assert(rest[i] == items[i + 1]);
        }
        assert forall|i: int| 0 <= i < k - 1 implies (#[trigger] more[i]) is Ok by {
            assert(more[i] == results[i + 1]);
        }
        lemma_next_of_probes(rest, more, k - 1);
        assert(rest[k - 1] == items[k]);
        if results.len() > k {
            assert(more[k - 1] == results[k]);
        }
    }
}

/// While no listener is lacking and every try has gone well, the next one is of the next new
/// listener, its QUIC socket first and then its bootstrap socket; and the first try that fails
/// refuses the reload, for that listener and that socket.
pub proof fn law_new_listeners_are_tried_one_by_one(
    transition: ReloadTransition,
    results: Seq<Result<(), String>>,
    k: int,
)
    requires
        first_removed(
            texts(transition.current_listeners@),
            texts(transition.next_listeners@),
        ) is None,
        0 <= k < 2 * added(
            texts(transition.current_listeners@),
            texts(transition.next_listeners@),
        ).len(),
        k <= results.len(),
        forall|i: int| 0 <= i < k ==> (#[trigger] results[i]) is Ok,
    ensures
        ({
            let labels = added(
                texts(transition.current_listeners@),
                texts(transition.next_listeners@),
            );
            let kind = if k % 2 == 0 {
                ProbeKind::QuicListener
            } else {
                ProbeKind::BootstrapListener
            };
            let component = if k % 2 == 0 {
                "QUIC listener"@
            } else {
                "bootstrap TLS listener"@
            };
            &&& results.len() == k ==> reload_step(transition, results) == StepView::Probe(
                ProbeView { kind, label: labels[k / 2] },
            )
            &&& results.len() > k ==> (results[k] matches Err(error) ==> reload_step(
                transition,
                results,
            ) == StepView::Refused(
                seq![
                    RejectionView::ResourcePreflightFailed {
                        component,
                        label: labels[k / 2],
                        error: error@,
                    },
                ],
            ))
        }),
{
    let labels = added(texts(transition.current_listeners@), texts(transition.next_listeners@));
    let items = reload_items(transition);
    assert forall|i: int| 0 <= i < 2 * labels.len() implies #[trigger] items[i] == socket_items(
        labels,
    )[i] by {}
    lemma_next_of_probes(items, results, k);
}

/// Listeners that failed are each reported as failed, for their certificates.
pub proof fn law_failed_listeners_are_reported_as_failed(failures: Seq<ListenerFailure>, i: int)
    requires
        reported_failed(failures),
        0 <= i < failures.len(),
    ensures
        failures[i].status@ == "failed"@,
        failures[i].reason@ == "listener_tls_invalid"@,
        failure_views(failures).len() == failures.len(),
        failure_views(failures)[i] == (failures[i].listener@, failures[i].error@),
{
}

/// What keeps an activation from being tried is put in words where the answer has any.
pub proof fn law_obstacles_are_put_in_words(obstacle: ActivationObstacle)
    ensures
        obstacle matches ActivationObstacle::Body(error) ==> obstacle.error_text() == Some(
            error.error@,
        ),
        obstacle is NoGeneration ==> obstacle.error_text() == Some(
            "runtime generation unavailable"@,
        ),
        obstacle is NoActivatedGeneration ==> obstacle.error_text() == Some(
            "activation succeeded without an activated generation"@,
        ),
        obstacle is NoRuntime || obstacle is StaleAuthorization ==> obstacle.error_text() is None,
{
}

} // verus!
