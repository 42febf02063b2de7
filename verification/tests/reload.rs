use impulse_edge::control_api::audit::{AdminAuditAction, AdminAuditResult};
use impulse_edge::control_api::reload::activate::{
    classify_secret_resolution_failure, classify_upstream_mtls_material_outcome,
    is_authorization_current, ActivationKind, ActivationObstacle, ActivationOutcome,
    ActivationResponse, ControlApiAuthorizationGeneration, ControlApiRuntimePlanRequest,
    RunningGeneration, RuntimeAccess, UpstreamMtlsMaterialOutcome,
};
use impulse_edge::control_api::reload::body::{invalid_request_body, ControlApiBody};
use impulse_edge::control_api::reload::certs::{
    CertReloadResponse, ListenerReload, ListenerTlsFacts,
};
use impulse_edge::control_api::reload::compatibility::{
    effective_worker_count, endpoint_to_probe, EndpointSettings, ListenerPreflight,
    StartupSettings, TransitionRejection,
};
use impulse_edge::control_api::reload::generation::{
    activation_error, activation_result_status, legacy_reload_result_status, rollback_error,
    rollback_result_status, ActivationRequest, ActivationResult, GenerationHistoryEntry,
    GenerationOperation, GenerationStatus, RejectedChange, RejectedChangeKind, ReloadDiff,
    ReloadDiffEntry, RollbackRequest, RollbackResult, RuntimeRejectionReason, RuntimeVerdict,
};
use impulse_edge::control_api::reload::probes::{
    next_reload_step, ProbeKind, ReloadStep, ReloadTransition,
};
use impulse_edge::control_api::reload::plan::{PlanObstacle, PlanOperation, ReloadPlan};
use impulse_edge::control_api::reload::rollback::{
    ControlApiRuntimeRollbackPayload, RollbackObstacle, RollbackResponse,
};
use impulse_edge::control_api::reload::session::AuditSession;
use impulse_edge::control_api::security::{ControlApiAdminAuditTarget, ControlApiAuditPolicy};
use impulse_edge::listener::QUICListener;
use impulse_edge::status::StatusCode;

fn rejected_change(reason: RuntimeRejectionReason, kind: RejectedChangeKind) -> RejectedChange {
    RejectedChange {
        reason,
        kind,
        field_path: None,
        current_value: None,
        requested_value: None,
        operator_action: "retry".to_string(),
        active_generation_changed: false,
        message: "rejected".to_string(),
    }
}

fn history_entry(operation: GenerationOperation, status: GenerationStatus) -> GenerationHistoryEntry {
    GenerationHistoryEntry {
        generation: 2,
        operation,
        status,
        config_source: "config.yaml".to_string(),
        config_version: Some(1),
        requested_by: Some("test".to_string()),
        trigger_source: Some("unit_test".to_string()),
        requested_at_ms: 1,
        completed_at_ms: Some(2),
        summary: "summary".to_string(),
        diff: ReloadDiff {
            entries: Vec::new(),
        },
        rejected_changes: Vec::new(),
        document: "{}".to_string(),
    }
}

fn refused_verdict() -> RuntimeVerdict {
    RuntimeVerdict {
        succeeded: false,
        primary_rejection: Some("unknown_generation".to_string()),
        outcome: "rejected".to_string(),
    }
}

fn activation(changes: Vec<RejectedChange>) -> ActivationResult {
    ActivationResult {
        request: ActivationRequest {
            requested_by: Some("test".to_string()),
            trigger_source: Some("unit_test".to_string()),
            reason: Some("runtime_activate".to_string()),
            expected_generation: Some(1),
            requested_at_ms: 1,
        },
        active_generation: 3,
        activated_generation: None,
        status: GenerationStatus::Rejected,
        rejected_changes: changes,
        history_entry: history_entry(GenerationOperation::Activate, GenerationStatus::Rejected),
        verdict: refused_verdict(),
    }
}

fn rollback(changes: Vec<RejectedChange>) -> RollbackResult {
    RollbackResult {
        request: RollbackRequest {
            target_generation: 9,
            requested_by: Some("test".to_string()),
            trigger_source: Some("unit_test".to_string()),
            reason: Some("runtime_rollback".to_string()),
            expected_active_generation: Some(3),
            requested_at_ms: 1,
        },
        active_generation: 3,
        rolled_back_to: None,
        status: GenerationStatus::Rejected,
        rejected_changes: changes,
        history_entry: history_entry(GenerationOperation::Rollback, GenerationStatus::Rejected),
        verdict: refused_verdict(),
    }
}

fn audit() -> ControlApiAuditPolicy {
    ControlApiAuditPolicy {
        enabled: true,
        sink: ControlApiAdminAuditTarget::Log,
    }
}

fn plan() -> ControlApiRuntimePlanRequest {
    ControlApiRuntimePlanRequest {
        config_path: None,
        requested_by: None,
        reason: None,
        expected_generation: None,
    }
}

fn running() -> RunningGeneration {
    RunningGeneration {
        generation: 7,
        config_path: "/etc/impulse/config.yaml".to_string(),
        log_level: "info".to_string(),
    }
}

const CURRENT: ControlApiAuthorizationGeneration = ControlApiAuthorizationGeneration {
    runtime: 7,
    listener_tls: 2,
};

#[test]
fn activation_status_maps_stale_generation_conflicts_to_conflict() {
    let activation = ActivationResult {
        request: ActivationRequest {
            requested_by: Some("test".to_string()),
            trigger_source: Some("unit_test".to_string()),
            reason: Some("runtime_activate".to_string()),
            expected_generation: Some(1),
            requested_at_ms: 1,
        },
        active_generation: 3,
        activated_generation: None,
        status: GenerationStatus::Rejected,
        rejected_changes: vec![rejected_change(
            RuntimeRejectionReason::UnknownGeneration,
            RejectedChangeKind::IllegalTransition,
        )],
        history_entry: history_entry(GenerationOperation::Activate, GenerationStatus::Rejected),
        verdict: refused_verdict(),
    };

    assert_eq!(activation_result_status(&activation), StatusCode::Conflict);
    assert_eq!(
        legacy_reload_result_status(&activation),
        StatusCode::Conflict
    );
}

#[test]
fn rollback_status_maps_missing_target_to_not_found() {
    let rollback = RollbackResult {
        request: RollbackRequest {
            target_generation: 9,
            requested_by: Some("test".to_string()),
            trigger_source: Some("unit_test".to_string()),
            reason: Some("runtime_rollback".to_string()),
            expected_active_generation: Some(3),
            requested_at_ms: 1,
        },
        active_generation: 3,
        rolled_back_to: None,
        status: GenerationStatus::Rejected,
        rejected_changes: vec![rejected_change(
            RuntimeRejectionReason::UnknownGeneration,
            RejectedChangeKind::RuntimeStateUnavailable,
        )],
        history_entry: history_entry(GenerationOperation::Rollback, GenerationStatus::Rejected),
        verdict: refused_verdict(),
    };

    assert_eq!(rollback_result_status(&rollback), StatusCode::NotFound);
}

#[test]
fn rollback_status_keeps_other_operator_conflicts_as_conflict() {
    let rollback = RollbackResult {
        request: RollbackRequest {
            target_generation: 3,
            requested_by: Some("test".to_string()),
            trigger_source: Some("unit_test".to_string()),
            reason: Some("runtime_rollback".to_string()),
            expected_active_generation: Some(3),
            requested_at_ms: 1,
        },
        active_generation: 3,
        rolled_back_to: None,
        status: GenerationStatus::Rejected,
        rejected_changes: vec![rejected_change(
            RuntimeRejectionReason::RollbackNotAllowed,
            RejectedChangeKind::RuntimeStateUnavailable,
        )],
        history_entry: history_entry(GenerationOperation::Rollback, GenerationStatus::Rejected),
        verdict: refused_verdict(),
    };

    assert_eq!(rollback_result_status(&rollback), StatusCode::Conflict);
}

#[test]
fn refusals_have_a_status_for_each_kind() {
    let refused = |kind| activation(vec![rejected_change(RuntimeRejectionReason::Other, kind)]);
    let cases = [
        (
            RejectedChangeKind::InvalidConfiguration,
            StatusCode::BadRequest,
            StatusCode::BadRequest,
        ),
        (
            RejectedChangeKind::ResourcePreparationFailed,
            StatusCode::InternalServerError,
            StatusCode::InternalServerError,
        ),
        (
            RejectedChangeKind::RuntimeStateUnavailable,
            StatusCode::Conflict,
            StatusCode::InternalServerError,
        ),
        (RejectedChangeKind::Other, StatusCode::Conflict, StatusCode::Conflict),
    ];
    for (kind, activated, reloaded) in cases {
        assert_eq!(activation_result_status(&refused(kind)), activated);
        assert_eq!(legacy_reload_result_status(&refused(kind)), reloaded);
    }
    assert_eq!(activation_error(&refused(RejectedChangeKind::Other)), "rejected");
    assert_eq!(activation_error(&activation(Vec::new())), "summary");
    assert_eq!(rollback_error(&rollback(Vec::new())), "summary");
}

#[test]
fn control_api_json_body_bounded_rejects_oversized_payload() {
    let limit = 65_536u64;
    let mut body = ControlApiBody::new(limit);
    let error = body
        .push_chunk(&vec![b'a'; 65_537])
        .expect_err("oversized body must be rejected");
    assert_eq!(error.status, StatusCode::PayloadTooLarge);
    assert_eq!(error.error, "request body exceeded 65536 bytes");
    assert!(body.push_chunk(&vec![b'a'; 65_536]).is_ok());
    assert_eq!(body.into_required().expect("body").len(), 65_536);
}

#[test]
fn missing_and_unreadable_bodies_are_told_apart() {
    let empty = ControlApiBody::new(16).into_required().expect_err("missing");
    assert_eq!(empty.status, StatusCode::BadRequest);
    assert_eq!(empty.error, "request body is required");
    assert!(ControlApiBody::new(16).into_optional().is_none());
    assert_eq!(
        invalid_request_body("no json").error,
        "invalid request body: no json"
    );
}

#[test]
fn activation_request_is_filled_in_from_the_running_generation() {
    let request = QUICListener::control_api_activation_request(&plan(), 7, "runtime_activate", 99);
    assert_eq!(request.requested_by.as_deref(), Some("control_api"));
    assert_eq!(request.trigger_source.as_deref(), Some("control_api"));
    assert_eq!(request.reason.as_deref(), Some("runtime_activate"));
    assert_eq!(request.expected_generation, Some(7));
    assert_eq!(request.requested_at_ms, 99);
    assert_eq!(
        QUICListener::control_api_reload_config_input(&running(), &plan()),
        "/etc/impulse/config.yaml"
    );
    assert!(QUICListener::apply_live_log_level_reload("info", "debug"));
    assert!(!QUICListener::apply_live_log_level_reload("info", "info"));
}

#[test]
fn authorization_is_current_under_the_same_generations() {
    assert!(is_authorization_current(Some(CURRENT), CURRENT));
    assert!(!is_authorization_current(None, CURRENT));
    let older = ControlApiAuthorizationGeneration {
        runtime: 6,
        listener_tls: 2,
    };
    assert!(!is_authorization_current(Some(older), CURRENT));
}

#[test]
fn activation_is_recorded_from_attempt_to_result() {
    let audit = audit();
    let session = AuditSession {
        audit: &audit,
        identity: None,
        context: None,
    };
    let mut records = Vec::new();
    let read = QUICListener::perform_control_api_runtime_activation(
        &session,
        &mut records,
        ActivationKind::Activate,
        Err(invalid_request_body("no json")),
        Some(7),
        Some(CURRENT),
        CURRENT,
    );
    assert!(matches!(
        read,
        Err(ActivationObstacle::Body(error)) if error.status == StatusCode::BadRequest
    ));
    assert_eq!(records.len(), 1);
    assert_eq!(records[0].result, AdminAuditResult::Failed);

    let stale = QUICListener::perform_control_api_runtime_activation(
        &session,
        &mut records,
        ActivationKind::Activate,
        Ok(plan()),
        Some(7),
        None,
        CURRENT,
    );
    assert!(matches!(stale, Err(ActivationObstacle::StaleAuthorization)));

    records.clear();
    let generation = running();
    let attempt = QUICListener::begin_control_api_runtime_activation(
        &session,
        &mut records,
        ActivationKind::Activate,
        &plan(),
        &RuntimeAccess {
            available: true,
            running: Some(&generation),
        },
        99,
    )
    .expect("attempt");
    assert_eq!(attempt.config_path, "/etc/impulse/config.yaml");
    assert_eq!(records[0].action, AdminAuditAction::RuntimeActivateAttempt);

    let outcome = QUICListener::perform_control_api_runtime_activation_from_plan_request(
        &session,
        &mut records,
        ActivationKind::Activate,
        "/etc/impulse/config.yaml",
        activation(vec![rejected_change(
            RuntimeRejectionReason::Other,
            RejectedChangeKind::InvalidConfiguration,
        )]),
    );
    assert_eq!(
        records.last().expect("record").action,
        AdminAuditAction::RuntimeActivateResult
    );
    let response = QUICListener::handle_control_api_runtime_activate(outcome);
    assert_eq!(response.status(), Some(StatusCode::BadRequest));
    match response {
        ActivationResponse::Refused { status, error, .. } => {
            assert_eq!(status, StatusCode::BadRequest);
            assert_eq!(error, "rejected");
        }
        _ => panic!("the activation was refused"),
    }
}

#[test]
fn reload_answers_with_the_generations() {
    let mut activated = activation(Vec::new());
    activated.status = GenerationStatus::Active;
    activated.activated_generation = Some(8);
    activated.active_generation = 8;
    activated.verdict = RuntimeVerdict {
        succeeded: true,
        primary_rejection: None,
        outcome: "activated".to_string(),
    };
    let response = QUICListener::handle_control_api_runtime_reload(ActivationOutcome::Activated {
        activation: activated,
    });
    assert_eq!(response.status(), Some(StatusCode::Accepted));
    match response {
        ActivationResponse::Reloaded { generation, .. } => assert_eq!(generation, 8),
        _ => panic!("the reload succeeded"),
    }
    assert_eq!(
        ActivationObstacle::NoGeneration.error(),
        Some("runtime generation unavailable")
    );
    assert_eq!(
        ActivationObstacle::NoRuntime.status(),
        Some(StatusCode::NotFound)
    );
}

#[test]
fn changed_secrets_are_classified() {
    let mut changed = activation(Vec::new());
    changed.verdict.succeeded = true;
    changed.status = GenerationStatus::Active;
    changed.history_entry.diff.entries = vec![ReloadDiffEntry {
        secret_material_changed: true,
    }];
    assert_eq!(
        classify_upstream_mtls_material_outcome(&changed),
        Some(UpstreamMtlsMaterialOutcome::Changed)
    );
    changed.history_entry.diff.entries.clear();
    assert_eq!(classify_upstream_mtls_material_outcome(&changed), None);
    assert!(classify_secret_resolution_failure("something else").is_none());
}

#[test]
fn plan_needs_a_runtime_and_a_body() {
    let audit = audit();
    let session = AuditSession {
        audit: &audit,
        identity: None,
        context: None,
    };
    let mut records = Vec::new();
    assert!(matches!(
        QUICListener::begin_control_api_runtime_plan(
            &session,
            &mut records,
            PlanOperation::Preview,
            None,
            Ok(plan()),
            99,
        ),
        Err(PlanObstacle::NoRuntime)
    ));
    let generation = running();
    let attempt = QUICListener::begin_control_api_runtime_plan(
        &session,
        &mut records,
        PlanOperation::Preview,
        Some(&generation),
        Ok(plan()),
        99,
    )
    .expect("attempt");
    assert_eq!(attempt.request.expected_generation, Some(7));
    let drawn = ReloadPlan {
        candidate_generation: 8,
        primary_rejection: None,
        rejection_summary: None,
        summary: "no changes".to_string(),
    };
    assert_eq!(
        QUICListener::record_control_api_plan_result(&drawn).summary,
        "no changes"
    );
    let (status, drawn) = QUICListener::handle_control_api_runtime_preview(
        &session,
        &mut records,
        &attempt.config_path,
        7,
        drawn,
    );
    assert_eq!(status, StatusCode::Success);
    assert_eq!(
        records.last().expect("record").action,
        AdminAuditAction::RuntimePreviewResult
    );
    let refused = ReloadPlan {
        primary_rejection: Some("restart_required".to_string()),
        ..drawn
    };
    let (status, _) = QUICListener::handle_control_api_runtime_validate(
        &session,
        &mut records,
        &attempt.config_path,
        7,
        refused,
    );
    assert_eq!(status, StatusCode::Success);
    let last = records.last().expect("record");
    assert_eq!(last.action, AdminAuditAction::RuntimeValidateResult);
    assert_eq!(last.result, AdminAuditResult::Failed);
    assert_eq!(last.reason.as_deref(), Some("restart_required"));
    assert_eq!(last.generation.candidate_generation, Some(8));
}

#[test]
fn rollback_is_refused_with_its_status() {
    let audit = audit();
    let session = AuditSession {
        audit: &audit,
        identity: None,
        context: None,
    };
    let mut records = Vec::new();
    let payload = || ControlApiRuntimeRollbackPayload {
        target_generation: 9,
        requested_by: None,
        reason: None,
        expected_active_generation: None,
    };
    assert!(matches!(
        QUICListener::begin_control_api_runtime_rollback(
            &session,
            &mut records,
            None,
            Ok(payload()),
            Some(CURRENT),
            CURRENT,
            99,
        ),
        Err(RollbackObstacle::NoRuntime)
    ));
    let request = QUICListener::begin_control_api_runtime_rollback(
        &session,
        &mut records,
        Some(7),
        Ok(payload()),
        Some(CURRENT),
        CURRENT,
        99,
    )
    .expect("request");
    assert_eq!(request.target_generation, 9);
    assert_eq!(request.expected_active_generation, None);
    let response = QUICListener::handle_control_api_runtime_rollback(
        &session,
        &mut records,
        rollback(vec![rejected_change(
            RuntimeRejectionReason::UnknownGeneration,
            RejectedChangeKind::RuntimeStateUnavailable,
        )]),
    );
    assert_eq!(response.status(), StatusCode::NotFound);
    assert!(matches!(
        response,
        RollbackResponse::Refused { status: StatusCode::NotFound, .. }
    ));
    let mut done = rollback(Vec::new());
    done.verdict.succeeded = true;
    let response =
        QUICListener::handle_control_api_runtime_rollback(&session, &mut records, done);
    assert_eq!(response.status(), StatusCode::Accepted);
    let mut activated = activation(Vec::new());
    activated.verdict.succeeded = true;
    let response = QUICListener::handle_control_api_runtime_activate(ActivationOutcome::Activated {
        activation: activated,
    });
    assert_eq!(response.status(), Some(StatusCode::Accepted));
}

#[test]
fn restart_needs_a_watchdog() {
    let audit = audit();
    let session = AuditSession {
        audit: &audit,
        identity: None,
        context: None,
    };
    let mut records = Vec::new();
    let refused = QUICListener::begin_control_api_restart(&session, &mut records, Some(7), false)
        .expect("refused");
    assert_eq!(refused.status, StatusCode::ServiceUnavailable);
    assert_eq!(refused.error, Some("watchdog disabled"));
    assert!(
        QUICListener::begin_control_api_restart(&session, &mut records, Some(7), true).is_none()
    );
    let accepted =
        QUICListener::handle_control_api_restart(&session, &mut records, Some(7), true, true);
    assert_eq!(accepted.status, StatusCode::Accepted);
    let pending =
        QUICListener::handle_control_api_restart(&session, &mut records, Some(7), false, true);
    assert_eq!(pending.status, StatusCode::Conflict);
    assert_eq!(pending.reason, Some("restart pending or cooldown active"));
}

fn listener(name: &str, built: Result<ListenerTlsFacts, String>) -> ListenerReload {
    ListenerReload {
        listener: name.to_string(),
        built,
    }
}

#[test]
fn certificates_are_replaced_all_or_none() {
    let facts = ListenerTlsFacts {
        loaded_at_unix_ms: 5_999,
        default_cert_not_after_unix_seconds: 100,
    };
    let broken = vec![
        listener("a", Ok(facts)),
        listener("b", Err("no such file".to_string())),
    ];
    match QUICListener::stage_listener_certs(&broken) {
        Some(CertReloadResponse::Invalid { failures }) => {
            assert_eq!(failures.len(), 1);
            assert_eq!(failures[0].listener, "b");
            assert_eq!(failures[0].reason, "listener_tls_invalid");
        }
        _ => panic!("a certificate could not be read"),
    }
    let sound = vec![listener("a", Ok(facts)), listener("b", Ok(facts))];
    assert!(QUICListener::stage_listener_certs(&sound).is_none());
    let response =
        QUICListener::reload_listener_certs(&sound, Ok(vec![("b".to_string(), 4)]));
    assert_eq!(response.status(), StatusCode::Accepted);
    assert!(response.reloaded());
    match response {
        CertReloadResponse::Applied { listeners } => {
            assert_eq!(listeners[0].generation, 0);
            assert_eq!(listeners[1].generation, 4);
        }
        _ => panic!("the certificates were replaced"),
    }
    assert_eq!(QUICListener::last_cert_load_unix_seconds(&sound), Some(5));
    let kept = QUICListener::reload_listener_certs(&sound, Err("poisoned".to_string()));
    assert_eq!(kept.status(), StatusCode::InternalServerError);
    assert_eq!(kept.reason(), "cert_reload_failed");
}

fn endpoint(enabled: bool, port: u16) -> EndpointSettings {
    EndpointSettings {
        enabled,
        address: "127.0.0.1".to_string(),
        port,
    }
}

#[test]
fn listeners_may_come_and_not_go() {
    let old = vec!["a:443".to_string()];
    let both = vec!["a:443".to_string(), "b:443".to_string()];
    assert_eq!(QUICListener::added_listeners(&old, &both), vec!["b:443".to_string()]);
    assert!(matches!(
        QUICListener::validate_runtime_reload_compatibility(&both, &old, &Vec::new()),
        Some(TransitionRejection::ListenerBindChanged { label }) if label == "b:443"
    ));
    let probed = vec![ListenerPreflight {
        label: "b:443".to_string(),
        quic: Ok(()),
        bootstrap: Err("in use".to_string()),
    }];
    assert!(matches!(
        QUICListener::validate_runtime_reload_compatibility(&old, &both, &probed),
        Some(TransitionRejection::ResourcePreflightFailed { component: "bootstrap TLS listener", .. })
    ));
    assert!(
        QUICListener::validate_runtime_reload_compatibility(&old, &old, &Vec::new()).is_none()
    );
}

#[test]
fn endpoints_are_probed_where_they_move() {
    assert_eq!(
        endpoint_to_probe(&endpoint(false, 1), &endpoint(true, 9_902)).as_deref(),
        Some("127.0.0.1:9902")
    );
    assert_eq!(endpoint_to_probe(&endpoint(true, 1), &endpoint(true, 1)), None);
    assert_eq!(endpoint_to_probe(&endpoint(true, 1), &endpoint(false, 2)), None);
    assert_eq!(effective_worker_count(0), 1);
    assert_eq!(effective_worker_count(4), 4);
}

fn startup() -> StartupSettings {
    StartupSettings {
        log_file_enabled: false,
        log_file_path: String::new(),
        log_format: "plain".to_string(),
        tracing_enabled: false,
        tracing_service_name: "impulse".to_string(),
        tracing_otlp_endpoint: None,
        control_plane_threads: 2,
    }
}

#[test]
fn settings_of_the_startup_ask_for_a_restart() {
    let same = QUICListener::validate_startup_owned_reload_compatibility(
        &startup(),
        &startup(),
        false,
    );
    assert!(same.is_empty());
    let mut other = startup();
    other.log_format = "json".to_string();
    other.control_plane_threads = 3;
    let rejections = QUICListener::validate_startup_owned_reload_compatibility(
        &startup(),
        &other,
        true,
    );
    assert_eq!(rejections.len(), 3);
    assert!(rejections
        .iter()
        .all(|rejection| matches!(rejection, TransitionRejection::RestartRequired { .. })));
    assert!(QUICListener::evaluate_runtime_reload_compatibility(None, None, None, Vec::new())
        .is_ok());
    assert_eq!(
        QUICListener::evaluate_runtime_reload_compatibility(None, None, None, rejections)
            .expect_err("refused")
            .len(),
        3
    );
}

/// Asks for the probes one by one, answers each with `answer`, and tells what was tried.
fn probe_all(
    transition: &ReloadTransition<'_>,
    answer: impl Fn(ProbeKind) -> Result<(), String>,
) -> (Vec<(ProbeKind, String)>, Result<(), Vec<TransitionRejection>>) {
    let mut tried = Vec::new();
    let mut results = Vec::new();
    loop {
        match next_reload_step(transition, &results) {
            ReloadStep::Probe(probe) => {
                results.push(answer(probe.kind));
                tried.push((probe.kind, probe.label));
            }
            ReloadStep::Verdict(verdict) => return (tried, verdict),
        }
    }
}

#[test]
fn probes_are_made_in_order_up_to_the_first_failure() {
    let old = vec!["a:443".to_string()];
    let both = vec!["a:443".to_string(), "b:443".to_string()];
    let (off, api, metrics) = (endpoint(false, 1), endpoint(true, 9_902), endpoint(true, 9_903));
    let primary = Some("a:443".to_string());
    let nothing = None;
    let settings = startup();
    let transition = || ReloadTransition {
        current_listeners: &old,
        next_listeners: &both,
        current_control_api: &off,
        next_control_api: &api,
        current_metrics: &off,
        next_metrics: &metrics,
        metrics_allow_non_loopback: true,
        primary_listener: &primary,
        primary_tls_config: true,
        current_startup: &settings,
        next_startup: &settings,
        sample_ratio_changed: false,
    };
    let order = [
        (ProbeKind::QuicListener, "b:443"),
        (ProbeKind::BootstrapListener, "b:443"),
        (ProbeKind::ControlApiTls, "a:443"),
        (ProbeKind::ControlApiEndpoint, "127.0.0.1:9902"),
        (ProbeKind::MetricsEndpoint, "127.0.0.1:9903"),
        (ProbeKind::MetricsTls, "a:443"),
    ]
    .map(|(kind, label)| (kind, label.to_string()));

    let (tried, verdict) = probe_all(&transition(), |_| Ok(()));
    assert_eq!(tried, order);
    assert!(verdict.is_ok());

    for (position, (failing, label)) in order.iter().enumerate() {
        let (tried, verdict) = probe_all(&transition(), |kind| {
            if kind == *failing {
                Err("in use".to_string())
            } else {
                Ok(())
            }
        });
        assert_eq!(tried, order[..=position]);
        let rejections = verdict.expect_err("refused");
        assert_eq!(rejections.len(), 1);
        assert!(matches!(
            &rejections[0],
            TransitionRejection::ResourcePreflightFailed { component, label: blamed, error }
                if *component == failing.component_name() && blamed == label && error == "in use"
        ));
    }

    let removed = ReloadTransition {
        current_listeners: &both,
        next_listeners: &old,
        ..transition()
    };
    let (tried, verdict) = probe_all(&removed, |_| Ok(()));
    assert!(tried.is_empty());
    assert!(matches!(
        verdict.expect_err("refused").as_slice(),
        [TransitionRejection::ListenerBindChanged { .. }]
    ));

    let without_listener = ReloadTransition {
        next_listeners: &old,
        primary_listener: &nothing,
        ..transition()
    };
    let (tried, verdict) = probe_all(&without_listener, |_| Ok(()));
    assert!(tried.is_empty());
    assert!(matches!(
        verdict.expect_err("refused").as_slice(),
        [TransitionRejection::ResourceMessage(_)]
    ));

    let quiet = ReloadTransition {
        next_listeners: &old,
        next_control_api: &off,
        next_metrics: &off,
        sample_ratio_changed: true,
        ..transition()
    };
    let (tried, verdict) = probe_all(&quiet, |_| Ok(()));
    assert!(tried.is_empty());
    assert!(matches!(
        verdict.expect_err("refused").as_slice(),
        [TransitionRejection::RestartRequired {
            field_path: "observability.tracing.sample_ratio"
        }]
    ));
}
