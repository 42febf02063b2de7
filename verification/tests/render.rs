use impulse_edge::admission::jwks_cache::JwtJwksSharedCache;
use impulse_edge::config::{
    JwksStartupBehavior, JwtAlgorithm, RuntimeAuthPolicy, RuntimeConfig, RuntimeJwtAuth,
    RuntimeUpstream, RuntimeUpstreamPolicy, WallTime, SECOND,
};
use impulse_edge::control_api::reload::activate::RunningGeneration;
use impulse_edge::control_api::reload::generation::{
    GenerationHistoryEntry, GenerationOperation, GenerationStatus, ReloadDiff,
};
use impulse_edge::control_api::render::backends::{
    health_failure_reason_label, BackendHealthState, BackendLifecycleInventorySnapshot,
    BackendLifecycleInventorySummary, BackendLifecycleSnapshot, BackendMembershipState,
    BackendPoolPlacementSnapshot, ControlApiBackendHealthSummaryPayload,
    ControlApiBackendInventoryPayload, HealthFailureReason,
};
use impulse_edge::control_api::render::observability::{
    ControlApiObservabilityPayload, GenerationChangeEvent, ObservabilityState,
    RECENT_ADMIN_ACTION_LIMIT,
};
use impulse_edge::control_api::render::providers::build_auth_and_jwks_payloads;
use impulse_edge::control_api::render::quota::{
    QuotaBackendErrorSnapshot, QuotaBackendStatusSnapshot, QuotaPolicyIntrospectionSnapshot,
    QuotaRuntimeSnapshot, QuotaSelectorIntrospectionSnapshot, QuotaWindowIntrospectionSnapshot,
};
use impulse_edge::control_api::render::redaction::{option_is_present, sanitize_path};
use impulse_edge::control_api::render::runtime::{
    AdaptiveAdmissionState, ControlApiMetricsPayload, ControlApiRuntimePayload,
    ControlApiRuntimeState, ListenerTlsState, NamedCount, RuntimeGenerationRecord, WatchdogState,
};
use impulse_edge::control_api::render::secrets::{
    build_secrets_payload, build_tls_upstreams, SecretMetadata, SecretProviderConfig,
    UpstreamTlsPolicy,
};
use impulse_edge::listener::QUICListener;
use impulse_edge::status::StatusCode;

fn assert_health_reason_token(reason: HealthFailureReason, expected: &'static str) {
    let control_plane_reason = health_failure_reason_label(reason);
    let structured_log_token = format!("health_reason={control_plane_reason}");

    assert_eq!(
        control_plane_reason, expected,
        "control-plane health reason token should stay canonical"
    );
    assert_eq!(
        structured_log_token,
        format!("health_reason={expected}"),
        "structured log token should reuse the canonical health reason value"
    );
}

#[test]
fn control_plane_health_reason_tokens_match_metric_reason_labels() {
    assert_health_reason_token(HealthFailureReason::HttpStatus5xx, "5xx");
    assert_health_reason_token(HealthFailureReason::Timeout, "timeout");
    assert_health_reason_token(HealthFailureReason::Transport, "transport");
    assert_health_reason_token(HealthFailureReason::Tls, "tls");
    assert_health_reason_token(HealthFailureReason::CircuitOpen, "circuit_open");
}

#[test]
fn unhealthy_backend_reason_tokens_stay_aligned_across_surfaces() {
    for (reason, expected) in [
        (HealthFailureReason::Timeout, "timeout"),
        (HealthFailureReason::Transport, "transport"),
        (HealthFailureReason::Tls, "tls"),
    ] {
        assert_health_reason_token(reason, expected);
    }
}

fn backend(
    name: &str,
    health: BackendHealthState,
    membership: BackendMembershipState,
) -> BackendLifecycleSnapshot {
    BackendLifecycleSnapshot {
        backend_addr: name.to_string(),
        authority_host: format!("{name}.internal"),
        authority_port: 8443,
        resolved_addrs: vec!["10.0.0.10:8443".to_string()],
        last_refresh_success_at: Some(WallTime::SinceEpoch { secs: 77 }),
        refresh_generation: 5,
        health,
        membership,
        placements: vec![BackendPoolPlacementSnapshot {
            upstream_name: "api".to_string(),
            backend_index: 2,
            healthy: true,
            active_requests: 3,
            ewma_latency_ms_bits: Some(1.5f64.to_bits()),
            membership_epoch: 9,
        }],
    }
}

fn inventory() -> BackendLifecycleInventorySnapshot {
    BackendLifecycleInventorySnapshot {
        backends: vec![
            backend(
                "backend-a",
                BackendHealthState::Healthy,
                BackendMembershipState::Active,
            ),
            backend(
                "backend-b",
                BackendHealthState::Unhealthy {
                    reason: Some(HealthFailureReason::Timeout),
                },
                BackendMembershipState::Suppressed,
            ),
            backend(
                "backend-c",
                BackendHealthState::Unknown,
                BackendMembershipState::Removed,
            ),
        ],
    }
}

#[test]
fn backend_inventory_payload_preserves_runtime_snapshot_field_meanings() {
    let inventory = BackendLifecycleInventorySnapshot {
        backends: vec![
            BackendLifecycleSnapshot {
                backend_addr: "backend-a".to_string(),
                authority_host: "backend-a.internal".to_string(),
                authority_port: 8443,
                resolved_addrs: vec!["10.0.0.10:8443".to_string()],
                last_refresh_success_at: None,
                refresh_generation: 4,
                health: BackendHealthState::Unhealthy {
                    reason: Some(HealthFailureReason::Timeout),
                },
                membership: BackendMembershipState::Suppressed,
                placements: Vec::new(),
            },
            BackendLifecycleSnapshot {
                backend_addr: "backend-b".to_string(),
                authority_host: "backend-b.internal".to_string(),
                authority_port: 9443,
                resolved_addrs: vec!["10.0.0.11:9443".to_string()],
                last_refresh_success_at: None,
                refresh_generation: 2,
                health: BackendHealthState::Healthy,
                membership: BackendMembershipState::Active,
                placements: vec![BackendPoolPlacementSnapshot {
                    upstream_name: "api".to_string(),
                    backend_index: 0,
                    healthy: true,
                    active_requests: 1,
                    ewma_latency_ms_bits: Some(12.5f64.to_bits()),
                    membership_epoch: 9,
                }],
            },
        ],
    };

    let payload = ControlApiBackendInventoryPayload::from_inventory(&inventory, 1, 1);
    let lifecycle = &payload.lifecycle;

    assert_eq!(lifecycle[0].backend, "backend-a");
    assert_eq!(lifecycle[0].health, "unhealthy");
    assert_eq!(lifecycle[0].health_reason, Some("timeout"));
    assert_eq!(lifecycle[0].membership, "suppressed");
    assert_eq!(lifecycle[0].authority_host, "backend-a.internal");
    assert_eq!(lifecycle[0].authority_port, 8443);
    assert_eq!(lifecycle[0].resolution_generation, 4);

    assert_eq!(lifecycle[1].backend, "backend-b");
    assert_eq!(lifecycle[1].health, "healthy");
    assert!(
        lifecycle[1].health_reason.is_none(),
        "healthy payloads must omit optional health_reason"
    );
    assert_eq!(lifecycle[1].membership, "active");
    assert_eq!(lifecycle[1].placements.len(), 1);
}

#[test]
fn inventory_shows_every_field_of_its_backends() {
    let payload = ControlApiBackendInventoryPayload::from_inventory(&inventory(), 1, 2);
    assert_eq!(payload.healthy, 1);
    assert_eq!(payload.total, 2);
    assert_eq!(payload.lifecycle.len(), 3);
    let first = &payload.lifecycle[0];
    assert_eq!(first.backend, "backend-a");
    assert_eq!(first.health, "healthy");
    assert_eq!(first.health_reason, None);
    assert_eq!(first.membership, "active");
    assert_eq!(first.authority_host, "backend-a.internal");
    assert_eq!(first.authority_port, 8443);
    assert_eq!(first.resolved_addrs, vec!["10.0.0.10:8443".to_string()]);
    assert_eq!(first.resolution_generation, 5);
    assert_eq!(first.last_refresh_success_at_unix_seconds, Some(77));
    assert_eq!(first.placements[0].upstream, "api");
    assert_eq!(first.placements[0].backend_index, 2);
    assert_eq!(
        first.placements[0].ewma_latency_ms_bits.map(f64::from_bits),
        Some(1.5)
    );
    assert_eq!(payload.lifecycle[1].health, "unhealthy");
    assert_eq!(payload.lifecycle[1].health_reason, Some("timeout"));
    assert_eq!(payload.lifecycle[1].membership, "suppressed");
    assert_eq!(payload.lifecycle[2].health, "unknown");
    assert_eq!(payload.lifecycle[2].membership, "removed");
}

#[test]
fn memberships_of_a_summary_add_up() {
    let summary = BackendLifecycleInventorySummary {
        healthy_backends: 1,
        total_backends: 2,
    };
    let payload = ControlApiBackendHealthSummaryPayload::from_inventory(&inventory(), summary);
    assert_eq!(
        payload.active_membership + payload.suppressed_membership + payload.removed_membership,
        3
    );
    assert_eq!(payload.healthy, 1);
}

#[test]
fn paths_are_shown_without_their_directory() {
    assert_eq!(sanitize_path("/etc/impulse/tls/cert.pem"), ".../cert.pem");
    assert_eq!(sanitize_path("  "), "<empty>");
    for path in ["/", "..", "a/..", "a/.", "./", ".", "a//b/", "/a/./b/.", "a/ b", "...", "x"] {
        let shown = match std::path::Path::new(path).file_name() {
            Some(name) => format!(".../{}", name.to_str().expect("text")),
            None => "<path>".to_string(),
        };
        assert_eq!(sanitize_path(path), shown);
    }
    assert!(option_is_present(Some("x")));
    assert!(!option_is_present(Some("  ")));
    assert!(!option_is_present(None));
}

fn watchdog(restart_requested: bool) -> WatchdogState {
    WatchdogState {
        enabled: true,
        degraded: false,
        restart_requested,
        restart_reason: String::new(),
        restart_requested_at_ms: 0,
    }
}

#[test]
fn health_and_readiness_are_told() {
    let health = QUICListener::render_control_api_health(42, &watchdog(false));
    assert_eq!(health.uptime_ms, 42);
    assert!(health.watchdog_enabled);
    let some = BackendLifecycleInventorySummary {
        healthy_backends: 1,
        total_backends: 2,
    };
    let none = BackendLifecycleInventorySummary {
        healthy_backends: 0,
        total_backends: 2,
    };
    let (status, payload) = QUICListener::render_control_api_ready(some, false);
    assert_eq!(status, StatusCode::Success);
    assert!(payload.ready);
    let (status, payload) = QUICListener::render_control_api_ready(none, false);
    assert_eq!(status, StatusCode::ServiceUnavailable);
    assert!(!payload.ready);
    let (status, _) = QUICListener::render_control_api_ready(some, true);
    assert_eq!(status, StatusCode::ServiceUnavailable);
}

fn entry(generation: u64) -> GenerationHistoryEntry {
    GenerationHistoryEntry {
        generation,
        operation: GenerationOperation::Activate,
        status: GenerationStatus::Active,
        config_source: "/etc/impulse/config.yaml".to_string(),
        config_version: None,
        requested_by: None,
        trigger_source: None,
        requested_at_ms: generation,
        completed_at_ms: None,
        summary: format!("generation {generation}"),
        diff: ReloadDiff {
            entries: Vec::new(),
        },
        rejected_changes: Vec::new(),
        document: format!("{{\"generation\":{generation}}}"),
    }
}

fn quota_status() -> QuotaBackendStatusSnapshot {
    QuotaBackendStatusSnapshot {
        backend_mode: "in_memory".to_string(),
        availability: "available".to_string(),
        degraded: false,
        health_reason: None,
        last_observed_at_unix_ms: None,
        recent_errors: Vec::new(),
    }
}

#[test]
fn recent_actions_are_the_first_events_of_the_list() {
    let events: Vec<GenerationChangeEvent> = (0..7u64)
        .map(|generation| GenerationChangeEvent {
            kind: "activated",
            entry: entry(generation),
            emitted_at_ms: generation,
        })
        .collect();
    let inventory = inventory();
    let status = quota_status();
    let state = ObservabilityState {
        current_generation: Some(6),
        quota_enabled: false,
        events: Some(&events),
        inventory: &inventory,
        summary: BackendLifecycleInventorySummary {
            healthy_backends: 1,
            total_backends: 2,
        },
        quota_status: &status,
    };
    let payload = ControlApiObservabilityPayload::from_runtime_state(&state);
    let shown: Vec<u64> = payload
        .recent_admin_actions
        .iter()
        .map(|action| action.generation)
        .collect();
    assert_eq!(shown.len(), RECENT_ADMIN_ACTION_LIMIT);
    assert_eq!(shown, vec![0, 1, 2, 3, 4]);

    let record = RuntimeGenerationRecord {
        generation: 6,
        status: "active",
        rollback_candidate: false,
        has_bundle: true,
        note: None,
    };
    let history = vec![entry(5), entry(6), entry(6)];
    let one = QUICListener::render_control_api_runtime_history_generation(
        6,
        &state,
        Some(&record),
        history,
    )
    .expect("known generation");
    assert_eq!(one.entries.len(), 2);
    assert_eq!(one.entries[0].document, "{\"generation\":6}");
    let unknown = QUICListener::render_control_api_runtime_history_generation(
        9,
        &state,
        None,
        Vec::new(),
    )
    .expect_err("unknown generation");
    assert_eq!(unknown.status, StatusCode::NotFound);
    let all = QUICListener::render_control_api_runtime_history(
        6,
        &state,
        &vec![record],
        vec![entry(5)],
    );
    assert_eq!(all.retained_generations.len(), 1);
    assert_eq!(all.entries.len(), 1);
}

#[test]
fn secrets_are_shown_by_their_metadata_alone() {
    let policies = vec![UpstreamTlsPolicy {
        name: "api".to_string(),
        verify_certificates: true,
        strict_sni: false,
        ca_file: Some("/etc/ca.pem".to_string()),
        ca_dir: None,
        client_certificate: Some(SecretMetadata {
            source_kind: "file".to_string(),
            loaded_at_unix_ms: 12,
        }),
        client_key: None,
        client_certificate_not_after_unix_seconds: Some(99),
    }];
    let upstreams = build_tls_upstreams(&policies);
    assert_eq!(upstreams.len(), 1);
    assert!(upstreams[0].custom_ca_file_configured);
    assert!(!upstreams[0].custom_ca_dir_configured);
    let shown = upstreams[0].client_certificate.as_ref().expect("certificate");
    assert_eq!(shown.expiry_not_after_unix_seconds, Some(99));
    assert_eq!(shown.last_loaded_at_unix_ms, 12);

    let secrets = build_secrets_payload(
        &vec![SecretProviderConfig {
            provider: "vault".to_string(),
            base_dir: None,
        }],
        &Some("vault".to_string()),
        &policies,
    );
    assert!(secrets.providers[0].default_provider);
    assert!(!secrets.providers[0].base_dir_configured);
    assert_eq!(secrets.material.len(), 1);
}

#[test]
fn configuration_without_tokens_has_no_sources() {
    let payloads = build_auth_and_jwks_payloads(
        &RuntimeConfig {
            upstreams: Vec::new(),
        },
        &JwtJwksSharedCache::new(),
        SECOND,
        WallTime::SinceEpoch { secs: 1 },
    );
    assert!(payloads.providers.is_empty());
    assert!(payloads.sources.is_empty());
}

fn quota() -> QuotaRuntimeSnapshot {
    QuotaRuntimeSnapshot {
        enabled: true,
        enforcement: "enforce",
        backend_failure_policy: "fail_open",
        policies: vec![QuotaPolicyIntrospectionSnapshot {
            name: "tenant-contract".to_string(),
            route_allowlist: vec!["api".to_string()],
            selector: QuotaSelectorIntrospectionSnapshot {
                route: true,
                tenant: Some("header:x-tenant-id".to_string()),
                token: None,
                client: None,
            },
            burst: Some(QuotaWindowIntrospectionSnapshot {
                requests: 50,
                window_secs: 1,
            }),
            sustained: None,
        }],
    }
}

fn remote_upstream(name: &str) -> RuntimeUpstream {
    RuntimeUpstream {
        name: name.to_string(),
        policy: RuntimeUpstreamPolicy {
            upstream_auth: RuntimeAuthPolicy {
                api_key: None,
                jwt: Some(RuntimeJwtAuth {
                    secret: String::new(),
                    issuer: Some("issuer-1".to_string()),
                    issuers: vec!["issuer-2".to_string()],
                    audience: None,
                    audiences: vec!["aud-1".to_string()],
                    clock_skew: 0,
                    allowed_algorithms: vec![JwtAlgorithm::Rs256],
                    require_kid: true,
                    static_keys: Vec::new(),
                    jwks_url: Some("https://a.example/jwks?token=secret".to_string()),
                    jwks_refresh_interval: 60 * SECOND,
                    jwks_request_timeout: SECOND,
                    jwks_cache_ttl: 60 * SECOND,
                    jwks_stale_if_error: 60 * SECOND,
                    jwks_startup_behavior: JwksStartupBehavior::AllowDegraded,
                }),
                required_scopes: Vec::new(),
                required_roles: Vec::new(),
            },
        },
    }
}

#[test]
fn runtime_is_shown_with_its_parts() {
    let watchdog = watchdog(true);
    let quota = quota();
    let mut status = quota_status();
    status.recent_errors.push(QuotaBackendErrorSnapshot {
        observed_at_unix_ms: Some(4),
        policy_name: None,
        reason: "backend_timeout".to_string(),
        detail: None,
    });
    let running = RunningGeneration {
        generation: 6,
        config_path: "/etc/impulse/config.yaml".to_string(),
        log_level: "info".to_string(),
    };
    let inventory = inventory();
    let config = RuntimeConfig {
        upstreams: vec![remote_upstream("web"), remote_upstream("api")],
    };
    let failures = vec![NamedCount {
        name: "token_expired".to_string(),
        count: 3,
    }];
    let none = Vec::new();
    let listeners = vec![ListenerTlsState {
        listener: "edge-primary".to_string(),
        default_cert_path: "/etc/tls/cert.pem".to_string(),
        default_key_path: "/etc/tls/key.pem".to_string(),
        default_cert_not_after_unix_seconds: 99,
        sni_names: vec!["a.example".to_string()],
        client_auth_enabled: true,
        require_client_cert: false,
        generation: 2,
        loaded_at_unix_ms: 12,
        last_reload_status: "loaded".to_string(),
    }];
    let policies = Vec::new();
    let providers = Vec::new();
    let default_provider = None;
    let state = ControlApiRuntimeState {
        uptime_ms: 42,
        expected_workers: 4,
        watchdog: &watchdog,
        adaptive_admission: AdaptiveAdmissionState {
            enabled: true,
            current_limit: 10,
            inflight_percent: 50,
        },
        quota: &quota,
        quota_status: &status,
        running: Some(&running),
        events: None,
        inventory: &inventory,
        summary: BackendLifecycleInventorySummary {
            healthy_backends: 1,
            total_backends: 2,
        },
        config: &config,
        jwt_validation_failures: &failures,
        jwt_algorithm_rejections: &none,
        unknown_kid_events: &none,
        metrics: ControlApiMetricsPayload {
            requests_total: 7,
            requests_success: 6,
            requests_failure: 1,
            active_connections: 2,
            backend_timeouts: 0,
            backend_errors: 1,
        },
        listeners: &listeners,
        tls_policies: &policies,
        secret_providers: &providers,
        default_secret_provider: &default_provider,
    };
    let payload = ControlApiRuntimePayload::from_state(
        &state,
        &JwtJwksSharedCache::new(),
        SECOND,
        WallTime::SinceEpoch { secs: 1 },
    );
    assert_eq!(payload.uptime_ms, 42);
    assert_eq!(payload.expected_workers, 4);
    assert!(payload.watchdog.restart_requested);
    assert_eq!(payload.adaptive_admission.current_limit, 10);
    assert_eq!(payload.quota.active_backend, "in_memory");
    assert_eq!(payload.quota.policies[0].name, "tenant-contract");
    assert_eq!(payload.quota.backend_status.recent_errors.len(), 1);
    assert_eq!(payload.observability.current_generation, Some(6));
    assert_eq!(payload.observability.quota_backend_health_summary.recent_error_count, 1);
    assert_eq!(payload.observability.dashboard_packages.len(), 6);
    assert!(payload.observability.recent_admin_actions.is_empty());
    let shown: Vec<&str> = payload
        .auth_and_jwks
        .providers
        .iter()
        .map(|provider| provider.upstream.as_str())
        .collect();
    assert_eq!(shown, vec!["api", "web"]);
    let jwt = payload.auth_and_jwks.providers[0].jwt.as_ref().expect("jwt");
    assert_eq!(jwt.provider_mode, "remote_jwks");
    assert_eq!(jwt.issuers, vec!["issuer-1".to_string(), "issuer-2".to_string()]);
    assert!(!jwt.jwks_active);
    assert_eq!(jwt.jwks_cache_state, Some("never_fetched"));
    assert_eq!(payload.auth_and_jwks.sources.len(), 1);
    assert_eq!(payload.jwt_validation_failures[0].count, 3);
    assert_eq!(payload.backends.lifecycle.len(), 3);
    assert_eq!(payload.metrics.requests_total, 7);
    assert_eq!(payload.tls_listeners[0].default_cert, ".../cert.pem");
    assert_eq!(payload.tls_listeners[0].default_key, ".../key.pem");
    assert_eq!(payload.runtime.expect("runtime").config_path, "/etc/impulse/config.yaml");
    assert_eq!(payload.extension_model_status, "non_goal");
}
