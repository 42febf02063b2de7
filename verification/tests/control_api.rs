use impulse_edge::control_api::audit::{
    admin_audit_schema_version, audit_delivery, audit_writer_path, AdminAuditAction,
    AdminAuditActor, AdminAuditAuthn, AdminAuditEvent, AdminAuditEventType,
    AdminAuditFailureClass, AdminAuditGeneration, AdminAuditResult, AdminAuditTarget,
    AuditDelivery, AuditWriterState,
};
use impulse_edge::control_api::auth::{
    AuthenticationOutcome, ControlApiGate, ControlApiRequest, GateRefusal, ThrottleAction,
};
use impulse_edge::control_api::identity::{
    AdminAuthnMechanism, AdminIdentity, AdminMtlsIdentity, AdminRole, AdminTokenMatch,
    ControlApiIdentitySourcePolicy, ControlApiRequestContext, PeerAddr,
};
use impulse_edge::control_api::route::{ControlApiPaths, ControlApiRoute, Method};
use impulse_edge::control_api::security::{
    runtime_bearer_tokens, ConfiguredCidr, ControlApiAdminAuditTarget, ControlApiAuditConfig,
    ControlApiAuditPolicy, ControlApiAuditSink, ControlApiAuthConfig,
    ControlApiAuthorizationPolicy, ControlApiBearerToken, ControlApiClientAuthConfig,
    ControlApiClientAuthMode, ControlApiConfig, ControlApiIdentitySource,
    ControlApiIpAllowlistConfig, ControlApiIpNetwork, ControlApiSecurityPolicy, IpAddress,
};
use impulse_edge::headers::RequestHeaders;
use impulse_edge::listener::QUICListener;
use impulse_edge::status::StatusCode;

/// A certificate of CN=alice with three organizational units and three alternative names.
const CERTIFICATE: &[&str] = &[
    "3082016f30820121a003020102020107300506032b65703046310e300c06035504030c05616c696365311130",
    "0f060355040b0c084f70657261746f723111300f060355040b0c082076696577657220310e300c060355040b",
    "0c057374616666301e170d3234303130313030303030305a170d3334303130313030303030305a3046310e30",
    "0c06035504030c05616c6963653111300f060355040b0c084f70657261746f723111300f060355040b0c0820",
    "76696577657220310e300c060355040b0c057374616666302a300506032b657003210003a107bff3ce10be1d",
    "70dd18e74bc09967e4d6309ba50d5f1ddc8664125531b8a334303230300603551d1104293027820e616c6963",
    "652e696e7465726e616c860e7370696666653a2f2f616c69636581056140622e63300506032b6570034100b6",
    "fe7e2b28c4831f69a10840fea1e9c788d4ed590ff2e71ba9e95a89d4eb4c17f1fc63b792ff183e43a022c46c",
    "21eb9d42702bc484d49434ab8c6afe0f35570f",
];

fn certificate() -> Vec<u8> {
    hex::decode(CERTIFICATE.concat()).expect("hex")
}

fn v4(a: u32, b: u32, c: u32, d: u32) -> IpAddress {
    IpAddress::V4(a << 24 | b << 16 | c << 8 | d)
}

fn peer() -> PeerAddr {
    PeerAddr {
        ip: v4(10, 0, 0, 9),
        text: "10.0.0.9:9999".to_string(),
    }
}

fn config() -> ControlApiConfig {
    ControlApiConfig {
        auth_token: Some("legacy".to_string()),
        auth: ControlApiAuthConfig {
            bearer_tokens: vec![
                ControlApiBearerToken {
                    token: "reader".to_string(),
                    role: AdminRole::Viewer,
                    actor_id: Some("bob".to_string()),
                },
                ControlApiBearerToken {
                    token: "writer".to_string(),
                    role: AdminRole::Operator,
                    actor_id: Some("alice".to_string()),
                },
            ],
            identity_source: None,
        },
        authorization: ControlApiAuthorizationPolicy {
            protect_health: false,
            protect_ready: true,
            runtime_read_role: AdminRole::Viewer,
            runtime_mutate_role: AdminRole::Operator,
            restart_role: AdminRole::Admin,
        },
        ip_allowlist: ControlApiIpAllowlistConfig {
            cidrs: Vec::new(),
            trust_proxy_headers: false,
        },
        client_auth: ControlApiClientAuthConfig {
            mode: ControlApiClientAuthMode::Disabled,
            ca_file: None,
            ca_dir: None,
        },
        audit: ControlApiAuditConfig {
            enabled: true,
            sink: ControlApiAuditSink::Log,
            file_path: None,
        },
    }
}

fn paths() -> ControlApiPaths {
    ControlApiPaths {
        health_path: "/health".to_string(),
        ready_path: "/ready".to_string(),
        runtime_path: "/admin/runtime".to_string(),
        runtime_validate_path: "/admin/runtime/validate".to_string(),
        runtime_preview_path: "/admin/runtime/preview".to_string(),
        runtime_activate_path: "/admin/runtime/activate".to_string(),
        runtime_rollback_path: "/admin/runtime/rollback".to_string(),
        runtime_history_path: "/admin/runtime/history".to_string(),
        runtime_history_entry_prefix: "/admin/runtime/history/".to_string(),
        reload_path: "/admin/reload".to_string(),
        reload_certs_path: "/admin/reload-certs".to_string(),
        restart_path: "/admin/restart".to_string(),
    }
}

fn request(method: Method, path: &str, token: Option<&str>) -> ControlApiRequest {
    let entries = match token {
        Some(token) => vec![("Authorization".to_string(), Some(format!("Bearer {token}")))],
        None => Vec::new(),
    };
    ControlApiRequest {
        method,
        path: path.to_string(),
        headers: RequestHeaders { entries },
        context: Some(context(None)),
        source_ip: v4(10, 0, 0, 9),
    }
}

fn context(mtls_identity: Option<AdminMtlsIdentity>) -> ControlApiRequestContext {
    ControlApiRequestContext {
        peer_addr: peer(),
        mtls_identity,
        listener: Some("edge-primary".to_string()),
        request_id: Some("req-7".to_string()),
        trace_id: None,
        span_id: None,
    }
}

fn mtls(roles: Vec<AdminRole>) -> AdminMtlsIdentity {
    AdminMtlsIdentity {
        subject: Some("CN=alice".to_string()),
        common_name: Some("alice".to_string()),
        san_dns: vec!["alice.internal".to_string()],
        san_uri: vec!["spiffe://alice".to_string()],
        roles,
    }
}

#[test]
fn admin_audit_failure_class_serializes_low_cardinality_category() {
    assert_eq!(
        QUICListener::control_api_audit_failure_class(
            AdminAuditEventType::RuntimeValidate,
            AdminAuditResult::Failed,
            Some("invalid_request_body"),
        ),
        Some(AdminAuditFailureClass::RequestValidation)
    );
    assert_eq!(
        QUICListener::control_api_audit_failure_class(
            AdminAuditEventType::Auth,
            AdminAuditResult::Denied,
            Some("invalid_bearer_token"),
        ),
        Some(AdminAuditFailureClass::Authentication)
    );
    assert_eq!(
        QUICListener::control_api_audit_failure_class(
            AdminAuditEventType::RuntimeRestart,
            AdminAuditResult::Failed,
            Some("watchdog_disabled"),
        ),
        Some(AdminAuditFailureClass::Watchdog)
    );
}

#[test]
fn successes_have_no_failure_class() {
    assert_eq!(
        QUICListener::control_api_audit_failure_class(
            AdminAuditEventType::Auth,
            AdminAuditResult::Success,
            Some("invalid_bearer_token"),
        ),
        None
    );
}

#[test]
fn certificate_gives_names_and_roles() {
    let source = ControlApiIdentitySourcePolicy {
        kind: "mtls_san_uri".to_string(),
        role_attribute: Some("ou".to_string()),
    };
    let identity = QUICListener::parse_admin_mtls_identity(&certificate(), Some(&source))
        .expect("certificate");
    assert_eq!(identity.common_name.as_deref(), Some("alice"));
    assert_eq!(identity.san_dns, vec!["alice.internal".to_string()]);
    assert_eq!(identity.san_uri, vec!["spiffe://alice".to_string()]);
    assert_eq!(identity.roles, vec![AdminRole::Operator, AdminRole::Viewer]);
    assert_eq!(
        identity.subject.as_deref(),
        Some("CN=alice, OU=Operator, OU= viewer , OU=staff")
    );
    assert_eq!(
        QUICListener::actor_id_from_mtls_identity(&identity, Some(&source)).as_deref(),
        Some("spiffe://alice")
    );
    assert_eq!(
        QUICListener::actor_id_from_mtls_identity(&identity, None).as_deref(),
        Some("alice")
    );
    let plain = QUICListener::parse_admin_mtls_identity(&certificate(), None).expect("certificate");
    assert!(plain.roles.is_empty());
    assert!(QUICListener::parse_admin_mtls_identity(&certificate()[1..], None).is_none());
}

#[test]
fn context_holds_what_the_connection_shows() {
    let built = QUICListener::build_control_api_request_context(
        peer(),
        Some(certificate().as_slice()),
        None,
        Some("edge-primary".to_string()),
    );
    assert_eq!(
        built.mtls_identity.as_ref().expect("mtls").common_name.as_deref(),
        Some("alice")
    );
    let headers = RequestHeaders {
        entries: vec![
            ("X-Request-Id".to_string(), Some("req-7".to_string())),
            ("traceparent".to_string(), Some("00-a-b-01".to_string())),
        ],
    };
    assert_eq!(
        QUICListener::control_api_trace_header(&headers).as_deref(),
        Some("00-a-b-01")
    );
    let augmented = QUICListener::augment_control_api_request_context(
        built,
        &headers,
        Some(("a".to_string(), "b".to_string())),
    );
    assert_eq!(augmented.request_id.as_deref(), Some("req-7"));
    assert_eq!(augmented.trace_id.as_deref(), Some("a"));
    assert_eq!(augmented.span_id.as_deref(), Some("b"));
}

#[test]
fn token_beside_a_certificate_never_raises_the_role() {
    let held = context(Some(mtls(vec![AdminRole::Viewer])));
    let token = AdminTokenMatch {
        actor_id: Some("alice".to_string()),
        role: AdminRole::Admin,
    };
    let identity = QUICListener::build_admin_identity(Some(&held), Some(token), None)
        .expect("identity");
    assert_eq!(identity.roles, vec![AdminRole::Viewer]);
    assert_eq!(identity.actor_id.as_deref(), Some("alice"));
    assert_eq!(
        identity.authn_mechanisms,
        vec![AdminAuthnMechanism::BearerToken, AdminAuthnMechanism::MutualTls]
    );
    assert_eq!(
        identity.mtls_san,
        vec!["alice.internal".to_string(), "spiffe://alice".to_string()]
    );

    let stranger = AdminTokenMatch {
        actor_id: Some("mallory".to_string()),
        role: AdminRole::Viewer,
    };
    let identity = QUICListener::build_admin_identity(Some(&held), Some(stranger), None)
        .expect("identity");
    assert_eq!(identity.actor_id, None);
    assert!(QUICListener::build_admin_identity(Some(&context(None)), None, None).is_none());
}

#[test]
fn certificate_alone_gives_its_roles_in_order() {
    let held = context(Some(mtls(vec![
        AdminRole::Admin,
        AdminRole::Viewer,
        AdminRole::Admin,
    ])));
    let identity = QUICListener::build_admin_identity(Some(&held), None, None).expect("identity");
    assert_eq!(identity.roles, vec![AdminRole::Viewer, AdminRole::Admin]);
}

#[test]
fn roles_are_ordered() {
    assert!(AdminRole::Admin.at_least(AdminRole::Operator));
    assert!(!AdminRole::Viewer.at_least(AdminRole::Operator));
    assert_eq!(
        AdminRole::most_privileged(&vec![AdminRole::Viewer, AdminRole::Operator]),
        Some(AdminRole::Operator)
    );
    assert_eq!(AdminRole::most_privileged(&Vec::new()), None);
    assert_eq!(
        AdminRole::least_privileged(AdminRole::Admin, AdminRole::Viewer),
        AdminRole::Viewer
    );
    assert_eq!(QUICListener::parse_admin_role(" Admin "), Some(AdminRole::Admin));
    assert_eq!(QUICListener::parse_admin_role("root"), None);
}

#[test]
fn networks_cover_the_addresses_behind_their_prefix() {
    let ten = ControlApiIpNetwork::parse("10.1.2.3/8", Some(v4(10, 1, 2, 3))).expect("network");
    assert_eq!(
        ten,
        ControlApiIpNetwork::V4 {
            network: 10 << 24,
            prefix_len: 8
        }
    );
    assert!(ten.contains(v4(10, 255, 0, 1)));
    assert!(!ten.contains(v4(11, 0, 0, 0)));
    assert!(!ten.contains(IpAddress::V6(10 << 24)));
    let all = ControlApiIpNetwork::parse("0.0.0.0/0", Some(v4(0, 0, 0, 0))).expect("network");
    assert!(all.contains(v4(255, 255, 255, 255)));
    let one = ControlApiIpNetwork::parse("::1/128", Some(IpAddress::V6(1))).expect("network");
    assert!(one.contains(IpAddress::V6(1)));
    assert!(!one.contains(IpAddress::V6(0)));
    assert_eq!(ControlApiIpNetwork::parse("10.0.0.0/33", Some(v4(10, 0, 0, 0))), None);
    assert_eq!(ControlApiIpNetwork::parse("10.0.0.0/x", Some(v4(10, 0, 0, 0))), None);
    assert_eq!(ControlApiIpNetwork::parse("what/8", None), None);
    assert_eq!(
        ControlApiIpNetwork::address_text("10.1.2.3/8").as_deref(),
        Some("10.1.2.3")
    );
}

#[test]
fn routes_are_told_apart_by_method_and_path() {
    let paths = paths();
    let route = |method, path| QUICListener::control_api_request_route_for(method, path, &paths);
    assert_eq!(route(Method::Get, "/health"), Some(ControlApiRoute::Health));
    assert_eq!(route(Method::Post, "/health"), None);
    assert_eq!(route(Method::Post, "/admin/reload"), Some(ControlApiRoute::ReloadRuntime));
    assert_eq!(route(Method::Other, "/admin/reload"), None);
    assert_eq!(
        route(Method::Get, "/admin/runtime/history/42"),
        Some(ControlApiRoute::RuntimeHistoryGeneration(42))
    );
    assert_eq!(route(Method::Get, "/admin/runtime/history/x"), None);
    assert_eq!(
        route(Method::Get, "/admin/runtime/history/18446744073709551616"),
        None
    );
    assert_eq!(
        QUICListener::control_api_route_name(ControlApiRoute::RuntimeHistoryGeneration(42)),
        "/admin/runtime/history/{generation}"
    );
}

#[test]
fn tokens_of_the_configuration_are_known() {
    let entries = runtime_bearer_tokens(&config());
    assert_eq!(entries.len(), 3);
    let legacy = QUICListener::control_api_token_match("legacy", &entries).expect("legacy");
    assert_eq!(legacy.role, AdminRole::Admin);
    let reader = QUICListener::control_api_token_match("reader", &entries).expect("reader");
    assert_eq!(reader.actor_id.as_deref(), Some("bob"));
    assert!(QUICListener::control_api_token_match("Reader", &entries).is_none());
    assert!(QUICListener::control_api_token_match("", &entries).is_none());
}

#[test]
fn requests_pass_by_their_role() {
    let security = ControlApiSecurityPolicy::from_config(&config());
    let paths = paths();
    let gate = ControlApiGate {
        security: &security,
        paths: &paths,
        active_generation: Some(3),
    };
    let decide = |method, path: &str, token: Option<&str>| {
        QUICListener::handle_control_api_request(&request(method, path, token), &gate, false)
    };

    let open = decide(Method::Get, "/health", None);
    assert!(matches!(open.decision, Ok(passed) if passed.identity.is_none()));
    assert!(open.records.is_empty());

    let unknown = decide(Method::Get, "/nothing", None);
    assert!(matches!(unknown.decision, Err(GateRefusal::NotFound)));
    assert_eq!(
        QUICListener::control_api_not_found_response().0,
        StatusCode::NotFound
    );

    let missing = decide(Method::Get, "/admin/runtime", None);
    match missing.decision {
        Err(GateRefusal::Refused(error)) => {
            assert_eq!(error.status, StatusCode::Unauthorized);
            assert_eq!(error.required_role, Some("viewer"));
        }
        _ => panic!("credentials are missing"),
    }
    assert_eq!(missing.throttle, ThrottleAction::RecordFailure(v4(10, 0, 0, 9)));
    assert_eq!(missing.records.len(), 1);

    let reading = decide(Method::Get, "/admin/runtime", Some("reader"));
    match reading.decision {
        Ok(passed) => assert_eq!(
            passed.identity.expect("identity").actor_id.as_deref(),
            Some("bob")
        ),
        _ => panic!("a viewer may read"),
    }
    assert_eq!(reading.throttle, ThrottleAction::RecordSuccess(v4(10, 0, 0, 9)));

    let forbidden = decide(Method::Post, "/admin/restart", Some("writer"));
    match forbidden.decision {
        Err(GateRefusal::Refused(error)) => {
            assert_eq!(error.status, StatusCode::Forbidden);
            assert_eq!(error.required_role, Some("admin"));
            assert_eq!(error.accepted, Some(false));
        }
        _ => panic!("an operator may not restart"),
    }
    assert!(!forbidden.records.is_empty());
}

#[test]
fn throttled_sender_is_asked_to_wait() {
    let security = ControlApiSecurityPolicy::from_config(&config());
    let paths = paths();
    let gate = ControlApiGate {
        security: &security,
        paths: &paths,
        active_generation: None,
    };
    let outcome = QUICListener::gate_control_api_request_for(
        &request(Method::Get, "/admin/runtime", Some("reader")),
        &gate,
        true,
    );
    match outcome.decision {
        Err(GateRefusal::Refused(error)) => {
            assert_eq!(error.status, StatusCode::TooManyRequests);
            assert_eq!(error.retry_after_seconds, Some(60));
        }
        _ => panic!("the sender is held off"),
    }
    assert_eq!(outcome.throttle, ThrottleAction::Nothing);
}

#[test]
fn source_is_judged_before_credentials() {
    let mut settings = config();
    settings.ip_allowlist.cidrs = vec![ConfiguredCidr {
        cidr: "192.168.0.0/16".to_string(),
        address: Some(v4(192, 168, 0, 0)),
    }];
    let security = ControlApiSecurityPolicy::from_config(&settings);
    let paths = paths();
    let gate = ControlApiGate {
        security: &security,
        paths: &paths,
        active_generation: None,
    };
    let mut sent = request(Method::Get, "/health", Some("legacy"));
    let outcome = QUICListener::authorize_control_api_request_for(
        &sent,
        &gate,
        false,
        ControlApiRoute::Health,
    );
    assert_eq!(
        outcome.decision.expect_err("outside").status,
        StatusCode::Forbidden
    );
    sent.source_ip = v4(192, 168, 4, 4);
    let outcome = QUICListener::authorize_control_api_request_for(
        &sent,
        &gate,
        false,
        ControlApiRoute::Health,
    );
    assert!(outcome.decision.is_ok());
}

#[test]
fn malformed_credentials_are_told_apart() {
    let mut settings = config();
    let security = ControlApiSecurityPolicy::from_config(&settings);
    let mut sent = request(Method::Get, "/admin/runtime", Some("nobody"));
    assert!(matches!(
        QUICListener::authenticate_control_api_request(&sent, &security),
        AuthenticationOutcome::Invalid("invalid_bearer_token")
    ));
    sent.headers.entries = vec![("authorization".to_string(), None)];
    assert!(matches!(
        QUICListener::authenticate_control_api_request(&sent, &security),
        AuthenticationOutcome::Invalid("invalid_authorization_header")
    ));
    sent.headers.entries = vec![("authorization".to_string(), Some("Basic x".to_string()))];
    assert!(matches!(
        QUICListener::authenticate_control_api_request(&sent, &security),
        AuthenticationOutcome::Invalid("invalid_bearer_token")
    ));
    settings.client_auth.mode = ControlApiClientAuthMode::Required;
    settings.auth.identity_source = Some(ControlApiIdentitySource {
        kind: "mtls_common_name".to_string(),
        role_attribute: None,
    });
    let strict = ControlApiSecurityPolicy::from_config(&settings);
    let without = request(Method::Get, "/admin/runtime", Some("reader"));
    assert!(matches!(
        QUICListener::authenticate_control_api_request(&without, &strict),
        AuthenticationOutcome::Missing
    ));
}

#[test]
fn audit_events_are_stamped_and_keep_the_actor() {
    let identity = AdminIdentity {
        actor_id: Some("alice".to_string()),
        authn_mechanisms: vec![AdminAuthnMechanism::BearerToken],
        roles: vec![AdminRole::Operator],
        peer_addr: Some(peer()),
        mtls_subject: Some("CN=alice".to_string()),
        mtls_san: vec!["spiffe://alice".to_string()],
    };
    let actor = AdminAuditActor::from_identity(Some(&identity));
    assert_eq!(actor.id.as_deref(), Some("alice"));
    assert_eq!(AdminAuditAuthn::from_identity(None).mechanisms.len(), 0);
    let audit = ControlApiAuditPolicy::from_config(&config().audit);
    let mut records = Vec::new();
    QUICListener::emit_control_api_audit_event(
        &audit,
        &mut records,
        Some(&identity),
        Some(&context(None)),
        AdminAuditEventType::RuntimeReload,
        AdminAuditAction::RuntimeReloadAttempt,
        AdminAuditTarget {
            route: Some("/admin/runtime/reload".to_string()),
            resource: Some("control_api".to_string()),
            config_path: Some("/etc/impulse/config.yaml".to_string()),
        },
        AdminAuditGeneration {
            active_generation: Some(7),
            candidate_generation: Some(8),
            target_generation: None,
        },
        AdminAuditResult::Success,
        Some("operator_requested"),
    );
    assert_eq!(records.len(), 1);
    let event = AdminAuditEvent::stamp(records.remove(0), 1, 42);
    assert_eq!(event.schema_version, admin_audit_schema_version());
    assert_eq!(event.time_unix_ms, 42);
    assert_eq!(event.record.peer_addr.as_deref(), Some("10.0.0.9:9999"));
    assert_eq!(event.record.request_id.as_deref(), Some("req-7"));
    assert_eq!(event.record.failure_class, None);

    let mut silent = config().audit;
    silent.enabled = false;
    QUICListener::emit_control_api_auth_audit_event(
        &ControlApiAuditPolicy::from_config(&silent),
        &mut records,
        None,
        None,
        ControlApiRoute::Runtime,
        None,
        AdminAuditResult::Denied,
        "missing_credentials",
    );
    assert!(records.is_empty());
}

#[test]
fn audit_records_go_where_the_writer_allows() {
    let file = ControlApiAdminAuditTarget::File(Some("/var/log/audit.jsonl".to_string()));
    assert_eq!(audit_delivery(&file, AuditWriterState::Running), AuditDelivery::Enqueue);
    assert_eq!(audit_delivery(&file, AuditWriterState::StartFailed), AuditDelivery::Drop);
    assert_eq!(
        audit_delivery(&ControlApiAdminAuditTarget::Log, AuditWriterState::NotNeeded),
        AuditDelivery::Log
    );
    assert_eq!(
        audit_writer_path(&file).as_deref(),
        Some("/var/log/audit.jsonl")
    );
    assert!(AuditWriterState::StartFailed.delivery_degraded());
    assert!(AuditWriterState::Running.delivery_reason().is_none());
}

#[test]
fn last_of_two_equal_tokens_counts() {
    let mut settings = config();
    settings.auth.bearer_tokens.push(ControlApiBearerToken {
        token: "reader".to_string(),
        role: AdminRole::Admin,
        actor_id: None,
    });
    let entries = runtime_bearer_tokens(&settings);
    let found = QUICListener::control_api_token_match("reader", &entries).expect("reader");
    assert_eq!(found.role, AdminRole::Admin);
}

#[test]
fn higher_role_reaches_what_a_lower_one_reaches() {
    let policy = config().authorization;
    let routes = [
        ControlApiRoute::Ready,
        ControlApiRoute::Runtime,
        ControlApiRoute::RuntimeValidate,
        ControlApiRoute::ReloadCerts,
        ControlApiRoute::Restart,
    ];
    for route in routes {
        let required = route.minimum_role(&policy).expect("protected");
        for (lower, higher) in [
            (AdminRole::Viewer, AdminRole::Operator),
            (AdminRole::Operator, AdminRole::Admin),
        ] {
            assert!(!lower.at_least(required) || higher.at_least(required));
        }
    }
    assert_eq!(ControlApiRoute::Health.minimum_role(&policy), None);
}

#[test]
fn throttle_is_told_of_the_connection_and_not_of_the_claimed_source() {
    let security = ControlApiSecurityPolicy::from_config(&config());
    let paths = paths();
    let gate = ControlApiGate {
        security: &security,
        paths: &paths,
        active_generation: None,
    };
    let mut sent = request(Method::Get, "/admin/runtime", Some("nobody"));
    sent.source_ip = v4(203, 0, 113, 7);
    let outcome = QUICListener::gate_control_api_request_for(&sent, &gate, false);
    assert_eq!(outcome.throttle, ThrottleAction::RecordFailure(v4(10, 0, 0, 9)));
    sent.context = None;
    let outcome = QUICListener::gate_control_api_request_for(&sent, &gate, false);
    assert_eq!(outcome.throttle, ThrottleAction::Nothing);
}
