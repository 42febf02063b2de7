use base64::engine::general_purpose::URL_SAFE_NO_PAD;
use base64::Engine;
use hmac::Mac;
use impulse_edge::admission::jwks_cache::JwtJwksSharedCache;
use impulse_edge::admission::policy::{
    admission_rejection_response, evaluate_brownout_policy,
    evaluate_forwarding_pre_admission_policy, evaluate_local_auth_policy,
    evaluate_scoped_rate_limit_policy, overload_decision_for_route_queue_rejection,
    AdmissionPolicyDecision, AuthChallengeKind, LocalAuthOutcome, OverloadDecision,
    OverloadDecisionReason, PreAdmissionAction, PreAdmissionEvent, RateLimitedDecision,
    RouteQueueRejection, UnauthorizedDecision,
};
use impulse_edge::admission::quota::{QuotaDecision, QuotaDenial, QuotaDenyReason, QuotaFailure};
use impulse_edge::config::{
    JwksStartupBehavior, JwtAlgorithm, RuntimeApiKeyAuth, RuntimeAuthPolicy, RuntimeJwtAuth,
    RuntimeUpstreamPolicy, WallTime, SECOND,
};
use impulse_edge::headers::RequestHeaders;
use impulse_edge::status::StatusCode;

const NOW: WallTime = WallTime::SinceEpoch { secs: 1_700_000_000 };

fn text(value: &str) -> String {
    value.to_string()
}

fn headers(entries: &[(&str, &str)]) -> RequestHeaders {
    RequestHeaders {
        entries: entries
            .iter()
            .map(|(name, value)| (text(name), Some(text(value))))
            .collect(),
    }
}

fn test_policy_with_api_key() -> RuntimeUpstreamPolicy {
    RuntimeUpstreamPolicy {
        upstream_auth: RuntimeAuthPolicy {
            api_key: Some(RuntimeApiKeyAuth {
                header_name: text("x-api-key"),
                keys: vec![text("secret")],
            }),
            jwt: None,
            required_scopes: Vec::new(),
            required_roles: Vec::new(),
        },
    }
}

fn test_policy_with_jwt(secret: &str, scopes: Vec<&str>, roles: Vec<&str>) -> RuntimeUpstreamPolicy {
    RuntimeUpstreamPolicy {
        upstream_auth: RuntimeAuthPolicy {
            api_key: None,
            jwt: Some(RuntimeJwtAuth {
                secret: text(secret),
                issuer: Some(text("issuer-1")),
                issuers: Vec::new(),
                audience: Some(text("aud-1")),
                audiences: Vec::new(),
                clock_skew: 30 * SECOND,
                allowed_algorithms: vec![JwtAlgorithm::Hs256],
                require_kid: false,
                static_keys: Vec::new(),
                jwks_url: None,
                jwks_refresh_interval: 300 * SECOND,
                jwks_request_timeout: SECOND,
                jwks_cache_ttl: 300 * SECOND,
                jwks_stale_if_error: 300 * SECOND,
                jwks_startup_behavior: JwksStartupBehavior::AllowDegraded,
            }),
            required_scopes: scopes.into_iter().map(text).collect(),
            required_roles: roles.into_iter().map(text).collect(),
        },
    }
}

fn test_hs256_jwt(secret: &str, claims: &str, alg: &str) -> String {
    let header = format!("{{\"alg\":\"{alg}\",\"typ\":\"JWT\"}}");
    let signing_input = format!(
        "{}.{}",
        URL_SAFE_NO_PAD.encode(header),
        URL_SAFE_NO_PAD.encode(claims)
    );
    let mut mac = hmac::Hmac::<sha2::Sha256>::new_from_slice(secret.as_bytes()).expect("hmac");
    mac.update(signing_input.as_bytes());
    let signature = URL_SAFE_NO_PAD.encode(mac.finalize().into_bytes());
    format!("{signing_input}.{signature}")
}

fn local_auth(
    policy: &RuntimeUpstreamPolicy,
    headers: Option<&RequestHeaders>,
) -> AdmissionPolicyDecision {
    let mut cache = JwtJwksSharedCache::new();
    let report = evaluate_local_auth_policy(policy, headers, &mut cache, 1000 * SECOND, NOW);
    match report.outcome {
        LocalAuthOutcome::Decided(decision) => decision,
        LocalAuthOutcome::CheckSignature(_) => panic!("no asymmetric key is configured"),
    }
}

/// Walks a request through the checks that precede admission.
fn pre_admission(
    policy: &RuntimeUpstreamPolicy,
    headers: Option<&RequestHeaders>,
    route_allowed: bool,
    route: &str,
    retry_after_seconds: u32,
    rate_limit: Option<QuotaDecision>,
) -> AdmissionPolicyDecision {
    let mut rate_limit = Some(rate_limit);
    let mut event = PreAdmissionEvent::LocalAuth(local_auth(policy, headers));
    loop {
        match evaluate_forwarding_pre_admission_policy(event, route, retry_after_seconds) {
            PreAdmissionAction::ObserveBrownout => {
                event = PreAdmissionEvent::Brownout { route_allowed };
            }
            PreAdmissionAction::EvaluateRateLimit => {
                event = PreAdmissionEvent::RateLimit(rate_limit.take().expect("asked once"));
            }
            PreAdmissionAction::Decide(decision) => return decision,
        }
    }
}

fn exhausted(policy_name: &str) -> QuotaDecision {
    QuotaDecision::Denied(QuotaDenial {
        policy_name: text(policy_name),
        reason: QuotaDenyReason::BurstQuotaExhausted,
        retry_after_seconds: Some(1),
    })
}

#[test]
fn admission_overload_reasons_map_to_stable_metrics_labels_and_response_bodies() {
    let cases = [
        (
            OverloadDecisionReason::Brownout,
            "brownout",
            b"brownout active, non-core route shed\n".as_slice(),
        ),
        (
            OverloadDecisionReason::AdaptiveAdmission,
            "adaptive_admission",
            b"adaptive admission overload\n".as_slice(),
        ),
        (
            OverloadDecisionReason::RouteCap,
            "route_cap",
            b"route queue cap exceeded\n".as_slice(),
        ),
        (
            OverloadDecisionReason::RouteGlobalCap,
            "route_global_cap",
            b"global queue cap exceeded\n".as_slice(),
        ),
        (
            OverloadDecisionReason::GlobalInflight,
            "global_inflight",
            b"overloaded, retry later\n".as_slice(),
        ),
        (
            OverloadDecisionReason::UpstreamInflight,
            "upstream_inflight",
            b"upstream overloaded, retry later\n".as_slice(),
        ),
    ];

    for (reason, label, body) in cases {
        assert_eq!(reason.metrics_reason().reason_label(), label);
        assert_eq!(reason.response_body().as_bytes(), body);
    }
}

#[test]
fn mod_overload_reasons_map_to_stable_metrics_labels_and_response_bodies() {
    let cases = [
        (
            OverloadDecisionReason::Brownout,
            "brownout",
            b"brownout active, non-core route shed\n".as_slice(),
        ),
        (
            OverloadDecisionReason::AdaptiveAdmission,
            "adaptive_admission",
            b"adaptive admission overload\n".as_slice(),
        ),
        (
            OverloadDecisionReason::RouteCap,
            "route_cap",
            b"route queue cap exceeded\n".as_slice(),
        ),
        (
            OverloadDecisionReason::RouteGlobalCap,
            "route_global_cap",
            b"global queue cap exceeded\n".as_slice(),
        ),
        (
            OverloadDecisionReason::GlobalInflight,
            "global_inflight",
            b"overloaded, retry later\n".as_slice(),
        ),
        (
            OverloadDecisionReason::UpstreamInflight,
            "upstream_inflight",
            b"upstream overloaded, retry later\n".as_slice(),
        ),
    ];

    for (reason, label, body) in cases {
        assert_eq!(reason.metrics_reason().reason_label(), label);
        assert_eq!(reason.response_body().as_bytes(), body);
    }
}

#[test]
fn admission_unauthorized_and_overload_rejections_have_distinct_outward_mapping() {
    let policy = test_policy_with_api_key();
    let unauthorized =
        admission_rejection_response(&pre_admission(&policy, None, true, "api", 7, None))
            .expect("unauthorized response");
    assert_eq!(unauthorized.status, StatusCode::Unauthorized);
    assert_eq!(unauthorized.body, "unauthorized\n");
    assert_eq!(unauthorized.www_authenticate, Some("ApiKey"));
    assert_eq!(unauthorized.retry_after_seconds, None);

    let overload = admission_rejection_response(&evaluate_brownout_policy(false, 7))
        .expect("overload response");
    assert_eq!(overload.status, StatusCode::ServiceUnavailable);
    assert_eq!(overload.body, "brownout active, non-core route shed\n");
    assert_eq!(overload.www_authenticate, None);
    assert_eq!(overload.retry_after_seconds, Some(7));
}

#[test]
fn mod_unauthorized_and_overload_rejections_have_distinct_outward_mapping() {
    let policy = test_policy_with_api_key();
    let unauthorized =
        admission_rejection_response(&pre_admission(&policy, None, true, "api", 7, None))
            .expect("unauthorized response");
    assert_eq!(unauthorized.status, StatusCode::Unauthorized);
    assert_eq!(unauthorized.body, "unauthorized\n");
    assert_eq!(unauthorized.www_authenticate, Some("ApiKey"));
    assert_eq!(unauthorized.retry_after_seconds, None);

    let overload = admission_rejection_response(&evaluate_brownout_policy(false, 7))
        .expect("overload response");
    assert_eq!(overload.status, StatusCode::ServiceUnavailable);
    assert_eq!(overload.body, "brownout active, non-core route shed\n");
    assert_eq!(overload.www_authenticate, None);
    assert_eq!(overload.retry_after_seconds, Some(7));
}

#[test]
fn admission_local_auth_policy_returns_api_key_challenge_when_key_is_missing() {
    let decision = local_auth(&test_policy_with_api_key(), None);

    assert_eq!(
        decision,
        AdmissionPolicyDecision::Unauthorized(UnauthorizedDecision {
            challenge: AuthChallengeKind::ApiKey,
            status: StatusCode::Unauthorized,
            body: "unauthorized\n",
        })
    );
}

#[test]
fn mod_local_auth_policy_returns_api_key_challenge_when_key_is_missing() {
    let decision = local_auth(&test_policy_with_api_key(), None);

    assert_eq!(
        decision,
        AdmissionPolicyDecision::Unauthorized(UnauthorizedDecision {
            challenge: AuthChallengeKind::ApiKey,
            status: StatusCode::Unauthorized,
            body: "unauthorized\n",
        })
    );
}

#[test]
fn admission_local_auth_policy_admits_when_api_key_matches() {
    let headers = headers(&[("x-api-key", "secret")]);

    let decision = local_auth(&test_policy_with_api_key(), Some(&headers));

    assert_eq!(decision, AdmissionPolicyDecision::AdmitReady);
}

#[test]
fn mod_local_auth_policy_admits_when_api_key_matches() {
    let headers = headers(&[("x-api-key", "secret")]);

    let decision = local_auth(&test_policy_with_api_key(), Some(&headers));

    assert_eq!(decision, AdmissionPolicyDecision::AdmitReady);
}

#[test]
fn admission_local_auth_policy_returns_bearer_challenge_for_missing_or_invalid_jwt() {
    let policy = test_policy_with_jwt("jwt-secret", vec!["payments:read"], vec!["admin"]);

    let missing = local_auth(&policy, None);
    assert_eq!(
        missing,
        AdmissionPolicyDecision::Unauthorized(UnauthorizedDecision {
            challenge: AuthChallengeKind::Bearer,
            status: StatusCode::Unauthorized,
            body: "unauthorized\n",
        })
    );

    let invalid_headers = headers(&[("authorization", "Bearer invalid.jwt.token")]);
    let invalid = local_auth(&policy, Some(&invalid_headers));
    assert_eq!(
        invalid,
        AdmissionPolicyDecision::Unauthorized(UnauthorizedDecision {
            challenge: AuthChallengeKind::Bearer,
            status: StatusCode::Unauthorized,
            body: "unauthorized\n",
        })
    );
}

#[test]
fn mod_local_auth_policy_returns_bearer_challenge_for_missing_or_invalid_jwt() {
    let policy = test_policy_with_jwt("jwt-secret", vec!["payments:read"], vec!["admin"]);

    let missing = local_auth(&policy, None);
    assert_eq!(
        missing,
        AdmissionPolicyDecision::Unauthorized(UnauthorizedDecision {
            challenge: AuthChallengeKind::Bearer,
            status: StatusCode::Unauthorized,
            body: "unauthorized\n",
        })
    );

    let invalid_headers = headers(&[("authorization", "Bearer invalid.jwt.token")]);
    let invalid = local_auth(&policy, Some(&invalid_headers));
    assert_eq!(
        invalid,
        AdmissionPolicyDecision::Unauthorized(UnauthorizedDecision {
            challenge: AuthChallengeKind::Bearer,
            status: StatusCode::Unauthorized,
            body: "unauthorized\n",
        })
    );
}

#[test]
fn admission_local_auth_policy_admits_valid_jwt_when_claims_satisfy_rbac() {
    let token = test_hs256_jwt(
        "jwt-secret",
        r#"{"iss":"issuer-1","aud":"aud-1","exp":4000000000,"scope":"payments:read transfers:write","roles":["admin","ops"]}"#,
        "HS256",
    );
    let headers = headers(&[("authorization", format!("Bearer {token}").as_str())]);

    let decision = local_auth(
        &test_policy_with_jwt("jwt-secret", vec!["payments:read"], vec!["admin"]),
        Some(&headers),
    );

    assert_eq!(decision, AdmissionPolicyDecision::AdmitReady);
}

#[test]
fn mod_local_auth_policy_admits_valid_jwt_when_claims_satisfy_rbac() {
    let token = test_hs256_jwt(
        "jwt-secret",
        r#"{"iss":"issuer-1","aud":"aud-1","exp":4000000000,"scope":"payments:read transfers:write","roles":["admin","ops"]}"#,
        "HS256",
    );
    let headers = headers(&[("authorization", format!("Bearer {token}").as_str())]);

    let decision = local_auth(
        &test_policy_with_jwt("jwt-secret", vec!["payments:read"], vec!["admin"]),
        Some(&headers),
    );

    assert_eq!(decision, AdmissionPolicyDecision::AdmitReady);
}

#[test]
fn jwt_without_the_required_scope_role_or_secret_is_challenged() {
    let token = test_hs256_jwt(
        "jwt-secret",
        r#"{"iss":"issuer-1","aud":"aud-1","exp":4000000000,"scope":"payments:read","roles":["admin"]}"#,
        "HS256",
    );
    let headers = headers(&[("authorization", format!("bearer {token}").as_str())]);
    let challenge = AdmissionPolicyDecision::Unauthorized(UnauthorizedDecision {
        challenge: AuthChallengeKind::Bearer,
        status: StatusCode::Unauthorized,
        body: "unauthorized\n",
    });

    let admitted = test_policy_with_jwt("jwt-secret", vec!["payments:read"], vec!["admin"]);
    assert_eq!(local_auth(&admitted, Some(&headers)), AdmissionPolicyDecision::AdmitReady);
    let scope = test_policy_with_jwt("jwt-secret", vec!["payments:write"], vec!["admin"]);
    assert_eq!(local_auth(&scope, Some(&headers)), challenge);
    let role = test_policy_with_jwt("jwt-secret", vec!["payments:read"], vec!["ops"]);
    assert_eq!(local_auth(&role, Some(&headers)), challenge);
    let secret = test_policy_with_jwt("other-secret", vec![], vec![]);
    assert_eq!(local_auth(&secret, Some(&headers)), challenge);
}

#[test]
fn api_key_differing_in_one_byte_is_refused() {
    let policy = test_policy_with_api_key();
    for value in ["secreT", "secre", "secrets", "", "Secret"] {
        let headers = headers(&[("X-Api-Key", value)]);
        assert!(matches!(
            local_auth(&policy, Some(&headers)),
            AdmissionPolicyDecision::Unauthorized(_)
        ));
    }
    let padded = headers(&[("X-Api-Key", "  secret ")]);
    assert_eq!(local_auth(&policy, Some(&padded)), AdmissionPolicyDecision::AdmitReady);
}

#[test]
fn admission_scoped_rate_limit_policy_admits_when_rule_does_not_reject() {
    let allowed = evaluate_scoped_rate_limit_policy("payments", Some(QuotaDecision::Allowed));
    let no_key = evaluate_scoped_rate_limit_policy("payments", Some(QuotaDecision::NotApplied));
    let wrong_route = evaluate_scoped_rate_limit_policy("admin", Some(QuotaDecision::NotApplied));

    assert_eq!(allowed, AdmissionPolicyDecision::AdmitReady);
    assert_eq!(no_key, AdmissionPolicyDecision::AdmitReady);
    assert_eq!(wrong_route, AdmissionPolicyDecision::AdmitReady);
}

#[test]
fn mod_scoped_rate_limit_policy_admits_when_rule_does_not_reject() {
    let allowed = evaluate_scoped_rate_limit_policy("payments", Some(QuotaDecision::Allowed));
    let no_key = evaluate_scoped_rate_limit_policy("payments", Some(QuotaDecision::NotApplied));
    let wrong_route = evaluate_scoped_rate_limit_policy("admin", Some(QuotaDecision::NotApplied));

    assert_eq!(allowed, AdmissionPolicyDecision::AdmitReady);
    assert_eq!(no_key, AdmissionPolicyDecision::AdmitReady);
    assert_eq!(wrong_route, AdmissionPolicyDecision::AdmitReady);
}

#[test]
fn admission_scoped_rate_limit_policy_returns_typed_rejection_for_exhausted_bucket() {
    let first = evaluate_scoped_rate_limit_policy("payments", Some(QuotaDecision::Allowed));
    let second = evaluate_scoped_rate_limit_policy("payments", Some(exhausted("tenant-cap")));

    assert_eq!(first, AdmissionPolicyDecision::AdmitReady);
    assert_eq!(
        second,
        AdmissionPolicyDecision::RateLimited(RateLimitedDecision {
            rule_name: "tenant-cap".to_string(),
            route: "payments".to_string(),
            status: StatusCode::TooManyRequests,
            body: "request rate limited\n",
            retry_after_seconds: 1,
        })
    );
}

#[test]
fn mod_scoped_rate_limit_policy_returns_typed_rejection_for_exhausted_bucket() {
    let first = evaluate_scoped_rate_limit_policy("payments", Some(QuotaDecision::Allowed));
    let second = evaluate_scoped_rate_limit_policy("payments", Some(exhausted("tenant-cap")));

    assert_eq!(first, AdmissionPolicyDecision::AdmitReady);
    assert_eq!(
        second,
        AdmissionPolicyDecision::RateLimited(RateLimitedDecision {
            rule_name: "tenant-cap".to_string(),
            route: "payments".to_string(),
            status: StatusCode::TooManyRequests,
            body: "request rate limited\n",
            retry_after_seconds: 1,
        })
    );
}

#[test]
fn admission_brownout_policy_sheds_non_core_routes_and_preserves_core_routes() {
    let core = evaluate_brownout_policy(true, 9);
    let non_core = evaluate_brownout_policy(false, 9);

    assert_eq!(core, AdmissionPolicyDecision::AdmitReady);
    assert_eq!(
        non_core,
        AdmissionPolicyDecision::Overloaded(OverloadDecision {
            reason: OverloadDecisionReason::Brownout,
            status: StatusCode::ServiceUnavailable,
            body: "brownout active, non-core route shed\n",
            retry_after_seconds: 9,
        })
    );
}

#[test]
fn mod_brownout_policy_sheds_non_core_routes_and_preserves_core_routes() {
    let core = evaluate_brownout_policy(true, 9);
    let non_core = evaluate_brownout_policy(false, 9);

    assert_eq!(core, AdmissionPolicyDecision::AdmitReady);
    assert_eq!(
        non_core,
        AdmissionPolicyDecision::Overloaded(OverloadDecision {
            reason: OverloadDecisionReason::Brownout,
            status: StatusCode::ServiceUnavailable,
            body: "brownout active, non-core route shed\n",
            retry_after_seconds: 9,
        })
    );
}

#[test]
fn admission_overload_mapping_preserves_route_queue_reasons_and_shared_response_shape() {
    let route_cap = overload_decision_for_route_queue_rejection(RouteQueueRejection::RouteCap, 0);
    let global_cap = overload_decision_for_route_queue_rejection(RouteQueueRejection::GlobalCap, 3);

    assert_eq!(
        route_cap,
        AdmissionPolicyDecision::Overloaded(OverloadDecision {
            reason: OverloadDecisionReason::RouteCap,
            status: StatusCode::ServiceUnavailable,
            body: "route queue cap exceeded\n",
            retry_after_seconds: 1,
        })
    );
    assert_eq!(
        global_cap,
        AdmissionPolicyDecision::Overloaded(OverloadDecision {
            reason: OverloadDecisionReason::RouteGlobalCap,
            status: StatusCode::ServiceUnavailable,
            body: "global queue cap exceeded\n",
            retry_after_seconds: 3,
        })
    );

    let mapped = admission_rejection_response(&global_cap).expect("rejection mapping");
    assert_eq!(mapped.status, StatusCode::ServiceUnavailable);
    assert_eq!(mapped.body, "global queue cap exceeded\n");
    assert_eq!(mapped.www_authenticate, None);
    assert_eq!(mapped.retry_after_seconds, Some(3));
}

#[test]
fn mod_overload_mapping_preserves_route_queue_reasons_and_shared_response_shape() {
    let route_cap = overload_decision_for_route_queue_rejection(RouteQueueRejection::RouteCap, 0);
    let global_cap = overload_decision_for_route_queue_rejection(RouteQueueRejection::GlobalCap, 3);

    assert_eq!(
        route_cap,
        AdmissionPolicyDecision::Overloaded(OverloadDecision {
            reason: OverloadDecisionReason::RouteCap,
            status: StatusCode::ServiceUnavailable,
            body: "route queue cap exceeded\n",
            retry_after_seconds: 1,
        })
    );
    assert_eq!(
        global_cap,
        AdmissionPolicyDecision::Overloaded(OverloadDecision {
            reason: OverloadDecisionReason::RouteGlobalCap,
            status: StatusCode::ServiceUnavailable,
            body: "global queue cap exceeded\n",
            retry_after_seconds: 3,
        })
    );

    let mapped = admission_rejection_response(&global_cap).expect("rejection mapping");
    assert_eq!(mapped.status, StatusCode::ServiceUnavailable);
    assert_eq!(mapped.body, "global queue cap exceeded\n");
    assert_eq!(mapped.www_authenticate, None);
    assert_eq!(mapped.retry_after_seconds, Some(3));
}

#[test]
fn first_refusal_before_admission_decides() {
    let policy = test_policy_with_api_key();
    let known = headers(&[("x-api-key", "secret")]);

    assert!(matches!(
        pre_admission(&policy, None, false, "payments", 9, Some(exhausted("tenant-cap"))),
        AdmissionPolicyDecision::Unauthorized(_)
    ));
    assert!(matches!(
        pre_admission(&policy, Some(&known), false, "payments", 9, Some(exhausted("tenant-cap"))),
        AdmissionPolicyDecision::Overloaded(_)
    ));
    assert!(matches!(
        pre_admission(&policy, Some(&known), true, "payments", 9, Some(exhausted("tenant-cap"))),
        AdmissionPolicyDecision::RateLimited(_)
    ));
    let failed_open = QuotaDecision::FailedOpen(QuotaFailure {
        policy_name: None,
        reason: QuotaDenyReason::BackendTimeout,
    });
    assert_eq!(
        pre_admission(&policy, Some(&known), true, "payments", 9, Some(failed_open)),
        AdmissionPolicyDecision::AdmitReady
    );
}

#[test]
fn admitted_request_has_no_rejection_response() {
    assert!(admission_rejection_response(&AdmissionPolicyDecision::AdmitReady).is_none());
}
