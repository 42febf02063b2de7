use impulse_edge::admission::policy::{
    OverloadDecision, OverloadDecisionReason, RouteQueueRejection,
};
use impulse_edge::admission::post_auth::{
    execute_forwarding_post_auth_admission, next_post_auth_action, PostAuthAction,
    PostAuthAdmissionExecution, PostAuthAdmissionFailure, PostAuthAdmissionRejection,
    PostAuthContext, PostAuthEvent, PostAuthObservations, RouteOutcome, UpstreamPermit,
};
use impulse_edge::admission::quota::{
    quota_response_body, QuotaDecision, QuotaDenial, QuotaDenyReason, QuotaFailure,
    QuotaRejectedDecision,
};
use impulse_edge::status::StatusCode;

/// A request that every limiter lets through.
fn observed() -> PostAuthObservations {
    PostAuthObservations {
        quota: None,
        adaptive_permit: true,
        route_queue: Ok(()),
        global_permit: true,
        upstream_permit: UpstreamPermit::Acquired,
        upstream_pool: true,
        backend_healthy: true,
    }
}

fn execute_post_auth_for_api(observed: PostAuthObservations) -> PostAuthAdmissionExecution {
    let context = PostAuthContext {
        pending_backend_index: 0,
        backend_index: Some(0),
        shed_retry_after_seconds: 1,
    };
    execute_forwarding_post_auth_admission(observed, &context)
}

#[test]
fn admission_post_auth_admission_rejects_adaptive_admission_overload() {
    let result = execute_post_auth_for_api(PostAuthObservations {
        adaptive_permit: false,
        ..observed()
    });

    assert!(matches!(
        result,
        PostAuthAdmissionExecution::Rejected(PostAuthAdmissionRejection::Overloaded(
            OverloadDecision {
                reason: OverloadDecisionReason::AdaptiveAdmission,
                ..
            }
        ))
    ));
}

#[test]
fn mod_post_auth_admission_rejects_adaptive_admission_overload() {
    let result = execute_post_auth_for_api(PostAuthObservations {
        adaptive_permit: false,
        ..observed()
    });

    assert!(matches!(
        result,
        PostAuthAdmissionExecution::Rejected(PostAuthAdmissionRejection::Overloaded(
            OverloadDecision {
                reason: OverloadDecisionReason::AdaptiveAdmission,
                ..
            }
        ))
    ));
}

#[test]
fn post_auth_admission_bypasses_adaptive_limit_when_disabled() {
    let result = execute_post_auth_for_api(observed());

    assert!(matches!(result, PostAuthAdmissionExecution::Ready(_)));
}

#[test]
fn admission_post_auth_admission_rejects_route_cap_and_global_cap_with_distinct_reasons() {
    let route_result = execute_post_auth_for_api(PostAuthObservations {
        route_queue: Err(RouteQueueRejection::RouteCap),
        ..observed()
    });
    assert!(matches!(
        route_result,
        PostAuthAdmissionExecution::Rejected(PostAuthAdmissionRejection::Overloaded(
            OverloadDecision {
                reason: OverloadDecisionReason::RouteCap,
                ..
            }
        ))
    ));

    let global_result = execute_post_auth_for_api(PostAuthObservations {
        route_queue: Err(RouteQueueRejection::GlobalCap),
        ..observed()
    });
    assert!(matches!(
        global_result,
        PostAuthAdmissionExecution::Rejected(PostAuthAdmissionRejection::Overloaded(
            OverloadDecision {
                reason: OverloadDecisionReason::RouteGlobalCap,
                ..
            }
        ))
    ));
}

#[test]
fn mod_post_auth_admission_rejects_route_cap_and_global_cap_with_distinct_reasons() {
    let route_result = execute_post_auth_for_api(PostAuthObservations {
        route_queue: Err(RouteQueueRejection::RouteCap),
        ..observed()
    });
    assert!(matches!(
        route_result,
        PostAuthAdmissionExecution::Rejected(PostAuthAdmissionRejection::Overloaded(
            OverloadDecision {
                reason: OverloadDecisionReason::RouteCap,
                ..
            }
        ))
    ));

    let global_result = execute_post_auth_for_api(PostAuthObservations {
        route_queue: Err(RouteQueueRejection::GlobalCap),
        ..observed()
    });
    assert!(matches!(
        global_result,
        PostAuthAdmissionExecution::Rejected(PostAuthAdmissionRejection::Overloaded(
            OverloadDecision {
                reason: OverloadDecisionReason::RouteGlobalCap,
                ..
            }
        ))
    ));
}

#[test]
fn admission_post_auth_admission_rejects_global_and_upstream_inflight_with_distinct_reasons() {
    let global_result = execute_post_auth_for_api(PostAuthObservations {
        global_permit: false,
        ..observed()
    });
    assert!(matches!(
        global_result,
        PostAuthAdmissionExecution::Rejected(PostAuthAdmissionRejection::Overloaded(
            OverloadDecision {
                reason: OverloadDecisionReason::GlobalInflight,
                ..
            }
        ))
    ));

    let upstream_result = execute_post_auth_for_api(PostAuthObservations {
        upstream_permit: UpstreamPermit::Exhausted,
        ..observed()
    });
    assert!(matches!(
        upstream_result,
        PostAuthAdmissionExecution::Rejected(PostAuthAdmissionRejection::Overloaded(
            OverloadDecision {
                reason: OverloadDecisionReason::UpstreamInflight,
                ..
            }
        ))
    ));
}

#[test]
fn mod_post_auth_admission_rejects_global_and_upstream_inflight_with_distinct_reasons() {
    let global_result = execute_post_auth_for_api(PostAuthObservations {
        global_permit: false,
        ..observed()
    });
    assert!(matches!(
        global_result,
        PostAuthAdmissionExecution::Rejected(PostAuthAdmissionRejection::Overloaded(
            OverloadDecision {
                reason: OverloadDecisionReason::GlobalInflight,
                ..
            }
        ))
    ));

    let upstream_result = execute_post_auth_for_api(PostAuthObservations {
        upstream_permit: UpstreamPermit::Exhausted,
        ..observed()
    });
    assert!(matches!(
        upstream_result,
        PostAuthAdmissionExecution::Rejected(PostAuthAdmissionRejection::Overloaded(
            OverloadDecision {
                reason: OverloadDecisionReason::UpstreamInflight,
                ..
            }
        ))
    ));
}

#[test]
fn admission_missing_upstream_limiter_preserves_overload_reason_in_failure_mapping() {
    let result = execute_post_auth_for_api(PostAuthObservations {
        upstream_permit: UpstreamPermit::MissingLimiter,
        ..observed()
    });

    assert!(matches!(
        result,
        PostAuthAdmissionExecution::Rejected(PostAuthAdmissionRejection::Failed(
            PostAuthAdmissionFailure {
                status: StatusCode::ServiceUnavailable,
                overload_reason: Some(OverloadDecisionReason::UpstreamInflight),
                route_outcome: Some(RouteOutcome::OverloadShed),
                observe_adaptive_overload: true,
                ..
            }
        ))
    ));
}

#[test]
fn mod_missing_upstream_limiter_preserves_overload_reason_in_failure_mapping() {
    let result = execute_post_auth_for_api(PostAuthObservations {
        upstream_permit: UpstreamPermit::MissingLimiter,
        ..observed()
    });

    assert!(matches!(
        result,
        PostAuthAdmissionExecution::Rejected(PostAuthAdmissionRejection::Failed(
            PostAuthAdmissionFailure {
                status: StatusCode::ServiceUnavailable,
                overload_reason: Some(OverloadDecisionReason::UpstreamInflight),
                route_outcome: Some(RouteOutcome::OverloadShed),
                observe_adaptive_overload: true,
                ..
            }
        ))
    ));
}

#[test]
fn admission_post_auth_admission_ready_result_reports_no_wait_when_permits_are_immediate() {
    let result = execute_post_auth_for_api(observed());

    match result {
        PostAuthAdmissionExecution::Ready(ready) => {
            assert_eq!(ready.backend_index, 0);
            assert!(!ready.waited_for_global_permit);
            assert!(!ready.waited_for_upstream_permit);
        }
        PostAuthAdmissionExecution::Rejected(_) => {
            panic!("expected successful admission without waits")
        }
    }
}

#[test]
fn mod_post_auth_admission_ready_result_reports_no_wait_when_permits_are_immediate() {
    let result = execute_post_auth_for_api(observed());

    match result {
        PostAuthAdmissionExecution::Ready(ready) => {
            assert_eq!(ready.backend_index, 0);
            assert!(!ready.waited_for_global_permit);
            assert!(!ready.waited_for_upstream_permit);
        }
        PostAuthAdmissionExecution::Rejected(_) => {
            panic!("expected successful admission without waits")
        }
    }
}

#[test]
fn post_auth_admission_enforces_quota_before_overload_with_composite_identity() {
    let first = execute_post_auth_for_api(PostAuthObservations {
        quota: Some(QuotaDecision::Allowed),
        ..observed()
    });
    assert!(matches!(first, PostAuthAdmissionExecution::Ready(_)));

    let second = execute_post_auth_for_api(PostAuthObservations {
        quota: Some(QuotaDecision::Denied(QuotaDenial {
            policy_name: "tenant-token-client-burst".to_string(),
            reason: QuotaDenyReason::BurstQuotaExhausted,
            retry_after_seconds: Some(1),
        })),
        adaptive_permit: false,
        ..observed()
    });

    assert!(matches!(
        second,
        PostAuthAdmissionExecution::Rejected(PostAuthAdmissionRejection::Quota(
            QuotaRejectedDecision {
                policy_name,
                reason: QuotaDenyReason::BurstQuotaExhausted,
                status: StatusCode::TooManyRequests,
                body: "burst quota exhausted\n",
                retry_after_seconds: Some(1),
            }
        )) if policy_name == "tenant-token-client-burst"
    ));
}

#[test]
fn post_auth_admission_fail_open_quota_backend_errors_preserve_overload_classification() {
    let result = execute_post_auth_for_api(PostAuthObservations {
        quota: Some(QuotaDecision::FailedOpen(QuotaFailure {
            policy_name: Some("tenant-contract".to_string()),
            reason: QuotaDenyReason::BackendError,
        })),
        adaptive_permit: false,
        ..observed()
    });

    assert!(matches!(
        result,
        PostAuthAdmissionExecution::Rejected(PostAuthAdmissionRejection::Overloaded(
            OverloadDecision {
                reason: OverloadDecisionReason::AdaptiveAdmission,
                status: StatusCode::ServiceUnavailable,
                body: "adaptive admission overload\n",
                ..
            }
        ))
    ));
}

#[test]
fn post_auth_admission_fail_closed_quota_backend_errors_reject_before_overload() {
    let result = execute_post_auth_for_api(PostAuthObservations {
        quota: Some(QuotaDecision::FailedClosed(QuotaFailure {
            policy_name: Some("tenant-contract".to_string()),
            reason: QuotaDenyReason::BackendError,
        })),
        adaptive_permit: false,
        ..observed()
    });

    assert!(matches!(
        result,
        PostAuthAdmissionExecution::Rejected(PostAuthAdmissionRejection::Quota(
            QuotaRejectedDecision {
                policy_name,
                reason: QuotaDenyReason::BackendError,
                status: StatusCode::ServiceUnavailable,
                body: "quota backend error\n",
                retry_after_seconds: None,
            }
        )) if policy_name == "tenant-contract"
    ));
}

#[test]
fn missing_pool_and_unhealthy_backend_fail_with_their_own_answers() {
    assert_eq!(
        execute_post_auth_for_api(PostAuthObservations {
            upstream_pool: false,
            ..observed()
        }),
        PostAuthAdmissionExecution::Rejected(PostAuthAdmissionRejection::Failed(
            PostAuthAdmissionFailure {
                status: StatusCode::InternalServerError,
                body: "missing upstream pool\n",
                overload_reason: None,
                route_outcome: None,
                observe_adaptive_overload: false,
            }
        ))
    );
    assert_eq!(
        execute_post_auth_for_api(PostAuthObservations {
            backend_healthy: false,
            ..observed()
        }),
        PostAuthAdmissionExecution::Rejected(PostAuthAdmissionRejection::Failed(
            PostAuthAdmissionFailure {
                status: StatusCode::ServiceUnavailable,
                body: "selected backend no longer healthy\n",
                overload_reason: None,
                route_outcome: Some(RouteOutcome::Failure),
                observe_adaptive_overload: false,
            }
        ))
    );
}

#[test]
fn pending_backend_is_taken_where_no_other_was_chosen() {
    let context = PostAuthContext {
        pending_backend_index: 4,
        backend_index: None,
        shed_retry_after_seconds: 1,
    };
    match execute_forwarding_post_auth_admission(observed(), &context) {
        PostAuthAdmissionExecution::Ready(ready) => assert_eq!(ready.backend_index, 4),
        PostAuthAdmissionExecution::Rejected(_) => panic!("every permit was given"),
    }
    assert!(matches!(
        next_post_auth_action(PostAuthEvent::UpstreamPool { found: true }, &context),
        PostAuthAction::CheckBackendHealth { backend_index: 4 }
    ));
}

#[test]
fn shadow_denials_do_not_refuse_after_authentication() {
    let result = execute_post_auth_for_api(PostAuthObservations {
        quota: Some(QuotaDecision::ShadowDenied(QuotaDenial {
            policy_name: "tenant-contract".to_string(),
            reason: QuotaDenyReason::SustainedQuotaExhausted,
            retry_after_seconds: Some(5),
        })),
        ..observed()
    });
    assert!(matches!(result, PostAuthAdmissionExecution::Ready(_)));
}

#[test]
fn quota_refusals_name_their_policy_and_wait() {
    let denied = QuotaRejectedDecision::from_quota_decision(QuotaDecision::Denied(QuotaDenial {
        policy_name: "p".to_string(),
        reason: QuotaDenyReason::SelectorIdentityMissing,
        retry_after_seconds: Some(0),
    }))
    .expect("denied");
    assert_eq!(denied.retry_after_seconds, Some(1));
    assert_eq!(denied.as_response().status, StatusCode::TooManyRequests);
    assert_eq!(denied.as_response().body, "quota selector identity missing\n");

    let closed =
        QuotaRejectedDecision::from_quota_decision(QuotaDecision::FailedClosed(QuotaFailure {
            policy_name: None,
            reason: QuotaDenyReason::BackendUnavailable,
        }))
        .expect("failed closed");
    assert_eq!(closed.policy_name, "unknown");
    assert_eq!(closed.status, StatusCode::ServiceUnavailable);
    assert_eq!(closed.as_response().retry_after_seconds, None);

    assert!(QuotaRejectedDecision::from_quota_decision(QuotaDecision::Allowed).is_none());
    let cases = [
        (QuotaDenyReason::BurstQuotaExhausted, "burst quota exhausted\n"),
        (QuotaDenyReason::SustainedQuotaExhausted, "sustained quota exhausted\n"),
        (QuotaDenyReason::SelectorIdentityMissing, "quota selector identity missing\n"),
        (QuotaDenyReason::SelectorIdentityInvalid, "quota selector identity invalid\n"),
        (QuotaDenyReason::BackendTimeout, "quota backend timed out\n"),
        (QuotaDenyReason::BackendUnavailable, "quota backend unavailable\n"),
        (QuotaDenyReason::BackendError, "quota backend error\n"),
    ];
    for (reason, body) in cases {
        assert_eq!(quota_response_body(reason), body);
    }
}
