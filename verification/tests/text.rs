use impulse_edge::bootstrap::outcome::{
    finish_bootstrap_backend_request_accounting, observe_bootstrap_admission_outcome,
    observe_bootstrap_dispatch_failure, observe_bootstrap_response_prebuffer_overflow,
    observe_bootstrap_response_status, AdmissionOutcomeClass, BootstrapPreparedRoute, DispatchNote, ProxyFailure,
};
use impulse_edge::admission::policy::OverloadShedReason;
use impulse_edge::headers::RequestHeaders;
use impulse_edge::listener::QUICListener;
use impulse_edge::text::{
    comes_before, contains, eq_ignore_ascii_case, from_chars, parse_u64, rsplit_once, split,
    split_whitespace, strip_prefix, to_ascii_lowercase, to_chars, to_decimal, trim,
};

#[test]
fn texts_are_cut_as_the_standard_library_cuts_them() {
    for sample in ["", " a ", "\t\u{a0}x\u{2003}", "a.b..c", "\u{e9}t\u{e9} \u{1f600}", "A/b"] {
        assert_eq!(trim(sample), sample.trim());
        assert_eq!(split(sample, '.'), sample.split('.').collect::<Vec<_>>());
        assert_eq!(
            split_whitespace(sample),
            sample.split_whitespace().collect::<Vec<_>>()
        );
        assert_eq!(rsplit_once(sample, '.'), sample.rsplit_once('.'));
        assert_eq!(strip_prefix(sample, "A/"), sample.strip_prefix("A/"));
        assert_eq!(contains(sample, "b."), sample.contains("b."));
        assert_eq!(to_ascii_lowercase(sample), sample.to_ascii_lowercase());
        assert_eq!(from_chars(&to_chars(sample)), sample);
        assert_eq!(
            eq_ignore_ascii_case(sample, "a/B"),
            sample.eq_ignore_ascii_case("a/B")
        );
        assert_eq!(comes_before(sample, "a"), sample < "a");
    }
    assert!(comes_before("\u{ffff}", "\u{10000}"));
}

#[test]
fn numbers_are_read_and_written_in_decimal() {
    for sample in ["", "0", "007", "+5", "-5", "18446744073709551615", "18446744073709551616", "1x", "+"] {
        assert_eq!(parse_u64(sample), sample.parse::<u64>().ok());
    }
    for number in [0, 7, 10, 262_144, u64::MAX] {
        assert_eq!(to_decimal(number), number.to_string());
    }
}

#[test]
fn headers_are_found_in_any_case() {
    let headers = RequestHeaders {
        entries: vec![
            ("X-Tenant-Id".to_string(), Some("tenant-a".to_string())),
            ("x-tenant-id".to_string(), Some("tenant-b".to_string())),
        ],
    };
    assert_eq!(headers.lookup("x-tenant-id"), Some("tenant-a"));
    assert!(headers.contains("X-TENANT-ID"));
    assert_eq!(headers.lookup("other"), None);
    let bearer = QUICListener::bearer_token_from_authorization_header;
    assert_eq!(bearer("Bearer abc"), Some("abc"));
    assert_eq!(bearer("bearer abc"), Some("abc"));
    assert_eq!(bearer("Basic abc"), None);
    assert_eq!(bearer("Bearer"), None);
}

#[test]
fn bootstrap_outcomes_name_route_and_backend() {
    let prepared = BootstrapPreparedRoute {
        upstream_name: "api".to_string(),
        backend_addr: "backend-a".to_string(),
        backend_index: 3,
    };
    let shed = observe_bootstrap_admission_outcome(
        "api",
        "backend-a",
        3,
        10,
        35,
        503,
        AdmissionOutcomeClass::OverloadShed {
            reason: Some(OverloadShedReason::RouteCap),
        },
    );
    assert_eq!(shed.route.route, "api");
    assert_eq!(shed.backend.backend_addr, Some("backend-a"));
    assert_eq!(shed.elapsed, 25);
    assert!(matches!(
        shed.outcome,
        AdmissionOutcomeClass::OverloadShed {
            reason: Some(OverloadShedReason::RouteCap)
        }
    ));
    let other = AdmissionOutcomeClass::Other("rate_limited");
    let limited = observe_bootstrap_admission_outcome("api", "backend-a", 3, 10, 35, 429, other);
    assert!(matches!(limited.outcome, AdmissionOutcomeClass::Other("rate_limited")));
    let answered = observe_bootstrap_response_status(&prepared, 10, 35, 200);
    assert_eq!(answered.status, 200);
    assert_eq!(answered.backend.backend_index, Some(3));
    let finished = finish_bootstrap_backend_request_accounting(&prepared, 35, 10, None);
    assert_eq!(finished.elapsed, 0);
    assert_eq!(finished.status, None);

    let (observed, note) =
        observe_bootstrap_dispatch_failure(&prepared, 10, 35, 7, 502, "connection reset", true);
    assert_eq!(observed.status, 502);
    assert!(matches!(observed.failure, ProxyFailure::Error("connection reset")));
    assert!(matches!(
        note,
        DispatchNote::Classified { phase: "bootstrap", request_id: 7, backend_index: 3, .. }
    ));
    let (_, note) =
        observe_bootstrap_dispatch_failure(&prepared, 10, 35, 7, 502, "connection reset", false);
    assert!(matches!(
        note,
        DispatchNote::Unclassified { detail: "connection reset", .. }
    ));
    let overflow = observe_bootstrap_response_prebuffer_overflow(&prepared, 10, 35);
    assert_eq!(overflow.status, 503);
    assert!(overflow.shed_at_prebuffer_cap);
    assert!(matches!(
        overflow.failure,
        ProxyFailure::BackendOverloaded("response prebuffer cap")
    ));
}
