use base64::engine::general_purpose::URL_SAFE_NO_PAD;
use base64::Engine;
use impulse_edge::admission::jwks_cache::{
    jwt_jwks_cache_stale_window_expired, jwt_jwks_cache_state_name, jwt_jwks_cache_state_usable,
    JwtJwksActiveKey, JwtJwksCacheEntry, JwtJwksCacheState, JwtJwksSharedCache,
};
use impulse_edge::admission::jwks_refresh::{
    fetched_status, normalize_jwks_document, normalize_jwks_key, parse_jwks_document, FetchedJwk,
    JwksBody,
    JwtJwksFetchFailure, JwtJwksFetchFailureReason, MAX_JWKS_BODY_BYTES,
};
use impulse_edge::admission::jwks_report::snapshot_runtime_jwks_sources;
use impulse_edge::admission::jwks_source::{
    jwt_jwks_public_endpoint, jwt_jwks_source_identity, merge_jwks_source_config,
    runtime_jwks_sources, JwtJwksSourceConfig,
};
use impulse_edge::admission::jwt::{JwtValidationFailureReason, SignatureRequest};
use impulse_edge::admission::jwt_validation::{
    finish_jwt_validation, validate_jwt_token, JwtValidationStep,
};
use impulse_edge::admission::refresh_outcome::{
    refresh_jwks_source_inflight, RefreshOutcome, ReplacementNote,
};
use impulse_edge::config::{
    EcConstruction, JwkMaterial, JwksStartupBehavior, JwtAlgorithm, Nanos, PemMaterial,
    RsaConstruction,    RuntimeAuthPolicy, RuntimeConfig, RuntimeJwtAuth, RuntimeJwtVerificationKey, RuntimeUpstream,
    RuntimeUpstreamPolicy, WallTime, LONGEST, SECOND,
};
use impulse_edge::listener::QUICListener;

const NOW: WallTime = WallTime::SinceEpoch { secs: 1_700_000_000 };
const START: Nanos = 10_000 * SECOND;

fn jwks_source_identity_for_test(jwks_url: &str) -> String {
    jwt_jwks_source_identity(jwks_url, &[])
}

fn test_jwks_source(
    jwks_url: &str,
    allowed_algorithms: Vec<JwtAlgorithm>,
) -> JwtJwksSourceConfig {
    JwtJwksSourceConfig {
        source_identity: jwks_source_identity_for_test(jwks_url),
        jwks_url: jwks_url.to_string(),
        allowed_algorithms,
        refresh_interval: 60 * SECOND,
        request_timeout: SECOND,
        cache_ttl: 60 * SECOND,
        stale_if_error: 60 * SECOND,
        startup_behavior: JwksStartupBehavior::AllowDegraded,
    }
}

fn remote_jwt(jwks_url: &str) -> RuntimeJwtAuth {
    RuntimeJwtAuth {
        secret: String::new(),
        issuer: Some("issuer-1".to_string()),
        issuers: Vec::new(),
        audience: Some("aud-1".to_string()),
        audiences: Vec::new(),
        clock_skew: 30 * SECOND,
        allowed_algorithms: vec![JwtAlgorithm::Rs256],
        require_kid: true,
        static_keys: Vec::new(),
        jwks_url: Some(jwks_url.to_string()),
        jwks_refresh_interval: 60 * SECOND,
        jwks_request_timeout: SECOND,
        jwks_cache_ttl: 60 * SECOND,
        jwks_stale_if_error: 60 * SECOND,
        jwks_startup_behavior: JwksStartupBehavior::AllowDegraded,
    }
}

fn upstream(name: &str, jwt: Option<RuntimeJwtAuth>) -> RuntimeUpstream {
    RuntimeUpstream {
        name: name.to_string(),
        policy: RuntimeUpstreamPolicy {
            upstream_auth: RuntimeAuthPolicy {
                api_key: None,
                jwt,
                required_scopes: Vec::new(),
                required_roles: Vec::new(),
            },
        },
    }
}

fn pem_key(kid: &str, pem: &str) -> JwtJwksActiveKey {
    JwtJwksActiveKey {
        key: RuntimeJwtVerificationKey::Pem {
            kid: Some(kid.to_string()),
            alg: Some(JwtAlgorithm::Rs256),
            public_key_pem: pem.to_string(),
            pem_material: PemMaterial {
                public_key: None,
                rsa: None,
                ec: None,
            },
        },
        retained_until: None,
    }
}

fn sound_rsa() -> JwkMaterial {
    JwkMaterial {
        rsa: RsaConstruction::Built { readable: true },
        ec: EcConstruction::Rejected,
    }
}

/// The modulus of a test key, 2048 bits long.
fn modulus(seed: u8) -> String {
    URL_SAFE_NO_PAD.encode(vec![0x80 | seed; 256])
}

fn test_rsa_public_jwk(seed: u8, kid: &str) -> String {
    format!(
        "{{\"alg\":\"RS256\",\"e\":\"AQAB\",\"key_ops\":[\"verify\"],\"kid\":\"{kid}\",\"kty\":\"RSA\",\"n\":\"{}\",\"use\":\"sig\"}}",
        modulus(seed)
    )
}

fn document(keys: &[String]) -> String {
    format!("{{\"keys\":[{}]}}", keys.join(","))
}

/// Reads a fetched document whose keys the key library finds sound.
fn read_document(
    body: &str,
    allowed: &Vec<JwtAlgorithm>,
) -> Result<Vec<RuntimeJwtVerificationKey>, JwtJwksFetchFailure> {
    let listed = parse_jwks_document(body.as_bytes())?;
    let fetched = listed
        .into_iter()
        .map(|jwk| FetchedJwk {
            jwk,
            material: sound_rsa(),
        })
        .collect();
    normalize_jwks_document(&fetched, allowed)
}

fn refresh_jwks_source_once(
    cache: &mut JwtJwksSharedCache,
    source: &JwtJwksSourceConfig,
    fetched: Result<String, JwtJwksFetchFailure>,
    now: Nanos,
) -> RefreshOutcome {
    assert!(cache.begin_refresh(source, now, NOW));
    let keys = match fetched {
        Ok(body) => read_document(&body, &source.allowed_algorithms),
        Err(failure) => Err(failure),
    };
    refresh_jwks_source_inflight(cache, source, keys, now, NOW)
}

/// A token that the test key signed.
fn test_rs256_jwt(seed: u8, kid: &str, claims: &str) -> String {
    let header = format!("{{\"alg\":\"RS256\",\"kid\":\"{kid}\",\"typ\":\"JWT\"}}");
    format!(
        "{}.{}.{}",
        URL_SAFE_NO_PAD.encode(header),
        URL_SAFE_NO_PAD.encode(claims),
        modulus(seed)
    )
}

/// Validates a token; a signature holds where the token's signer and the key are one.
fn validate(
    token: &str,
    jwt: &RuntimeJwtAuth,
    cache: &mut JwtJwksSharedCache,
    now: Nanos,
) -> Result<JwtAlgorithm, JwtValidationFailureReason> {
    match validate_jwt_token(token, jwt, cache, now, NOW).step {
        JwtValidationStep::Rejected(failure) => Err(failure.reason),
        JwtValidationStep::Validated(validated) => Ok(validated.algorithm),
        JwtValidationStep::CheckSignature(pending) => {
            let valid = match &pending.request {
                SignatureRequest::Rs256 {
                    key: RuntimeJwtVerificationKey::Jwk { jwk, .. },
                    message,
                    signature,
                } => {
                    assert!(token.as_bytes().starts_with(message));
                    jwk.contains(&URL_SAFE_NO_PAD.encode(signature))
                }
                _ => panic!("an RSA signature was asked for"),
            };
            match finish_jwt_validation(&pending, valid, jwt, NOW) {
                Ok(validated) => Ok(validated.algorithm),
                Err(failure) => Err(failure.reason),
            }
        }
    }
}

const CLAIMS: &str = r#"{"iss":"issuer-1","aud":"aud-1","exp":4000000000}"#;

#[test]
fn mod_jwks_body_collection_rejects_oversized_documents() {
    let mut body = JwksBody::new();
    let failure = body
        .push_chunk(&vec![b'x'; MAX_JWKS_BODY_BYTES + 1])
        .expect_err("oversized jwks body must be rejected");

    assert_eq!(failure.reason, JwtJwksFetchFailureReason::MalformedDocument);
    assert!(failure.to_text().contains(&format!(
        "jwks document exceeded {} bytes",
        MAX_JWKS_BODY_BYTES
    )));

    let mut body = JwksBody::new();
    assert!(body.push_chunk(&vec![b'x'; MAX_JWKS_BODY_BYTES]).is_ok());
    assert!(body.push_chunk(b"y").is_err());
    assert_eq!(body.into_bytes().len(), MAX_JWKS_BODY_BYTES);
}

#[test]
fn mod_startup_jwks_refresh_populates_active_key_set() {
    let jwks_url = "https://issuer.example.com/startup-jwks.json";
    let mut source = test_jwks_source(jwks_url, vec![JwtAlgorithm::Rs256]);
    source.startup_behavior = JwksStartupBehavior::RequireReady;
    let mut cache = JwtJwksSharedCache::new();
    cache.register_source(source.clone());

    let outcome = refresh_jwks_source_once(
        &mut cache,
        &source,
        Ok(document(&[test_rsa_public_jwk(1, "startup-key")])),
        START,
    );

    assert!(matches!(outcome, RefreshOutcome::Replaced(_)));
    let snapshot = cache
        .snapshot(&source.source_identity, START)
        .expect("cache snapshot");
    assert_eq!(snapshot.state, JwtJwksCacheState::Fresh);
    assert_eq!(snapshot.active_keys.len(), 1);
}

#[test]
fn admission_require_ready_startup_preflight_fails_when_jwks_is_unreachable() {
    let jwks_url = "https://issuer.example.com/require-ready-failure.json";
    let mut jwt = remote_jwt(jwks_url);
    jwt.jwks_startup_behavior = JwksStartupBehavior::RequireReady;
    let config = RuntimeConfig {
        upstreams: vec![upstream("api", Some(jwt))],
    };
    let mut cache = JwtJwksSharedCache::new();

    let sources = QUICListener::initialize_jwks_startup(&config, &mut cache);
    assert_eq!(sources.len(), 1);
    let error = QUICListener::preflight_require_ready_jwks(
        &cache,
        &sources[0],
        "startup",
        Err(JwtJwksFetchFailure::request_failed(
            "scripted startup outage".to_string(),
        )),
        START,
    )
    .expect_err("startup must fail");

    assert!(error.contains("startup_behavior=require_ready"));
}

#[test]
fn mod_require_ready_startup_preflight_fails_when_jwks_is_unreachable() {
    let jwks_url = "https://issuer.example.com/require-ready-failure.json";
    let mut jwt = remote_jwt(jwks_url);
    jwt.jwks_startup_behavior = JwksStartupBehavior::RequireReady;
    let config = RuntimeConfig {
        upstreams: vec![upstream("api", Some(jwt))],
    };
    let mut cache = JwtJwksSharedCache::new();

    let sources = QUICListener::initialize_jwks_startup(&config, &mut cache);
    assert_eq!(sources.len(), 1);
    let error = QUICListener::preflight_require_ready_jwks(
        &cache,
        &sources[0],
        "startup",
        Err(JwtJwksFetchFailure::request_failed(
            "scripted startup outage".to_string(),
        )),
        START,
    )
    .expect_err("startup must fail");

    assert!(error.contains("startup_behavior=require_ready"));
}

#[test]
fn startup_preflight_without_jwks_does_not_evict_unrelated_cached_sources() {
    let jwks_url = "https://issuer.example.com/preflight-keeps-live-cache.json";
    let source_identity = jwks_source_identity_for_test(jwks_url);
    let source = test_jwks_source(jwks_url, vec![JwtAlgorithm::Rs256]);
    let mut cache = JwtJwksSharedCache::new();
    cache.upsert(
        &source_identity,
        JwtJwksCacheEntry {
            source: source.clone(),
            state: JwtJwksCacheState::Fresh,
            active_keys: vec![pem_key("persisted-kid", "persisted-pem")],
            refresh_in_flight: false,
            last_refresh_started_at: Some(START - 5 * SECOND),
            last_refresh_started_wall: Some(NOW),
            last_refresh_completed_at: Some(START - 5 * SECOND),
            last_refresh_completed_wall: Some(NOW),
            last_success_at: Some(START - 5 * SECOND),
            last_success_wall: Some(NOW),
            last_failure_at: None,
            last_failure_wall: None,
            last_error: None,
            last_failure_reason: None,
            next_on_demand_refresh_at: None,
        },
    );
    let config = RuntimeConfig {
        upstreams: vec![upstream("api", None)],
    };

    assert!(QUICListener::initialize_jwks_startup(&config, &mut cache).is_empty());

    let snapshot = cache
        .snapshot(&source_identity, START)
        .expect("unrelated cached jwks source must remain available");
    assert_eq!(snapshot.state, JwtJwksCacheState::Fresh);
    assert_eq!(snapshot.active_keys.len(), 1);
}

#[test]
fn runtime_jwks_sources_merge_same_url_policies_deterministically() {
    let jwks_url = "https://issuer.example.com/shared-jwks.json?token=secret";
    let mut first = remote_jwt(jwks_url);
    first.jwks_request_timeout = SECOND;
    first.jwks_refresh_interval = 60 * SECOND;
    first.jwks_cache_ttl = 300 * SECOND;
    first.jwks_stale_if_error = 60 * SECOND;
    let mut second = remote_jwt(jwks_url);
    second.allowed_algorithms = vec![JwtAlgorithm::Es256];
    second.jwks_request_timeout = 5 * SECOND;
    second.jwks_refresh_interval = 15 * SECOND;
    second.jwks_cache_ttl = 120 * SECOND;
    second.jwks_stale_if_error = 180 * SECOND;
    second.jwks_startup_behavior = JwksStartupBehavior::RequireReady;
    let config = RuntimeConfig {
        upstreams: vec![upstream("api", Some(first)), upstream("api-2", Some(second))],
    };

    let sources = runtime_jwks_sources(&config);
    assert_eq!(sources.len(), 1);
    assert_eq!(
        sources[0].source_identity,
        jwks_source_identity_for_test(jwks_url)
    );
    assert_eq!(sources[0].jwks_url, jwks_url);
    assert_eq!(
        sources[0].allowed_algorithms,
        vec![JwtAlgorithm::Es256, JwtAlgorithm::Rs256]
    );
    assert_eq!(sources[0].refresh_interval, 15 * SECOND);
    assert_eq!(sources[0].request_timeout, 5 * SECOND);
    assert_eq!(sources[0].cache_ttl, 120 * SECOND);
    assert_eq!(sources[0].stale_if_error, 180 * SECOND);
    assert_eq!(
        sources[0].startup_behavior,
        JwksStartupBehavior::RequireReady
    );
    assert_eq!(
        sources[0].public_endpoint(),
        "https://issuer.example.com/shared-jwks.json"
    );
}

#[test]
fn jwks_cache_reconcile_evicts_removed_sources() {
    let active_url = "https://issuer.example.com/reconcile-active.json";
    let removed_url = "https://issuer.example.com/reconcile-removed.json";
    let active = test_jwks_source(active_url, vec![JwtAlgorithm::Rs256]);
    let removed = test_jwks_source(removed_url, vec![JwtAlgorithm::Es256]);

    let mut cache = JwtJwksSharedCache::new();
    cache.register_source(active.clone());
    cache.register_source(removed.clone());

    cache.reconcile_sources(&vec![active.clone()]);

    assert!(
        cache.snapshot(&active.source_identity, START).is_some(),
        "active source must remain in cache"
    );
    assert!(
        cache.snapshot(&removed.source_identity, START).is_none(),
        "removed source must be evicted from cache"
    );
}

#[test]
fn jwks_cache_reconcile_updates_active_source_in_place_without_resetting_state() {
    let jwks_url = "https://issuer.example.com/reconcile-update.json";
    let original = test_jwks_source(jwks_url, vec![JwtAlgorithm::Rs256]);
    let cache_now = START;
    let mut cache = JwtJwksSharedCache::new();
    cache.upsert(
        &original.source_identity,
        JwtJwksCacheEntry {
            source: original.clone(),
            state: JwtJwksCacheState::RefreshFailedRetained,
            active_keys: vec![pem_key("persisted-kid", "persisted-pem")],
            refresh_in_flight: true,
            last_refresh_started_at: Some(cache_now - 5 * SECOND),
            last_refresh_started_wall: Some(NOW),
            last_refresh_completed_at: Some(cache_now - 30 * SECOND),
            last_refresh_completed_wall: Some(NOW),
            last_success_at: Some(cache_now - 30 * SECOND),
            last_success_wall: Some(NOW),
            last_failure_at: Some(cache_now - 5 * SECOND),
            last_failure_wall: Some(NOW),
            last_error: Some("request_failed: retained".to_string()),
            last_failure_reason: Some(JwtJwksFetchFailureReason::RequestFailed),
            next_on_demand_refresh_at: Some(cache_now + 10 * SECOND),
        },
    );

    let mut updated = original.clone();
    updated.allowed_algorithms = vec![JwtAlgorithm::Es256, JwtAlgorithm::Rs256];
    updated.refresh_interval = 15 * SECOND;
    updated.request_timeout = 3 * SECOND;
    updated.cache_ttl = 120 * SECOND;
    updated.stale_if_error = 180 * SECOND;
    updated.startup_behavior = JwksStartupBehavior::RequireReady;

    cache.reconcile_sources(&vec![updated.clone()]);

    let entry = cache
        .entry(&updated.source_identity)
        .expect("active source entry");
    assert!(entry.refresh_in_flight);
    assert_eq!(entry.state, JwtJwksCacheState::RefreshFailedRetained);
    assert_eq!(entry.active_keys.len(), 1);
    assert_eq!(
        entry.last_failure_reason,
        Some(JwtJwksFetchFailureReason::RequestFailed)
    );
    assert_eq!(entry.source.allowed_algorithms, updated.allowed_algorithms);
    assert_eq!(entry.source.refresh_interval, updated.refresh_interval);
    assert_eq!(entry.source.request_timeout, updated.request_timeout);
    assert_eq!(entry.source.cache_ttl, original.cache_ttl);
    assert_eq!(entry.source.stale_if_error, updated.stale_if_error);
    assert_eq!(entry.source.startup_behavior, updated.startup_behavior);
    assert_eq!(
        entry.last_error.as_deref(),
        Some("request_failed: retained")
    );
}

/// A source whose only key could be used until a second ago.
fn expired_entry(source: JwtJwksSourceConfig, cache_now: Nanos) -> JwtJwksCacheEntry {
    JwtJwksCacheEntry {
        source,
        state: JwtJwksCacheState::Stale,
        active_keys: vec![JwtJwksActiveKey {
            key: RuntimeJwtVerificationKey::Jwk {
                kid: Some("expired-kid".to_string()),
                alg: Some(JwtAlgorithm::Rs256),
                jwk: test_rsa_public_jwk(1, "expired-kid"),
                jwk_material: sound_rsa(),
            },
            retained_until: Some(cache_now - SECOND),
        }],
        refresh_in_flight: false,
        last_refresh_started_at: Some(cache_now - 121 * SECOND),
        last_refresh_started_wall: Some(NOW),
        last_refresh_completed_at: Some(cache_now - 121 * SECOND),
        last_refresh_completed_wall: Some(NOW),
        last_success_at: Some(cache_now - 121 * SECOND),
        last_success_wall: Some(NOW),
        last_failure_at: Some(cache_now - SECOND),
        last_failure_wall: Some(NOW),
        last_error: Some("request_failed: jwks refresh kept failing".to_string()),
        last_failure_reason: Some(JwtJwksFetchFailureReason::RequestFailed),
        next_on_demand_refresh_at: None,
    }
}

#[test]
fn admission_stale_jwks_cache_beyond_configured_limit_rejects_requests() {
    let jwks_url = "https://issuer.example.com/expired-stale-jwks.json";
    let source = test_jwks_source(jwks_url, vec![JwtAlgorithm::Rs256]);
    let source_identity = source.source_identity.clone();
    let mut cache = JwtJwksSharedCache::new();
    cache.upsert(&source_identity, expired_entry(source, START));

    let token = test_rs256_jwt(
        1,
        "expired-kid",
        r#"{"iss":"issuer-1","aud":"aud-1","exp":4000000000}"#,
    );
    let failure = validate(token.as_str(), &remote_jwt(jwks_url), &mut cache, START)
        .expect_err("stale jwks beyond configured limit must reject");
    assert_eq!(failure, JwtValidationFailureReason::KeySourceUnavailable);
}

#[test]
fn mod_stale_jwks_cache_beyond_configured_limit_rejects_requests() {
    let jwks_url = "https://issuer.example.com/expired-stale-jwks.json";
    let source = test_jwks_source(jwks_url, vec![JwtAlgorithm::Rs256]);
    let source_identity = source.source_identity.clone();
    let mut cache = JwtJwksSharedCache::new();
    cache.upsert(&source_identity, expired_entry(source, START));

    let token = test_rs256_jwt(
        1,
        "expired-kid",
        r#"{"iss":"issuer-1","aud":"aud-1","exp":4000000000}"#,
    );
    let failure = validate(token.as_str(), &remote_jwt(jwks_url), &mut cache, START)
        .expect_err("stale jwks beyond configured limit must reject");
    assert_eq!(failure, JwtValidationFailureReason::KeySourceUnavailable);
}

#[test]
fn refresh_transport_failure_retains_last_known_good_keys_and_keeps_validating() {
    let jwks_url = "https://issuer.example.com/refresh-failure-retention-jwks.json";
    let source = test_jwks_source(jwks_url, vec![JwtAlgorithm::Rs256]);
    let mut cache = JwtJwksSharedCache::new();
    cache.register_source(source.clone());

    refresh_jwks_source_once(
        &mut cache,
        &source,
        Ok(document(&[test_rsa_public_jwk(1, "retained-kid")])),
        START,
    );
    let outcome = refresh_jwks_source_once(
        &mut cache,
        &source,
        Err(JwtJwksFetchFailure::request_failed(
            "connection refused".to_string(),
        )),
        START,
    );
    assert!(matches!(outcome, RefreshOutcome::Failed { .. }));

    let snapshot = cache
        .snapshot(&source.source_identity, START)
        .expect("snapshot after transport failure");
    assert_eq!(snapshot.state, JwtJwksCacheState::RefreshFailedRetained);
    assert_eq!(snapshot.active_keys.len(), 1);
    assert_eq!(
        snapshot.last_failure_reason,
        Some(JwtJwksFetchFailureReason::RequestFailed)
    );

    let token = test_rs256_jwt(1, "retained-kid", CLAIMS);
    let validated = validate(token.as_str(), &remote_jwt(jwks_url), &mut cache, START)
        .expect("retained keys must keep validating after refresh failure");
    assert_eq!(validated, JwtAlgorithm::Rs256);
}

#[test]
fn cache_state_transitions_track_ttl_staleness_and_retention_windows() {
    let start = START;
    let mut entry = JwtJwksCacheEntry {
        source: JwtJwksSourceConfig {
            source_identity: "transitions".to_string(),
            jwks_url: "https://issuer.example.com/transitions.json".to_string(),
            allowed_algorithms: vec![JwtAlgorithm::Rs256],
            refresh_interval: 60 * SECOND,
            request_timeout: SECOND,
            cache_ttl: 60 * SECOND,
            stale_if_error: 60 * SECOND,
            startup_behavior: JwksStartupBehavior::AllowDegraded,
        },
        state: JwtJwksCacheState::NeverFetched,
        active_keys: Vec::new(),
        refresh_in_flight: false,
        last_refresh_started_at: None,
        last_refresh_started_wall: None,
        last_refresh_completed_at: None,
        last_refresh_completed_wall: None,
        last_success_at: None,
        last_success_wall: None,
        last_failure_at: None,
        last_failure_wall: None,
        last_error: None,
        last_failure_reason: None,
        next_on_demand_refresh_at: None,
    };

    assert_eq!(
        entry.effective_state(start),
        JwtJwksCacheState::NeverFetched
    );

    entry.active_keys = vec![pem_key("k1", "pem")];
    entry.state = JwtJwksCacheState::Fresh;
    entry.last_success_at = Some(start);

    assert_eq!(entry.effective_state(start), JwtJwksCacheState::Fresh);
    assert_eq!(
        entry.effective_state(start + 90 * SECOND),
        JwtJwksCacheState::Stale
    );
    assert_eq!(
        entry.effective_state(start + 200 * SECOND),
        JwtJwksCacheState::EmptyUnusable
    );

    entry.state = JwtJwksCacheState::RefreshFailedRetained;
    assert_eq!(
        entry.effective_state(start),
        JwtJwksCacheState::RefreshFailedRetained
    );
    entry.state = JwtJwksCacheState::QuarantinedRetained;
    assert_eq!(
        entry.effective_state(start + 90 * SECOND),
        JwtJwksCacheState::QuarantinedRetained
    );
}

#[test]
fn mod_unknown_kid_rejects_current_request_and_triggers_refresh_hint() {
    let jwks_url = "https://issuer.example.com/on-demand-jwks.json";
    let source = test_jwks_source(jwks_url, vec![JwtAlgorithm::Rs256]);
    let mut cache = JwtJwksSharedCache::new();
    cache.register_source(source.clone());
    refresh_jwks_source_once(
        &mut cache,
        &source,
        Ok(document(&[test_rsa_public_jwk(1, "known-kid")])),
        START,
    );

    let jwt = remote_jwt(jwks_url);
    let token = test_rs256_jwt(2, "rotated-kid", CLAIMS);
    let first = validate_jwt_token(token.as_str(), &jwt, &mut cache, START, NOW);
    assert!(matches!(
        first.step,
        JwtValidationStep::Rejected(failure)
            if failure.reason == JwtValidationFailureReason::MissingVerificationKey
    ));
    let hinted = first.refresh.expect("a refresh is asked for");
    assert_eq!(hinted.source_identity, source.source_identity);

    let again = validate_jwt_token(token.as_str(), &jwt, &mut cache, START + SECOND, NOW);
    assert!(again.refresh.is_none());

    let keys = read_document(
        &document(&[
            test_rsa_public_jwk(1, "known-kid"),
            test_rsa_public_jwk(2, "rotated-kid"),
        ]),
        &hinted.allowed_algorithms,
    );
    refresh_jwks_source_inflight(&mut cache, &hinted, keys, START + SECOND, NOW);
    assert!(validate(token.as_str(), &jwt, &mut cache, START + SECOND).is_ok());
}

#[test]
fn mod_refresh_retains_temporarily_dropped_old_key_during_rollover_overlap() {
    let jwks_url = "https://issuer.example.com/rollover-overlap-jwks.json";
    let source = test_jwks_source(jwks_url, vec![JwtAlgorithm::Rs256]);
    let mut cache = JwtJwksSharedCache::new();
    cache.register_source(source.clone());
    refresh_jwks_source_once(
        &mut cache,
        &source,
        Ok(document(&[test_rsa_public_jwk(1, "old-kid")])),
        START,
    );
    refresh_jwks_source_once(
        &mut cache,
        &source,
        Ok(document(&[test_rsa_public_jwk(2, "new-kid")])),
        START,
    );

    let jwt = remote_jwt(jwks_url);
    let old_token = test_rs256_jwt(1, "old-kid", CLAIMS);
    let new_token = test_rs256_jwt(2, "new-kid", CLAIMS);

    assert!(validate(old_token.as_str(), &jwt, &mut cache, START).is_ok());
    assert!(validate(new_token.as_str(), &jwt, &mut cache, START).is_ok());

    let last = START + 60 * SECOND;
    assert!(validate(old_token.as_str(), &jwt, &mut cache, last).is_ok());
    assert_eq!(
        validate(old_token.as_str(), &jwt, &mut cache, last + 1),
        Err(JwtValidationFailureReason::MissingVerificationKey)
    );
    assert!(validate(new_token.as_str(), &jwt, &mut cache, last + 1).is_ok());
}

#[test]
fn mod_refresh_replaces_key_material_when_issuer_reuses_existing_kid() {
    let jwks_url = "https://issuer.example.com/reused-kid-jwks.json";
    let source = test_jwks_source(jwks_url, vec![JwtAlgorithm::Rs256]);
    let mut cache = JwtJwksSharedCache::new();
    cache.register_source(source.clone());
    refresh_jwks_source_once(
        &mut cache,
        &source,
        Ok(document(&[test_rsa_public_jwk(1, "shared-kid")])),
        START,
    );
    refresh_jwks_source_once(
        &mut cache,
        &source,
        Ok(document(&[test_rsa_public_jwk(2, "shared-kid")])),
        START,
    );

    let jwt = remote_jwt(jwks_url);
    let old_token = test_rs256_jwt(1, "shared-kid", CLAIMS);
    let new_token = test_rs256_jwt(2, "shared-kid", CLAIMS);

    let old_failure = validate(old_token.as_str(), &jwt, &mut cache, START)
        .expect_err("old material under reused kid must stop validating");
    assert_eq!(old_failure, JwtValidationFailureReason::SignatureInvalid);
    assert!(validate(new_token.as_str(), &jwt, &mut cache, START).is_ok());
}

#[test]
fn mod_empty_or_broken_refresh_quarantines_replacement_and_retains_last_known_good_keys() {
    let jwks_url = "https://issuer.example.com/quarantine-jwks.json";
    let source = test_jwks_source(jwks_url, vec![JwtAlgorithm::Rs256]);
    let mut cache = JwtJwksSharedCache::new();
    cache.register_source(source.clone());
    refresh_jwks_source_once(
        &mut cache,
        &source,
        Ok(document(&[test_rsa_public_jwk(1, "stable-kid")])),
        START,
    );
    let emptied = refresh_jwks_source_once(&mut cache, &source, Ok(document(&[])), START);
    assert!(matches!(
        emptied,
        RefreshOutcome::Replaced(Some(report))
            if matches!(report.note, ReplacementNote::Quarantined { .. })
    ));
    let after_empty = cache
        .snapshot(&source.source_identity, START)
        .expect("snapshot after empty");
    assert_eq!(after_empty.state, JwtJwksCacheState::QuarantinedRetained);
    assert_eq!(after_empty.active_keys.len(), 1);

    refresh_jwks_source_once(
        &mut cache,
        &source,
        Err(JwtJwksFetchFailure::malformed_document(
            "duplicate or broken jwks".to_string(),
        )),
        START,
    );
    let after_broken = cache
        .snapshot(&source.source_identity, START)
        .expect("snapshot after broken");
    assert!(matches!(
        after_broken.state,
        JwtJwksCacheState::QuarantinedRetained | JwtJwksCacheState::RefreshFailedRetained
    ));

    let token = test_rs256_jwt(1, "stable-kid", CLAIMS);
    assert!(validate(token.as_str(), &remote_jwt(jwks_url), &mut cache, START).is_ok());
}

#[test]
fn source_identity_is_a_prefix_of_the_digest_of_the_url() {
    assert_eq!(
        jwt_jwks_source_identity("https://issuer.example.com/jwks.json", &[]),
        "jwks:81bcf7519e5e20a0a63468bf"
    );
    assert_eq!(
        jwt_jwks_source_identity(
            "https://issuer.example.com/jwks.json",
            &[JwtAlgorithm::Es256]
        ),
        jwt_jwks_source_identity("https://issuer.example.com/jwks.json", &[])
    );
}

#[test]
fn public_endpoint_drops_query_and_fragment() {
    let cases = [
        ("https://a.example/jwks?token=x", "https://a.example/jwks"),
        ("https://a.example/jwks", "https://a.example/jwks"),
        ("https://a.example/jwks#part?x", "https://a.example/jwks"),
        ("", ""),
    ];
    for (url, endpoint) in cases {
        assert_eq!(jwt_jwks_public_endpoint(url), endpoint);
    }
}

#[test]
fn on_demand_cooldown_is_held_between_five_and_thirty_seconds() {
    let mut source = test_jwks_source("https://a.example/jwks", vec![JwtAlgorithm::Rs256]);
    for (interval, cooldown) in [(1u128, 5u128), (5, 5), (12, 12), (30, 30), (300, 30)] {
        source.refresh_interval = interval * SECOND;
        assert_eq!(source.on_demand_refresh_cooldown(), cooldown * SECOND);
    }
}

#[test]
fn on_demand_refresh_waits_for_the_cooldown() {
    let source = test_jwks_source("https://a.example/jwks", vec![JwtAlgorithm::Rs256]);
    let id = source.source_identity.clone();
    let mut cache = JwtJwksSharedCache::new();
    assert!(cache.schedule_on_demand_refresh(&id, START, NOW).is_none());
    cache.register_source(source.clone());
    assert!(cache.schedule_on_demand_refresh(&id, START, NOW).is_some());
    assert!(cache.schedule_on_demand_refresh(&id, START, NOW).is_none());
    cache.complete_refresh_failure(
        &id,
        START,
        NOW,
        &JwtJwksFetchFailure::request_failed("refused".to_string()),
    );
    let end = START + 30 * SECOND;
    assert!(cache.schedule_on_demand_refresh(&id, end - 1, NOW).is_none());
    assert!(cache.schedule_on_demand_refresh(&id, end, NOW).is_some());
}

#[test]
fn second_refresh_does_not_start_while_one_is_under_way() {
    let source = test_jwks_source("https://a.example/jwks", vec![JwtAlgorithm::Rs256]);
    let mut cache = JwtJwksSharedCache::new();
    cache.register_source(source.clone());
    assert!(cache.begin_refresh(&source, START, NOW));
    assert!(!cache.begin_refresh(&source, START, NOW));
    cache.complete_refresh_success(&source.source_identity, START, NOW, Vec::new());
    assert_eq!(
        cache.entry(&source.source_identity).expect("entry").state,
        JwtJwksCacheState::EmptyUnusable
    );
    assert!(cache.begin_refresh(&source, START, NOW));
}

#[test]
fn merging_is_the_same_in_either_order() {
    let mut a = test_jwks_source("https://a.example/jwks", vec![JwtAlgorithm::Rs256]);
    a.refresh_interval = 90 * SECOND;
    let mut b = test_jwks_source("https://a.example/jwks", vec![JwtAlgorithm::Es256]);
    b.request_timeout = 9 * SECOND;
    b.startup_behavior = JwksStartupBehavior::RequireReady;
    let mut ab = a.clone();
    merge_jwks_source_config(&mut ab, &b);
    let mut ba = b.clone();
    merge_jwks_source_config(&mut ba, &a);
    for merged in [&ab, &ba] {
        assert_eq!(
            merged.allowed_algorithms,
            vec![JwtAlgorithm::Es256, JwtAlgorithm::Rs256]
        );
        assert_eq!(merged.refresh_interval, 60 * SECOND);
        assert_eq!(merged.request_timeout, 9 * SECOND);
        assert_eq!(merged.startup_behavior, JwksStartupBehavior::RequireReady);
    }
    let once = ab.clone();
    merge_jwks_source_config(&mut ab, &b);
    assert_eq!(ab.allowed_algorithms, once.allowed_algorithms);
    assert_eq!(ab.cache_ttl, once.cache_ttl);
}

#[test]
fn reconciliation_names_the_active_sources() {
    let kept = test_jwks_source("https://a.example/jwks", vec![JwtAlgorithm::Rs256]);
    let gone = test_jwks_source("https://b.example/jwks", vec![JwtAlgorithm::Rs256]);
    let mut cache = JwtJwksSharedCache::new();
    cache.register_sources(&vec![kept.clone(), gone.clone()]);
    assert_eq!(
        cache.reconcile_sources(&vec![kept.clone()]),
        vec![kept.source_identity.clone()]
    );
    assert!(cache.entry(&gone.source_identity).is_none());
    assert_eq!(
        cache.reconcile_sources(&vec![kept.clone()]),
        vec![kept.source_identity.clone()]
    );
    cache.remove(&kept.source_identity);
    assert!(cache.entry(&kept.source_identity).is_none());
}

#[test]
fn failures_are_told_with_their_reason() {
    let cases = [
        (
            JwtJwksFetchFailure::http_status(404),
            JwtJwksFetchFailureReason::HttpStatus,
            "http_status: jwks endpoint returned 404 Not Found",
        ),
        (
            JwtJwksFetchFailure::http_status(599),
            JwtJwksFetchFailureReason::HttpStatus,
            "http_status: jwks endpoint returned 599 <unknown status code>",
        ),
        (
            JwtJwksFetchFailure::request_failed("refused".to_string()),
            JwtJwksFetchFailureReason::RequestFailed,
            "request_failed: refused",
        ),
        (
            JwtJwksFetchFailure::malformed_document("broken".to_string()),
            JwtJwksFetchFailureReason::MalformedDocument,
            "malformed_document: broken",
        ),
    ];
    for (failure, reason, text) in cases {
        assert_eq!(failure.reason, reason);
        assert_eq!(failure.to_text(), text);
    }
}

#[test]
fn two_keys_with_one_kid_make_a_document_ambiguous() {
    let failure = read_document(
        &document(&[test_rsa_public_jwk(1, "same"), test_rsa_public_jwk(2, "same")]),
        &vec![JwtAlgorithm::Rs256],
    )
    .expect_err("ambiguous");
    assert_eq!(
        failure.reason,
        JwtJwksFetchFailureReason::AmbiguousDuplicateKid
    );
    assert!(failure.detail.contains("same"));
}

#[test]
fn documents_without_keys_are_malformed() {
    for body in ["{}", "[]", "{\"keys\":{}}"] {
        let failure = parse_jwks_document(body.as_bytes()).expect_err("no keys");
        assert_eq!(failure.detail, "jwks document missing keys[]");
    }
    let broken = parse_jwks_document(b"{").expect_err("no json");
    assert_eq!(broken.reason, JwtJwksFetchFailureReason::MalformedDocument);
    assert_eq!(
        parse_jwks_document(br#"{"keys":[{"kid" : "a"}, 7]}"#).expect("listed"),
        vec!["{\"kid\":\"a\"}".to_string(), "7".to_string()]
    );
}

#[test]
fn fetched_keys_are_taken_passed_over_or_objected_to() {
    let allowed = vec![JwtAlgorithm::Rs256];
    let read = |jwk: &str, material: JwkMaterial| {
        normalize_jwks_key(
            &FetchedJwk {
                jwk: jwk.to_string(),
                material,
            },
            &allowed,
        )
    };
    assert!(matches!(
        read(&test_rsa_public_jwk(1, "a"), sound_rsa()),
        Ok(Some(RuntimeJwtVerificationKey::Jwk { kid: Some(_), alg: Some(JwtAlgorithm::Rs256), .. }))
    ));
    for passed_over in [
        r#"{"kty":"RSA","use":"enc","n":"AQ","e":"AQAB"}"#,
        r#"{"kty":"RSA","key_ops":["sign"],"n":"AQ","e":"AQAB"}"#,
        r#"{"kty":"EC","crv":"P-256","x":"AQ","y":"AQ"}"#,
        r#"{"kty":"oct","alg":"HS256","k":"AQ"}"#,
    ] {
        assert!(matches!(read(passed_over, sound_rsa()), Ok(None)));
    }
    let objections = [
        ("7", "must be a JSON object"),
        (r#"{"kid":"a"}"#, "is missing kty"),
        (r#"{"kty":"oct"}"#, "declares unsupported kty 'oct'"),
        (r#"{"kty":"EC"}"#, "is missing crv for EC key"),
        (r#"{"kty":"EC","crv":"P-384"}"#, "declares unsupported EC curve 'P-384'"),
        (
            r#"{"kty":"RSA","alg":"RS512"}"#,
            "declares unsupported alg 'RS512' for jwks normalization",
        ),
    ];
    for (jwk, objection) in objections {
        assert_eq!(read(jwk, sound_rsa()).expect_err("objection"), objection);
    }
    let jwk_of = |first: u8| {
        let mut n = vec![0xff; 256];
        n[0] = first;
        let n = URL_SAFE_NO_PAD.encode(n);
        format!("{{\"kty\":\"RSA\",\"n\":\"{n}\",\"e\":\"AQAB\"}}")
    };
    assert!(matches!(read(&jwk_of(0x80), sound_rsa()), Ok(Some(_))));
    assert_eq!(
        read(&jwk_of(0x7f), sound_rsa()).expect_err("2047 bits"),
        "cannot be used for RS256 verification: key_too_weak"
    );
}

#[test]
fn require_ready_source_is_ready_once_its_keys_are_usable() {
    let mut source = test_jwks_source("https://a.example/jwks", vec![JwtAlgorithm::Rs256]);
    source.startup_behavior = JwksStartupBehavior::RequireReady;
    let mut cache = JwtJwksSharedCache::new();
    cache.register_source(source.clone());
    assert!(
        QUICListener::preflight_require_ready_jwks(&cache, &source, "startup", Ok(()), START)
            .is_err()
    );
    assert!(QUICListener::late_after_startup(&cache, &source, START));
    refresh_jwks_source_once(
        &mut cache,
        &source,
        Ok(document(&[test_rsa_public_jwk(1, "a")])),
        START,
    );
    assert!(
        QUICListener::preflight_require_ready_jwks(&cache, &source, "startup", Ok(()), START)
            .is_ok()
    );
}

#[test]
fn background_refresh_period_is_at_least_a_second() {
    let mut source = test_jwks_source("https://a.example/jwks", vec![JwtAlgorithm::Rs256]);
    assert_eq!(QUICListener::background_refresh_period(&source), 60 * SECOND);
    source.refresh_interval = 0;
    assert_eq!(QUICListener::background_refresh_period(&source), SECOND);
}

#[test]
fn fresh_keys_grow_stale_and_then_unusable() {
    let source = test_jwks_source("https://a.example/jwks", vec![JwtAlgorithm::Rs256]);
    let mut cache = JwtJwksSharedCache::new();
    cache.register_source(source.clone());
    refresh_jwks_source_once(
        &mut cache,
        &source,
        Ok(document(&[test_rsa_public_jwk(1, "a")])),
        START,
    );
    let at = |seconds: u128| {
        cache
            .snapshot(&source.source_identity, START + seconds * SECOND)
            .expect("snapshot")
    };
    for (seconds, state, name) in [
        (60, JwtJwksCacheState::Fresh, "fresh"),
        (61, JwtJwksCacheState::Stale, "stale"),
        (120, JwtJwksCacheState::Stale, "stale"),
        (121, JwtJwksCacheState::EmptyUnusable, "empty_unusable"),
    ] {
        assert_eq!(at(seconds).state, state);
        assert_eq!(jwt_jwks_cache_state_name(at(seconds).state), name);
    }
    assert!(jwt_jwks_cache_state_usable(at(120).state));
    assert!(!jwt_jwks_cache_state_usable(at(121).state));
    assert!(!jwt_jwks_cache_stale_window_expired(&at(120)));
    assert!(jwt_jwks_cache_stale_window_expired(&at(121)));
}

#[test]
fn report_shows_each_source_without_its_query() {
    let config = RuntimeConfig {
        upstreams: vec![
            upstream("api", Some(remote_jwt("https://a.example/jwks?token=secret"))),
            upstream("web", None),
        ],
    };
    let mut cache = JwtJwksSharedCache::new();
    let sources = runtime_jwks_sources(&config);
    cache.register_sources(&sources);
    refresh_jwks_source_once(
        &mut cache,
        &sources[0],
        Ok(document(&[test_rsa_public_jwk(1, "a")])),
        START,
    );
    let reports = snapshot_runtime_jwks_sources(
        &config,
        &cache,
        START + 7 * SECOND,
        WallTime::SinceEpoch { secs: 1_700_000_007 },
    );
    assert_eq!(reports.len(), 1);
    assert_eq!(reports[0].endpoint, "https://a.example/jwks");
    assert_eq!(reports[0].allowed_algorithms, vec!["RS256".to_string()]);
    assert_eq!(reports[0].state, "fresh");
    assert_eq!(reports[0].active_key_count, 1);
    assert_eq!(reports[0].age_seconds, Some(7));
    assert_eq!(
        reports[0].last_refresh_success_unix_seconds,
        Some(1_700_000_000)
    );
    assert_eq!(reports[0].last_error, None);
}

#[test]
fn longest_duration_is_below_the_clock_limit() {
    let mut source = test_jwks_source("https://a.example/jwks", vec![JwtAlgorithm::Rs256]);
    source.stale_if_error = LONGEST;
    let mut cache = JwtJwksSharedCache::new();
    cache.register_source(source.clone());
    for seed in [1, 2] {
        refresh_jwks_source_once(
            &mut cache,
            &source,
            Ok(document(&[test_rsa_public_jwk(seed, &format!("kid-{seed}"))])),
            START,
        );
    }
    let snapshot = cache
        .snapshot(&source.source_identity, START + LONGEST)
        .expect("snapshot");
    assert_eq!(snapshot.active_keys.len(), 2);
}

#[test]
fn sources_of_a_policy_hold_each_asymmetric_algorithm_once() {
    let mut jwt = remote_jwt("https://a.example/jwks");
    jwt.allowed_algorithms = vec![
        JwtAlgorithm::Rs256,
        JwtAlgorithm::Hs256,
        JwtAlgorithm::Es256,
        JwtAlgorithm::Rs256,
    ];
    let source = JwtJwksSourceConfig::from_jwt(&jwt).expect("source");
    assert_eq!(
        source.allowed_algorithms,
        vec![JwtAlgorithm::Es256, JwtAlgorithm::Rs256]
    );
    jwt.jwks_url = None;
    assert!(JwtJwksSourceConfig::from_jwt(&jwt).is_none());
}

#[test]
fn three_policies_merge_alike_in_any_grouping() {
    let source = |interval: u128, timeout: u128, ttl: u128| {
        let mut source = test_jwks_source("https://a.example/jwks", vec![JwtAlgorithm::Rs256]);
        source.refresh_interval = interval * SECOND;
        source.request_timeout = timeout * SECOND;
        source.cache_ttl = ttl * SECOND;
        source
    };
    let (a, b, c) = (source(10, 3, 90), source(20, 1, 30), source(5, 2, 60));
    let mut left = a.clone();
    merge_jwks_source_config(&mut left, &b);
    merge_jwks_source_config(&mut left, &c);
    let mut tail = b.clone();
    merge_jwks_source_config(&mut tail, &c);
    let mut right = a.clone();
    merge_jwks_source_config(&mut right, &tail);
    for merged in [&left, &right] {
        assert_eq!(merged.refresh_interval, 5 * SECOND);
        assert_eq!(merged.request_timeout, 3 * SECOND);
        assert_eq!(merged.cache_ttl, 30 * SECOND);
    }
}

#[test]
fn registering_a_source_again_changes_nothing() {
    let source = test_jwks_source("https://a.example/jwks", vec![JwtAlgorithm::Rs256]);
    let mut cache = JwtJwksSharedCache::new();
    cache.register_source(source.clone());
    refresh_jwks_source_once(
        &mut cache,
        &source,
        Ok(document(&[test_rsa_public_jwk(1, "a")])),
        START,
    );
    cache.register_source(source.clone());
    let entry = cache.entry(&source.source_identity).expect("entry");
    assert_eq!(entry.state, JwtJwksCacheState::Fresh);
    assert_eq!(entry.active_keys.len(), 1);
    assert_eq!(entry.source.allowed_algorithms, source.allowed_algorithms);
}

#[test]
fn order_of_the_upstreams_does_not_matter() {
    let policies = || {
        let mut second = remote_jwt("https://a.example/jwks");
        second.allowed_algorithms = vec![JwtAlgorithm::Es256];
        second.jwks_cache_ttl = 15 * SECOND;
        [
            upstream("a", Some(remote_jwt("https://a.example/jwks"))),
            upstream("b", Some(second)),
            upstream("c", Some(remote_jwt("https://b.example/jwks"))),
        ]
    };
    let forward = runtime_jwks_sources(&RuntimeConfig {
        upstreams: policies().into_iter().collect(),
    });
    let backward = runtime_jwks_sources(&RuntimeConfig {
        upstreams: policies().into_iter().rev().collect(),
    });
    assert_eq!(forward.len(), 2);
    for (left, right) in forward.iter().zip(&backward) {
        assert_eq!(left.source_identity, right.source_identity);
        assert_eq!(left.allowed_algorithms, right.allowed_algorithms);
        assert_eq!(left.cache_ttl, right.cache_ttl);
    }
    assert!(forward[0].source_identity < forward[1].source_identity);
}

#[test]
fn only_a_status_of_success_yields_a_document() {
    for code in [200, 204, 299] {
        assert!(fetched_status(code).is_ok());
    }
    for code in [100, 199, 300, 304, 404, 500, 999] {
        let failure = fetched_status(code).expect_err("no document");
        assert_eq!(failure.reason, JwtJwksFetchFailureReason::HttpStatus);
    }
    assert_eq!(
        fetched_status(503).expect_err("no document").to_text(),
        "http_status: jwks endpoint returned 503 Service Unavailable"
    );
}
