use base64::engine::general_purpose::URL_SAFE_NO_PAD;
use base64::Engine;
use hmac::Mac;
use impulse_edge::admission::jwks_cache::{JwtJwksCacheState, JwtJwksSharedCache};
use impulse_edge::admission::jwt::{
    jose_es256_signature_to_der, parse_compact_jwt, parse_jose_header, parse_jwt_claims,
    validate_jwt_algorithm_policy, JwtValidationFailureReason, SignatureRequest,
};
use impulse_edge::admission::jwt_claims::{
    jwt_claims_satisfy_rbac, jwt_string_claim_values, validate_jwt_registered_claims,
};
use impulse_edge::admission::jwt_validation::{
    finish_jwt_validation, log_jwt_validation_rejection, observe_jwt_validation_failure,
    validate_jwt_token, validated_hs256_jwt_claims, JwtValidationStep,
};
use impulse_edge::admission::key_resolution::{
    decode_jwk_bignum, ensure_p256_public_key, ensure_rsa_key_strength, jwk_components,
    parse_jwk_verification_key, parse_pem_verification_key, resolve_matching_asymmetric_key,
    static_key_metadata, JwkComponents, JwtKeyResolution, JwtVerificationKeySource, PublicKeyType,
};
use impulse_edge::number::count_bits;
use impulse_edge::config::{
    EcConstruction, EcFacts, JwkMaterial, JwksStartupBehavior, JwtAlgorithm, Nanos, PemMaterial,
    PublicKeyFacts, PublicKeyKind, RsaConstruction, RsaFacts, RuntimeAuthPolicy, RuntimeJwtAuth,
    RuntimeJwtVerificationKey, RuntimeUpstreamPolicy, WallTime, SECOND,
};

const NOW: WallTime = WallTime::SinceEpoch { secs: 1_700_000_000 };
const START: Nanos = 10_000 * SECOND;

fn jwt() -> RuntimeJwtAuth {
    RuntimeJwtAuth {
        secret: "jwt-secret".to_string(),
        issuer: None,
        issuers: vec!["issuer-1".to_string(), "issuer-2".to_string()],
        audience: Some("aud-1".to_string()),
        audiences: Vec::new(),
        clock_skew: 30 * SECOND,
        allowed_algorithms: vec![JwtAlgorithm::Hs256, JwtAlgorithm::Rs256, JwtAlgorithm::Es256],
        require_kid: false,
        static_keys: Vec::new(),
        jwks_url: None,
        jwks_refresh_interval: 60 * SECOND,
        jwks_request_timeout: SECOND,
        jwks_cache_ttl: 60 * SECOND,
        jwks_stale_if_error: 60 * SECOND,
        jwks_startup_behavior: JwksStartupBehavior::AllowDegraded,
    }
}

fn token(header: &str, claims: &str, signature: &[u8]) -> String {
    format!(
        "{}.{}.{}",
        URL_SAFE_NO_PAD.encode(header),
        URL_SAFE_NO_PAD.encode(claims),
        URL_SAFE_NO_PAD.encode(signature)
    )
}

fn hs256_token(secret: &str, claims: &str) -> String {
    let unsigned = token(r#"{"alg":"HS256"}"#, claims, b"");
    let input = unsigned.trim_end_matches('.');
    let mut mac = hmac::Hmac::<sha2::Sha256>::new_from_slice(secret.as_bytes()).expect("hmac");
    mac.update(input.as_bytes());
    format!("{input}.{}", URL_SAFE_NO_PAD.encode(mac.finalize().into_bytes()))
}

fn no_material() -> JwkMaterial {
    JwkMaterial {
        rsa: RsaConstruction::Rejected,
        ec: EcConstruction::CurveUnavailable,
    }
}

fn unreadable_pem() -> PemMaterial {
    PemMaterial {
        public_key: None,
        rsa: None,
        ec: None,
    }
}

const P256: EcFacts = EcFacts {
    valid: true,
    p256: true,
};

/// What the key library makes of a P-256 public key.
fn ec_pem() -> PemMaterial {
    PemMaterial {
        public_key: Some(PublicKeyFacts {
            kind: PublicKeyKind::Ec,
            rsa: RsaFacts { bits: None },
            ec: Some(P256),
        }),
        rsa: None,
        ec: Some(P256),
    }
}

fn ec_key(kid: Option<&str>) -> RuntimeJwtVerificationKey {
    RuntimeJwtVerificationKey::Pem {
        kid: kid.map(str::to_string),
        alg: Some(JwtAlgorithm::Es256),
        public_key_pem: "pem".to_string(),
        pem_material: ec_pem(),
    }
}

fn rejection(token: &str, jwt: &RuntimeJwtAuth) -> JwtValidationFailureReason {
    let mut cache = JwtJwksSharedCache::new();
    match validate_jwt_token(token, jwt, &mut cache, START, NOW).step {
        JwtValidationStep::Rejected(failure) => failure.reason,
        _ => panic!("the token is not in order"),
    }
}

#[test]
fn jose_header_parsing_maps_supported_algorithms_and_rejects_the_rest() {
    let parsed = parse_jose_header(br#"{"alg":"RS256","typ":"JWT","kid":"key-1"}"#)
        .expect("supported header");
    assert_eq!(parsed.algorithm, JwtAlgorithm::Rs256);
    assert_eq!(parsed.kid.as_deref(), Some("key-1"));

    let without_kid = parse_jose_header(br#"{"alg":"ES256"}"#).expect("header without kid");
    assert_eq!(without_kid.algorithm, JwtAlgorithm::Es256);
    assert_eq!(without_kid.kid, None);

    for header in [
        br#"{"alg":"none"}"#.as_slice(),
        br#"{"alg":"HS512"}"#.as_slice(),
    ] {
        assert_eq!(
            parse_jose_header(header)
                .expect_err("unsupported alg must be rejected")
                .reason,
            JwtValidationFailureReason::UnsupportedAlgorithm
        );
    }

    assert_eq!(
        parse_jose_header(br#"{"typ":"JWT"}"#)
            .expect_err("missing alg must be rejected")
            .reason,
        JwtValidationFailureReason::MissingAlgorithm
    );
    assert_eq!(
        parse_jose_header(b"not-json")
            .expect_err("malformed header must be rejected")
            .reason,
        JwtValidationFailureReason::MalformedHeader
    );
}

#[test]
fn static_key_parsing_reports_distinct_failures_for_pem_and_jwk_material() {
    // What the key library makes of "-----BEGIN PUBLIC KEY-----\nnope\n".
    assert_eq!(
        parse_pem_verification_key(&unreadable_pem(), JwtAlgorithm::Rs256)
            .expect_err("malformed pem must be rejected")
            .reason,
        JwtValidationFailureReason::PemKeyParseFailed
    );
    assert_eq!(
        parse_jwk_verification_key("{not json", &no_material(), JwtAlgorithm::Rs256)
            .expect_err("malformed jwk must be rejected")
            .reason,
        JwtValidationFailureReason::JwkKeyParseFailed
    );
    assert_eq!(
        parse_jwk_verification_key(
            r#"{"kty":"EC","crv":"P-256"}"#,
            &no_material(),
            JwtAlgorithm::Rs256
        )
        .expect_err("kty mismatch must be rejected")
        .reason,
        JwtValidationFailureReason::InvalidKeyType
    );

    assert_eq!(
        parse_pem_verification_key(&ec_pem(), JwtAlgorithm::Rs256)
            .expect_err("ec key must not satisfy rs256")
            .reason,
        JwtValidationFailureReason::InvalidKeyType
    );
    assert!(parse_pem_verification_key(&ec_pem(), JwtAlgorithm::Es256).is_ok());
}

#[test]
fn key_strength_and_curve_decide() {
    assert_eq!(
        ensure_rsa_key_strength(RsaFacts { bits: Some(2048) }).expect("2048 bits"),
        PublicKeyType::Rsa
    );
    for bits in [1024, 2040, 2041, 2047] {
        let weak = ensure_rsa_key_strength(RsaFacts { bits: Some(bits) });
        assert_eq!(weak.expect_err("weak").reason, JwtValidationFailureReason::KeyTooWeak);
    }
    let closed = ensure_rsa_key_strength(RsaFacts { bits: None });
    assert_eq!(closed.expect_err("closed").reason, JwtValidationFailureReason::InvalidKeyType);
    assert_eq!(ensure_p256_public_key(P256).expect("p256"), PublicKeyType::EcP256);
    let other = EcFacts {
        valid: true,
        p256: false,
    };
    assert_eq!(
        ensure_p256_public_key(other).expect_err("curve").reason,
        JwtValidationFailureReason::UnsupportedCurve
    );
}

#[test]
fn jwk_numbers_are_read_from_base64() {
    let jwk = r#"{"kty":"RSA","n":"AQID","e":"AQAB"}"#;
    assert!(matches!(
        jwk_components(jwk, JwtAlgorithm::Rs256),
        Ok(JwkComponents::Rsa { n, e }) if n == vec![1, 2, 3] && e == vec![1, 0, 1]
    ));
    assert_eq!(decode_jwk_bignum("_-8").expect("url alphabet"), vec![0xff, 0xef]);
    for broken in ["+/8", "AQ==", "A"] {
        assert_eq!(
            decode_jwk_bignum(broken).expect_err("broken").reason,
            JwtValidationFailureReason::JwkKeyParseFailed
        );
    }
    let curve = jwk_components(r#"{"kty":"EC","crv":"P-384"}"#, JwtAlgorithm::Es256);
    assert_eq!(
        curve.expect_err("curve").reason,
        JwtValidationFailureReason::UnsupportedCurve
    );
}

#[test]
fn es256_signature_becomes_two_minimal_der_integers() {
    let mut raw = vec![0u8; 64];
    raw[31] = 0x7f;
    raw[32] = 0x80;
    let mut expected = vec![0x30, 38, 0x02, 1, 0x7f, 0x02, 33, 0, 0x80];
    expected.extend_from_slice(&[0u8; 31]);
    assert_eq!(jose_es256_signature_to_der(&raw).expect("der"), expected);
    assert_eq!(
        jose_es256_signature_to_der(&[0u8; 64]).expect("zeros"),
        vec![0x30, 6, 0x02, 1, 0, 0x02, 1, 0]
    );
    for length in [0usize, 63, 65] {
        assert_eq!(
            jose_es256_signature_to_der(&vec![1u8; length])
                .expect_err("length")
                .reason,
            JwtValidationFailureReason::SignatureInvalid
        );
    }
}

#[test]
fn compact_token_has_three_parts_in_base64() {
    let parsed = parse_compact_jwt("eyJhIjoxfQ.e30.AAE").expect("three parts");
    assert_eq!(parsed.header_bytes, b"{\"a\":1}".to_vec());
    assert_eq!(parsed.payload_bytes, b"{}".to_vec());
    assert_eq!(parsed.signature, vec![0, 1]);
    let cases = [
        ("", JwtValidationFailureReason::MalformedToken),
        ("e30.e30", JwtValidationFailureReason::MalformedToken),
        ("e30.e30.AAE.e30", JwtValidationFailureReason::MalformedToken),
        ("*.e30.AAE", JwtValidationFailureReason::MalformedHeader),
        ("e30.*.AAE", JwtValidationFailureReason::MalformedClaims),
        ("e30.e30.*", JwtValidationFailureReason::MalformedToken),
    ];
    for (token, reason) in cases {
        assert_eq!(parse_compact_jwt(token).expect_err("malformed").reason, reason);
    }
}

#[test]
fn registered_claims_are_judged_with_the_clock_skew() {
    let judge = |claims: &str| {
        let claims = parse_jwt_claims(claims.as_bytes()).expect("claims");
        validate_jwt_registered_claims(&jwt(), &claims, NOW).map_err(|failure| failure.reason)
    };
    let cases = [
        (r#"{"iss":"issuer-2","aud":["x","aud-1"],"exp":1699999970}"#, None),
        (
            r#"{"iss":"issuer-2","aud":"aud-1","exp":1699999969}"#,
            Some(JwtValidationFailureReason::TokenExpired),
        ),
        (
            r#"{"iss":"issuer-2","aud":"aud-1"}"#,
            Some(JwtValidationFailureReason::MissingExpiration),
        ),
        (
            r#"{"iss":"issuer-2","aud":"aud-1","exp":4000000000,"nbf":1700000031}"#,
            Some(JwtValidationFailureReason::TokenNotYetValid),
        ),
        (
            r#"{"iss":"issuer-2","aud":"aud-1","exp":4000000000,"nbf":1700000030}"#,
            None,
        ),
        (
            r#"{"iss":"issuer-2","aud":"aud-1","exp":4000000000,"iat":1700000031}"#,
            Some(JwtValidationFailureReason::TokenIssuedInFuture),
        ),
        (
            r#"{"iss":"other","aud":"aud-1","exp":4000000000}"#,
            Some(JwtValidationFailureReason::IssuerMismatch),
        ),
        (
            r#"{"iss":"issuer-1","aud":["x"],"exp":4000000000}"#,
            Some(JwtValidationFailureReason::AudienceMismatch),
        ),
    ];
    for (claims, objection) in cases {
        assert_eq!(judge(claims).err(), objection);
    }
    let claims = parse_jwt_claims(br#"{"exp":4000000000}"#).expect("claims");
    assert_eq!(
        validate_jwt_registered_claims(&jwt(), &claims, WallTime::BeforeEpoch)
            .expect_err("clock")
            .reason,
        JwtValidationFailureReason::MalformedClaims
    );
    assert!(parse_jwt_claims(b"nothing").is_err());
}

#[test]
fn claim_values_come_from_words_and_lists() {
    let claims = parse_jwt_claims(br#"{"scope":"a b","scp":["c",7,"d"]}"#).expect("claims");
    let values = jwt_string_claim_values(&claims, "scope", "scp");
    for value in ["a", "b", "c", "d"] {
        assert!(values.contains(value));
    }
    assert!(!values.contains("a b"));
}

#[test]
fn shared_secret_token_is_validated_at_once() {
    let claims = r#"{"iss":"issuer-1","aud":"aud-1","exp":4000000000}"#;
    let signed = hs256_token("jwt-secret", claims);
    let mut cache = JwtJwksSharedCache::new();
    assert!(matches!(
        validate_jwt_token(&signed, &jwt(), &mut cache, START, NOW).step,
        JwtValidationStep::Validated(validated) if validated.algorithm == JwtAlgorithm::Hs256
    ));
    assert!(validated_hs256_jwt_claims(&signed, &jwt(), &mut cache, START, NOW).is_some());
    assert_eq!(
        rejection(&hs256_token("other-secret", claims), &jwt()),
        JwtValidationFailureReason::SignatureInvalid
    );
}

#[test]
fn tokens_are_refused_for_their_own_reasons() {
    let claims = r#"{"iss":"issuer-1","aud":"aud-1","exp":4000000000}"#;
    let mut only_hs256 = jwt();
    only_hs256.allowed_algorithms = vec![JwtAlgorithm::Hs256];
    let es256 = token(r#"{"alg":"ES256"}"#, claims, &[1; 64]);
    assert_eq!(
        rejection(&es256, &only_hs256),
        JwtValidationFailureReason::AlgorithmNotAllowed
    );
    assert!(validate_jwt_algorithm_policy(&only_hs256, JwtAlgorithm::Es256).is_err());
    let mut kid_required = jwt();
    kid_required.require_kid = true;
    kid_required.static_keys = vec![ec_key(Some("a"))];
    assert_eq!(rejection(&es256, &kid_required), JwtValidationFailureReason::MissingKid);
    assert_eq!(
        rejection(&es256, &jwt()),
        JwtValidationFailureReason::MissingVerificationKey
    );
    let other_kid = token(r#"{"alg":"ES256","kid":"b"}"#, claims, &[1; 64]);
    assert_eq!(
        rejection(&other_kid, &kid_required),
        JwtValidationFailureReason::MissingVerificationKey
    );
    let mut two_keys = jwt();
    two_keys.static_keys = vec![ec_key(None), ec_key(None)];
    assert_eq!(
        rejection(&es256, &two_keys),
        JwtValidationFailureReason::AmbiguousVerificationKey
    );
    let short = token(r#"{"alg":"ES256","kid":"a"}"#, claims, &[1; 63]);
    assert_eq!(
        rejection(&short, &kid_required),
        JwtValidationFailureReason::SignatureInvalid
    );
}

#[test]
fn signature_of_a_static_key_is_asked_for_over_the_digest() {
    let mut policy = jwt();
    policy.static_keys = vec![ec_key(Some("a"))];
    let claims = r#"{"iss":"issuer-1","aud":"aud-1","exp":4000000000}"#;
    let signed = token(r#"{"alg":"ES256","kid":"a"}"#, claims, &[1; 64]);
    let mut cache = JwtJwksSharedCache::new();
    let pending = match validate_jwt_token(&signed, &policy, &mut cache, START, NOW).step {
        JwtValidationStep::CheckSignature(pending) => pending,
        _ => panic!("a signature has to be checked"),
    };
    let input = &signed[..signed.rfind('.').expect("dot")];
    let digest: Vec<u8> = sha2::Digest::finalize(sha2::Digest::chain_update(
        <sha2::Sha256 as sha2::Digest>::new(),
        input.as_bytes(),
    ))
    .to_vec();
    assert!(matches!(
        &pending.request,
        SignatureRequest::Es256 { digest: asked, der_signature, .. }
            if *asked == digest && der_signature.len() == 70
    ));
    assert!(finish_jwt_validation(&pending, true, &policy, NOW).is_ok());
    assert_eq!(
        finish_jwt_validation(&pending, false, &policy, NOW)
            .err()
            .expect("refused")
            .reason,
        JwtValidationFailureReason::SignatureInvalid
    );
}

#[test]
fn keys_with_contradicting_metadata_are_refused() {
    let key = RuntimeJwtVerificationKey::Jwk {
        kid: None,
        alg: None,
        jwk: r#"{"kty":"RSA","kid":"a","alg":"RS256"}"#.to_string(),
        jwk_material: no_material(),
    };
    let metadata = static_key_metadata(&key).expect("metadata");
    assert_eq!(metadata.kid.as_deref(), Some("a"));
    assert_eq!(metadata.alg, Some(JwtAlgorithm::Rs256));
    let found = resolve_matching_asymmetric_key(
        &vec![ec_key(Some("a"))],
        JwtAlgorithm::Es256,
        Some("a"),
        JwtVerificationKeySource::StaticAsymmetricKeys,
        JwtJwksCacheState::Stale,
    );
    assert!(matches!(found, JwtKeyResolution::StaleButUsable(_)));
    let found = resolve_matching_asymmetric_key(
        &vec![ec_key(Some("a"))],
        JwtAlgorithm::Es256,
        Some("a"),
        JwtVerificationKeySource::StaticAsymmetricKeys,
        JwtJwksCacheState::Fresh,
    );
    assert!(matches!(found, JwtKeyResolution::Found(_)));
}

#[test]
fn rejections_are_observed_with_algorithm_and_source() {
    let mut policy = jwt();
    policy.jwks_url = Some("https://a.example/jwks?token=secret".to_string());
    let claims = r#"{"exp":4000000000}"#;
    let unknown = token(r#"{"alg":"RS256","kid":"b"}"#, claims, &[1; 256]);
    let mut cache = JwtJwksSharedCache::new();
    let failure = match validate_jwt_token(&unknown, &policy, &mut cache, START, NOW).step {
        JwtValidationStep::Rejected(failure) => failure,
        _ => panic!("no key is known"),
    };
    let note = log_jwt_validation_rejection(&policy, &unknown, &failure, &cache, START);
    assert_eq!(note.algorithm, "RS256");
    assert_eq!(note.kid, "b");
    assert_eq!(
        note.source.expect("source").endpoint,
        "https://a.example/jwks"
    );
    let observed = observe_jwt_validation_failure(&policy, &unknown, &failure);
    assert_eq!(observed.reason, failure.reason.as_str());
    assert_eq!(observed.failure, failure);
}

#[test]
fn expired_token_stays_expired() {
    let claims =
        parse_jwt_claims(br#"{"iss":"issuer-1","aud":"aud-1","exp":1000}"#).expect("claims");
    for secs in [1031, 1032, 4_000_000_000, u64::MAX] {
        let objection = validate_jwt_registered_claims(
            &jwt(),
            &claims,
            WallTime::SinceEpoch { secs },
        );
        assert_eq!(
            objection.expect_err("expired").reason,
            JwtValidationFailureReason::TokenExpired
        );
    }
    assert!(
        validate_jwt_registered_claims(&jwt(), &claims, WallTime::SinceEpoch { secs: 1030 })
            .is_ok()
    );
}

#[test]
fn policy_that_requires_nothing_is_satisfied() {
    let policy = |scopes: Vec<String>| RuntimeUpstreamPolicy {
        upstream_auth: RuntimeAuthPolicy {
            api_key: None,
            jwt: Some(jwt()),
            required_scopes: scopes,
            required_roles: Vec::new(),
        },
    };
    let claims = parse_jwt_claims(b"{}").expect("claims");
    assert!(jwt_claims_satisfy_rbac(&policy(Vec::new()), &claims));
    assert!(!jwt_claims_satisfy_rbac(&policy(vec!["a".to_string()]), &claims));
}

/// An RSA key in JSON whose modulus begins with some bytes and has some zero bytes behind them.
fn rsa_jwk(head: &[u8], zeros: usize) -> String {
    let mut n = head.to_vec();
    n.resize(head.len() + zeros, 0);
    format!(
        "{{\"kty\":\"RSA\",\"n\":\"{}\",\"e\":\"AQAB\"}}",
        URL_SAFE_NO_PAD.encode(n)
    )
}

#[test]
fn strength_of_a_jwk_is_that_of_its_own_modulus() {
    let judge = |jwk: &str, rsa: RsaConstruction| {
        let material = JwkMaterial {
            rsa,
            ec: EcConstruction::Rejected,
        };
        parse_jwk_verification_key(jwk, &material, JwtAlgorithm::Rs256)
            .map_err(|failure| failure.reason)
    };
    let built = RsaConstruction::Built { readable: true };
    for strong in [rsa_jwk(&[0x80], 255), rsa_jwk(&[0, 0, 0xff], 255), rsa_jwk(&[1], 256)] {
        assert_eq!(judge(&strong, built), Ok(PublicKeyType::Rsa));
    }
    for weak in [rsa_jwk(&[0x7f], 255), rsa_jwk(&[1], 255), rsa_jwk(&[0; 300], 0)] {
        assert_eq!(judge(&weak, built), Err(JwtValidationFailureReason::KeyTooWeak));
    }
    let strong = rsa_jwk(&[0x80], 255);
    assert_eq!(
        judge(&strong, RsaConstruction::Rejected),
        Err(JwtValidationFailureReason::JwkKeyParseFailed)
    );
    assert_eq!(
        judge(&strong, RsaConstruction::Built { readable: false }),
        Err(JwtValidationFailureReason::InvalidKeyType)
    );
}

#[test]
fn bits_of_a_number_are_counted_from_its_first_digit() {
    let cases: [(&[u8], u32); 8] = [
        (&[], 0),
        (&[0, 0], 0),
        (&[1], 1),
        (&[0x7f], 7),
        (&[0x80], 8),
        (&[0, 1, 0], 9),
        (&[0xff, 0xff], 16),
        (&[3, 0, 0], 18),
    ];
    for (bytes, bits) in cases {
        assert_eq!(count_bits(bytes), bits);
    }
}

#[test]
fn base64_with_set_unused_bits_or_a_lone_digit_is_refused() {
    assert_eq!(decode_jwk_bignum("").expect("empty"), Vec::<u8>::new());
    assert_eq!(
        decode_jwk_bignum("-_Az09AB").expect("digits"),
        vec![0xfb, 0xf0, 0x33, 0xd3, 0xd0, 0x01]
    );
    for refused in ["AB", "AAB", "AAAAA", "AA=", "A A", "\u{e9}A"] {
        assert!(decode_jwk_bignum(refused).is_err());
    }
}
