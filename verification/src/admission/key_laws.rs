//! Which key a token is verified with, whatever the sources hold.
use crate::admission::jwks_cache::{
    bare_keys, live_keys, snapshot_of, EntryView, JwtJwksCacheState,
};
use crate::admission::jwks_refresh::JwtJwksFetchFailureReason;
use crate::admission::jwks_source::{cooldown_of, merged_source, source_of, SourceView};
use crate::admission::jwt::JwtValidationFailureReason;
use crate::admission::jwt_validation::resolved_key;
use crate::admission::key_resolution::{
    algorithm_named, jwk_document, key_verdict, matching_key, selected, selects,
    KeySourceView, KeyView, PublicKeyType, ResolutionView,
};
use crate::admission::key_resolver::{combined, lookup, remote_lookup};
use crate::config::{
    EcConstruction, JwtAlgorithm, Nanos, PublicKeyKind, RsaConstruction, RuntimeJwtAuth,
    RuntimeJwtVerificationKey, WallTime, SECOND,
};
use crate::crypto::base64url_bytes;
use crate::number::bit_length;
use crate::text::opt;
use vstd::prelude::*;

verus! {

/// Where neither of two sources is badly configured, the key that exactly one of them holds is the
/// key that is found, whichever of the two it is and whether it is fresh or stale. Where both hold
/// one, the choice is refused; where neither does, none is found, and a source that could not be
/// read is told from one that lacks the key.
pub proof fn law_the_one_source_with_a_key_decides(fixed: ResolutionView, remote: ResolutionView)
    requires
        !(fixed is ConfigurationInvalid),
        !(remote is ConfigurationInvalid),
    ensures
        ({
            let whole = combined(Some(fixed), Some(remote));
            let a = fixed is Found || fixed is StaleButUsable;
            let b = remote is Found || remote is StaleButUsable;
            &&& a && !b ==> whole == fixed
            &&& b && !a ==> whole == remote
            &&& a && b ==> (whole matches ResolutionView::ConfigurationInvalid { reason, .. }
                && reason == JwtValidationFailureReason::AmbiguousVerificationKey)
            &&& !a && !b ==> whole == if fixed is SourceUnavailable && !(remote
                is SourceUnavailable) {
                fixed
            } else {
                remote
            }
            &&& !a && !b ==> (whole is SourceUnavailable <==> fixed is SourceUnavailable
                || remote is SourceUnavailable)
        }),
        forall|key: KeyView|
            resolved_key(combined(Some(fixed), Some(remote))) == Ok::<
                KeyView,
                JwtValidationFailureReason,
            >(key) <==> {
                ||| #[trigger] resolved_key_is(fixed, key) && !(resolved_key(remote) is Ok)
                ||| resolved_key_is(remote, key) && !(resolved_key(fixed) is Ok)
            },
{
}

/// The resolution gives this key, fresh or stale.
pub open spec fn resolved_key_is(resolution: ResolutionView, key: KeyView) -> bool {
    match resolution {
        ResolutionView::Found { key: found, .. } => found == key,
        ResolutionView::StaleButUsable { key: found, .. } => found == key,
        _ => false,
    }
}

/// A badly configured source stops the search, the static keys before the remote ones; a source
/// that stands alone decides alone.
pub proof fn law_a_bad_source_stops_the_search(fixed: ResolutionView, remote: ResolutionView)
    ensures
        fixed is ConfigurationInvalid ==> combined(Some(fixed), Some(remote)) == fixed,
        !(fixed is ConfigurationInvalid) && remote is ConfigurationInvalid ==> combined(
            Some(fixed),
            Some(remote),
        ) == remote,
        combined(Some(fixed), None) == fixed,
        combined(None, Some(remote)) == remote,
        combined(None, None) is KeyNotFound,
{
}

/// A token is verified with the key that was found, and rejected for what kept a key from being
/// found.
pub proof fn law_the_found_key_is_used(
    source: KeySourceView,
    key: KeyView,
    reason: JwtValidationFailureReason,
)
    ensures
        resolved_key(ResolutionView::Found { source, key }) == Ok::<
            KeyView,
            JwtValidationFailureReason,
        >(key),
        resolved_key(ResolutionView::StaleButUsable { source, key }) == Ok::<
            KeyView,
            JwtValidationFailureReason,
        >(key),
        resolved_key(ResolutionView::ConfigurationInvalid { source, reason }) == Err::<
            KeyView,
            JwtValidationFailureReason,
        >(reason),
        resolved_key(ResolutionView::KeyNotFound { source }) == Err::<
            KeyView,
            JwtValidationFailureReason,
        >(JwtValidationFailureReason::MissingVerificationKey),
        resolved_key(ResolutionView::SourceUnavailable { source }) == Err::<
            KeyView,
            JwtValidationFailureReason,
        >(JwtValidationFailureReason::KeySourceUnavailable),
{
}

/// The key id that a key goes by: the configured one, else the one in its document.
pub open spec fn goes_by(key: RuntimeJwtVerificationKey) -> Option<Seq<char>> {
    match key {
        RuntimeJwtVerificationKey::Pem { kid, .. } => opt(kid),
        RuntimeJwtVerificationKey::Jwk { kid: Some(kid), .. } => Some(kid@),
        RuntimeJwtVerificationKey::Jwk { kid: None, jwk, .. } => match jwk_document(jwk@) {
            Some(document) => document.get_str("kid"@),
            None => None,
        },
    }
}

/// The algorithm that a key is meant for: the configured one, else the one in its document.
pub open spec fn meant_for(key: RuntimeJwtVerificationKey) -> Option<JwtAlgorithm> {
    match key {
        RuntimeJwtVerificationKey::Pem { alg, .. } => alg,
        RuntimeJwtVerificationKey::Jwk { alg: Some(alg), .. } => Some(alg),
        RuntimeJwtVerificationKey::Jwk { alg: None, jwk, .. } => match jwk_document(jwk@) {
            Some(document) => match document.get_str("alg"@) {
                Some(name) => algorithm_named(name),
                None => None,
            },
            None => None,
        },
    }
}

/// A key whose document can be read, names a known algorithm where it names one, and agrees with
/// the configured key id and algorithm where both speak.
pub open spec fn in_agreement(key: RuntimeJwtVerificationKey) -> bool {
    match key {
        RuntimeJwtVerificationKey::Pem { .. } => true,
        RuntimeJwtVerificationKey::Jwk { kid, alg, jwk, .. } => jwk_document(jwk@) matches Some(
            document,
        ) && {
            &&& kid matches Some(kid) ==> (document.get_str("kid"@) matches Some(other) ==> other
                == kid@)
            &&& document.get_str("alg"@) matches Some(name) ==> (algorithm_named(name) matches Some(
                named,
            ) && (alg matches Some(alg) ==> alg == named))
        },
    }
}

/// A key that may verify a token with this algorithm and this key id.
pub open spec fn fits(
    key: RuntimeJwtVerificationKey,
    algorithm: JwtAlgorithm,
    kid: Option<Seq<char>>,
) -> bool {
    &&& in_agreement(key)
    &&& kid is Some ==> goes_by(key) == kid
    &&& meant_for(key) is Some ==> meant_for(key) == Some(algorithm)
}

proof fn lemma_fitting_keys_are_selected(
    key: RuntimeJwtVerificationKey,
    algorithm: JwtAlgorithm,
    kid: Option<Seq<char>>,
)
    ensures
        selects(key, algorithm, kid) == fits(key, algorithm, kid),
        crate::admission::key_resolution::key_metadata(key) is Some == in_agreement(key),
{
}

proof fn lemma_selected(
    keys: Seq<RuntimeJwtVerificationKey>,
    algorithm: JwtAlgorithm,
    kid: Option<Seq<char>>,
    i: int,
)
    requires
        0 <= i < keys.len(),
        selects(keys[i], algorithm, kid),
    ensures
        selected(keys, algorithm, kid).len() >= 1,
        (forall|j: int| 0 <= j < keys.len() && j != i ==> !selects(#[trigger] keys[j], algorithm, kid))
            ==> selected(keys, algorithm, kid) == seq![keys[i]],
        forall|j: int|
            0 <= j < keys.len() && j != i && selects(#[trigger] keys[j], algorithm, kid) ==> selected(
                keys,
                algorithm,
                kid,
            ).len() >= 2,
    decreases keys.len(),
{
    let before = keys.drop_last();
    let last = keys.len() - 1;
    if i < last {
        assert(before[i] == keys[i]);
        lemma_selected(before, algorithm, kid, i);
        if forall|j: int|
            0 <= j < keys.len() && j != i ==> !selects(#[trigger] keys[j], algorithm, kid) {
            assert(!selects(keys[last], algorithm, kid));
            assert forall|j: int| 0 <= j < before.len() && j != i implies !selects(
                #[trigger] before[j],
                algorithm,
                kid,
            ) by {
                assert(before[j] == keys[j]);
            }
        }
        assert forall|j: int|
            0 <= j < keys.len() && j != i && selects(
                #[trigger] keys[j],
                algorithm,
                kid,
            ) implies selected(keys, algorithm, kid).len() >= 2 by {
            if j < last {
                assert(before[j] == keys[j]);
            }
        }
    } else {
        if forall|j: int|
            0 <= j < keys.len() && j != i ==> !selects(#[trigger] keys[j], algorithm, kid) {
            assert forall|j: int| 0 <= j < before.len() implies !selects(
                #[trigger] before[j],
                algorithm,
                kid,
            ) by {
                assert(before[j] == keys[j]);
            }
            lemma_none_selected(before, algorithm, kid);
            assert(selected(keys, algorithm, kid) =~= seq![keys[i]]);
        }
        assert forall|j: int|
            0 <= j < keys.len() && j != i && selects(
                #[trigger] keys[j],
                algorithm,
                kid,
            ) implies selected(keys, algorithm, kid).len() >= 2 by {
            assert(before[j] == keys[j]);
            lemma_selected(before, algorithm, kid, j);
        }
    }
}

proof fn lemma_none_selected(
    keys: Seq<RuntimeJwtVerificationKey>,
    algorithm: JwtAlgorithm,
    kid: Option<Seq<char>>,
)
    requires
        forall|j: int| 0 <= j < keys.len() ==> !selects(#[trigger] keys[j], algorithm, kid),
    ensures
        selected(keys, algorithm, kid) == Seq::<RuntimeJwtVerificationKey>::empty(),
    decreases keys.len(),
{
    if keys.len() > 0 {
        let before = keys.drop_last();
        assert forall|j: int| 0 <= j < before.len() implies !selects(
            #[trigger] before[j],
            algorithm,
            kid,
        ) by {
            assert(before[j] == keys[j]);
        }
        lemma_none_selected(before, algorithm, kid);
        assert(!selects(keys[keys.len() - 1], algorithm, kid));
    }
}

/// The one key of a set that fits is found, wherever it stands in the set, if it is sound: fresh
/// while the set is, and as a stale one while the set is kept past its time.
pub proof fn law_the_one_fitting_key_is_found(
    keys: Seq<RuntimeJwtVerificationKey>,
    algorithm: JwtAlgorithm,
    kid: Option<Seq<char>>,
    source: KeySourceView,
    state: JwtJwksCacheState,
    i: int,
)
    requires
        0 <= i < keys.len(),
        fits(keys[i], algorithm, kid),
        forall|j: int| 0 <= j < keys.len() ==> in_agreement(#[trigger] keys[j]),
        forall|j: int| 0 <= j < keys.len() && j != i ==> !fits(#[trigger] keys[j], algorithm, kid),
        state != JwtJwksCacheState::NeverFetched,
        state != JwtJwksCacheState::EmptyUnusable,
    ensures
        match key_verdict(keys[i], algorithm) {
            Ok(_) => {
                let key = if algorithm == JwtAlgorithm::Rs256 {
                    KeyView::Rsa(keys[i])
                } else {
                    KeyView::EcP256(keys[i])
                };
                matching_key(keys, algorithm, kid, source, state) == if state
                    == JwtJwksCacheState::Fresh {
                    ResolutionView::Found { source, key }
                } else {
                    ResolutionView::StaleButUsable { source, key }
                }
            },
            Err(reason) => matching_key(keys, algorithm, kid, source, state)
                == (ResolutionView::ConfigurationInvalid { source, reason }),
        },
{
    assert forall|j: int| 0 <= j < keys.len() implies selects(#[trigger] keys[j], algorithm, kid)
        == fits(keys[j], algorithm, kid) && crate::admission::key_resolution::key_metadata(keys[j])
        is Some == in_agreement(keys[j]) by {
        lemma_fitting_keys_are_selected(keys[j], algorithm, kid);
    }
    lemma_selected(keys, algorithm, kid, i);
}

/// A set in which no key fits has no key for the token; one in which two fit is refused, as is one
/// with a key that contradicts itself.
pub proof fn law_no_key_or_two_give_none(
    keys: Seq<RuntimeJwtVerificationKey>,
    algorithm: JwtAlgorithm,
    kid: Option<Seq<char>>,
    source: KeySourceView,
    state: JwtJwksCacheState,
    i: int,
    j: int,
)
    ensures
        (forall|k: int| 0 <= k < keys.len() ==> in_agreement(#[trigger] keys[k])) && (forall|k: int|
            0 <= k < keys.len() ==> !fits(#[trigger] keys[k], algorithm, kid)) ==> matching_key(
            keys,
            algorithm,
            kid,
            source,
            state,
        ) == (ResolutionView::KeyNotFound { source }),
        (forall|k: int| 0 <= k < keys.len() ==> in_agreement(#[trigger] keys[k])) && 0 <= i < j
            < keys.len() && fits(keys[i], algorithm, kid) && fits(keys[j], algorithm, kid)
            ==> matching_key(keys, algorithm, kid, source, state) == (
        ResolutionView::ConfigurationInvalid {
            source,
            reason: JwtValidationFailureReason::AmbiguousVerificationKey,
        }),
        0 <= i < keys.len() && !in_agreement(keys[i]) ==> matching_key(
            keys,
            algorithm,
            kid,
            source,
            state,
        ) == (ResolutionView::ConfigurationInvalid {
            source,
            reason: JwtValidationFailureReason::JwkKeyParseFailed,
        }),
{
    assert forall|k: int| 0 <= k < keys.len() implies selects(#[trigger] keys[k], algorithm, kid)
        == fits(keys[k], algorithm, kid) && crate::admission::key_resolution::key_metadata(keys[k])
        is Some == in_agreement(keys[k]) by {
        lemma_fitting_keys_are_selected(keys[k], algorithm, kid);
    }
    if forall|k: int| 0 <= k < keys.len() ==> !fits(#[trigger] keys[k], algorithm, kid) {
        lemma_none_selected(keys, algorithm, kid);
    }
    if 0 <= i < j < keys.len() && fits(keys[i], algorithm, kid) && fits(keys[j], algorithm, kid) {
        lemma_selected(keys, algorithm, kid, i);
        assert(selects(keys[j], algorithm, kid));
    }
    if 0 <= i < keys.len() && !in_agreement(keys[i]) {
        assert(crate::admission::key_resolution::key_metadata(keys[i]) is None);
    }
}

/// A key in PEM form verifies RS256 exactly where it is an RSA key of two thousand and forty-eight
/// bits or more, and ES256 exactly where it is a valid key on P-256. A shorter RSA key is too weak,
/// and a text that is no key at all cannot be read.
pub proof fn law_sound_pem_keys_verify(key: RuntimeJwtVerificationKey)
    requires
        key is Pem,
    ensures
        key matches RuntimeJwtVerificationKey::Pem { pem_material, .. } && {
            let rsa = match pem_material.public_key {
                Some(any) if any.kind == PublicKeyKind::Rsa || any.kind == PublicKeyKind::RsaPss
                    => Some(any.rsa),
                Some(_) => None,
                None => pem_material.rsa,
            };
            let ec = match pem_material.public_key {
                Some(any) if any.kind == PublicKeyKind::Ec => any.ec,
                Some(_) => None,
                None => pem_material.ec,
            };
            &&& key_verdict(key, JwtAlgorithm::Hs256) is Err
            &&& key_verdict(key, JwtAlgorithm::Rs256) is Ok <==> (rsa matches Some(rsa)
                && rsa.bits matches Some(bits) && bits >= 2048)
            &&& key_verdict(key, JwtAlgorithm::Rs256) == Err::<
                PublicKeyType,
                JwtValidationFailureReason,
            >(JwtValidationFailureReason::KeyTooWeak) <==> (rsa matches Some(rsa)
                && rsa.bits matches Some(bits) && bits < 2048)
            &&& key_verdict(key, JwtAlgorithm::Es256) is Ok <==> (ec matches Some(ec) && ec.valid
                && ec.p256)
            &&& key_verdict(key, JwtAlgorithm::Es256) == Err::<
                PublicKeyType,
                JwtValidationFailureReason,
            >(JwtValidationFailureReason::UnsupportedCurve) <==> (ec matches Some(ec) && ec.valid
                && !ec.p256)
            &&& pem_material.public_key is None && pem_material.rsa is None ==> key_verdict(
                key,
                JwtAlgorithm::Rs256,
            ) == Err::<PublicKeyType, JwtValidationFailureReason>(
                JwtValidationFailureReason::PemKeyParseFailed,
            )
            &&& pem_material.public_key is None && pem_material.ec is None ==> key_verdict(
                key,
                JwtAlgorithm::Es256,
            ) == Err::<PublicKeyType, JwtValidationFailureReason>(
                JwtValidationFailureReason::PemKeyParseFailed,
            )
        },
{
}

/// A key in JWK form verifies RS256 exactly where its document describes an RSA key of two thousand
/// and forty-eight bits or more that the key library builds and reads, and ES256 exactly where it
/// describes a valid key on P-256. A shorter RSA key is too weak.
pub proof fn law_sound_jwk_keys_verify(key: RuntimeJwtVerificationKey)
    requires
        key is Jwk,
    ensures
        key_verdict(key, JwtAlgorithm::Hs256) is Err,
        key matches RuntimeJwtVerificationKey::Jwk { jwk, jwk_material, .. } && match jwk_document(
            jwk@,
        ) {
            None => key_verdict(key, JwtAlgorithm::Rs256) is Err && key_verdict(
                key,
                JwtAlgorithm::Es256,
            ) is Err,
            Some(document) => {
                let named = |name: Seq<char>|
                    match document.get_str(name) {
                        Some(text) => base64url_bytes(text),
                        None => None,
                    };
                let built = jwk_material.rsa == (RsaConstruction::Built { readable: true });
                let rsa = document.get_str("kty"@) == Some("RSA"@) && named("n"@) is Some && named(
                    "e"@,
                ) is Some;
                let ec = document.get_str("kty"@) == Some("EC"@) && document.get_str("crv"@)
                    == Some("P-256"@) && named("x"@) is Some && named("y"@) is Some;
                &&& key_verdict(key, JwtAlgorithm::Rs256) is Ok <==> rsa && built && bit_length(
                    named("n"@)->0,
                ) >= 2048
                &&& key_verdict(key, JwtAlgorithm::Rs256) == Err::<
                    PublicKeyType,
                    JwtValidationFailureReason,
                >(JwtValidationFailureReason::KeyTooWeak) <==> rsa && built && bit_length(
                    named("n"@)->0,
                ) < 2048
                &&& key_verdict(key, JwtAlgorithm::Es256) is Ok <==> ec && (jwk_material.ec matches
                EcConstruction::Built(facts) && facts.valid && facts.p256)
            },
        },
{
}

/// The shared secret is the key of HS256 and of nothing else, and an empty one is no key. A policy
/// that requires a key id refuses a token without one before it looks for a key, and leaves the
/// cache as it was.
pub proof fn law_the_shared_secret_is_for_hs256(
    jwt: RuntimeJwtAuth,
    algorithm: JwtAlgorithm,
    kid: Option<Seq<char>>,
    cache: Map<Seq<char>, EntryView>,
    now: Nanos,
    wall: WallTime,
)
    ensures
        ({
            let found = lookup(jwt, algorithm, kid, cache, now, wall);
            let refused = jwt.require_kid && kid is None;
            &&& refused ==> found.cache == cache && found.refresh is None && resolved_key(
                found.resolution,
            ) == Err::<KeyView, JwtValidationFailureReason>(JwtValidationFailureReason::MissingKid)
            &&& !refused && algorithm == JwtAlgorithm::Hs256 ==> found.cache == cache
                && found.refresh is None && resolved_key(found.resolution) == if jwt.secret@.len()
                > 0 {
                Ok::<KeyView, JwtValidationFailureReason>(KeyView::Secret(jwt.secret@))
            } else {
                Err(JwtValidationFailureReason::MissingVerificationKey)
            }
            &&& algorithm != JwtAlgorithm::Hs256 ==> !(resolved_key(found.resolution) matches Ok(key)
                && key is Secret)
        }),
{
}

/// A key that only the remote source holds is found, whether or not there are static keys, and so
/// is a key that only the static keys hold; and a key is found only where exactly one of the two
/// has it. Static keys that are badly configured keep the remote source out of it.
pub proof fn law_both_sources_are_searched(
    jwt: RuntimeJwtAuth,
    algorithm: JwtAlgorithm,
    kid: Option<Seq<char>>,
    cache: Map<Seq<char>, EntryView>,
    now: Nanos,
    wall: WallTime,
)
    requires
        algorithm != JwtAlgorithm::Hs256,
        kid is Some || !jwt.require_kid,
    ensures
        ({
            let found = lookup(jwt, algorithm, kid, cache, now, wall);
            let fixed = matching_key(
                jwt.static_keys@,
                algorithm,
                kid,
                KeySourceView::StaticAsymmetricKeys,
                JwtJwksCacheState::Fresh,
            );
            let configured = jwt.static_keys@.len() > 0;
            match source_of(jwt) {
                None => {
                    &&& found.cache == cache && found.refresh is None
                    &&& configured ==> found.resolution == fixed
                    &&& !configured ==> found.resolution is KeyNotFound
                },
                Some(source) => {
                    let remote = remote_lookup(cache, source, algorithm, kid, now, wall);
                    if configured && fixed is ConfigurationInvalid {
                        found.resolution == fixed && found.cache == cache && found.refresh is None
                    } else {
                        &&& found.cache == remote.cache && found.refresh == remote.refresh
                        &&& !configured ==> found.resolution == remote.resolution
                        &&& remote.resolution is ConfigurationInvalid ==> found.resolution
                            == remote.resolution
                        &&& configured && !(remote.resolution is ConfigurationInvalid) ==> forall|
                            key: KeyView,
                        |
                            resolved_key_is(found.resolution, key) <==> {
                                ||| resolved_key_is(fixed, key) && !(resolved_key(remote.resolution)
                                    is Ok)
                                ||| #[trigger] resolved_key_is(remote.resolution, key)
                                    && !(resolved_key(fixed) is Ok)
                            }
                    }
                },
            }
        }),
{
}

/// A remote source is searched by the keys that the cache still keeps of it. A source that was
/// never fetched is unavailable; where the keys at hand lack the key id that a token names, the
/// source is to be fetched, unless that is under way already or was asked for too recently.
pub proof fn law_remote_keys_are_searched(
    cache: Map<Seq<char>, EntryView>,
    source: SourceView,
    algorithm: JwtAlgorithm,
    kid: Option<Seq<char>>,
    now: Nanos,
    wall: WallTime,
)
    requires
        cache.contains_key(source.source_identity)
            ==> cache[source.source_identity].source.source_identity == source.source_identity,
        now + 30 * SECOND <= Nanos::MAX,
    ensures
        ({
            let id = source.source_identity;
            let found = remote_lookup(cache, source, algorithm, kid, now, wall);
            let from = KeySourceView::RemoteJwks { source_identity: id };
            &&& !cache.contains_key(id) ==> found.resolution == (
            ResolutionView::SourceUnavailable { source: from }) && found.refresh is None
            &&& found.cache.contains_key(id)
            &&& forall|other: Seq<char>|
                other != id ==> (#[trigger] found.cache.contains_key(other) == cache.contains_key(
                    other,
                )) && (cache.contains_key(other) ==> found.cache[other] == cache[other])
            &&& cache.contains_key(id) ==> {
                let entry = EntryView {
                    source: merged_source(cache[id].source, source),
                    ..cache[id]
                };
                let seen = snapshot_of(entry, now);
                let at_hand = bare_keys(live_keys(cache[id].active_keys, now));
                let held = matching_key(at_hand, algorithm, kid, from, seen.state);
                let usable = seen.state != JwtJwksCacheState::NeverFetched && seen.state
                    != JwtJwksCacheState::EmptyUnusable;
                let due = !cache[id].refresh_in_flight && match cache[id].next_on_demand_refresh_at {
                    Some(next) => next <= now,
                    None => true,
                };
                &&& usable ==> found.resolution == held
                &&& !usable ==> !(resolved_key(found.resolution) is Ok)
                &&& !usable ==> (found.resolution is ConfigurationInvalid <==> seen.state
                    == JwtJwksCacheState::EmptyUnusable && (cache[id].last_failure_reason == Some(
                    JwtJwksFetchFailureReason::MalformedDocument,
                ) || cache[id].last_failure_reason == Some(
                    JwtJwksFetchFailureReason::AmbiguousDuplicateKid,
                )))
                &&& !usable && !(found.resolution is ConfigurationInvalid) ==> found.resolution == (
                ResolutionView::SourceUnavailable { source: from })
                &&& !usable && found.resolution is ConfigurationInvalid ==> found.resolution == (
                ResolutionView::ConfigurationInvalid {
                    source: from,
                    reason: JwtValidationFailureReason::JwkKeyParseFailed,
                })
                &&& found.refresh == if usable && held is KeyNotFound && kid is Some && due {
                    Some(entry.source)
                } else {
                    None
                }
                &&& found.cache[id].active_keys == cache[id].active_keys
                &&& found.refresh is Some ==> found.cache[id].refresh_in_flight && (
                found.cache[id].next_on_demand_refresh_at matches Some(next) && now + 5 * SECOND
                    <= next <= now + 30 * SECOND && next == now + cooldown_of(
                    entry.source.refresh_interval,
                )) && found.cache[id].last_refresh_started_at == Some(now)
                &&& found.refresh is None ==> found.cache[id] == entry
            }
        }),
{
}

/// Where static keys and a remote source both hold a key for a token, the static keys are blamed
/// while the remote ones are fresh, and the remote source where its keys are stale.
pub proof fn law_an_ambiguous_key_has_a_source(
    key: KeyView,
    other: KeyView,
    source_identity: Seq<char>,
)
    ensures
        ({
            let fixed = ResolutionView::Found { source: KeySourceView::StaticAsymmetricKeys, key };
            let remote = KeySourceView::RemoteJwks { source_identity };
            let reason = JwtValidationFailureReason::AmbiguousVerificationKey;
            &&& combined(
                Some(fixed),
                Some(ResolutionView::Found { source: remote, key: other }),
            ) == (ResolutionView::ConfigurationInvalid {
                source: KeySourceView::StaticAsymmetricKeys,
                reason,
            })
            &&& combined(
                Some(fixed),
                Some(ResolutionView::StaleButUsable { source: remote, key: other }),
            ) == (ResolutionView::ConfigurationInvalid { source: remote, reason })
        }),
{
}

/// A token without the key id that a policy requires is held against the source that its key would
/// have come from: the shared secret for HS256, else the remote source where there is one, else the
/// static keys.
pub proof fn law_a_missing_kid_has_a_source(
    jwt: RuntimeJwtAuth,
    algorithm: JwtAlgorithm,
    cache: Map<Seq<char>, EntryView>,
    now: Nanos,
    wall: WallTime,
)
    requires
        jwt.require_kid,
    ensures
        lookup(jwt, algorithm, None, cache, now, wall).resolution == (
        ResolutionView::ConfigurationInvalid {
            source: if algorithm == JwtAlgorithm::Hs256 {
                KeySourceView::StaticSecret
            } else if jwt.jwks_url is Some {
                KeySourceView::RemoteJwks {
                    source_identity: crate::admission::jwks_source::identity_of(
                        jwt.jwks_url->0@,
                    ),
                }
            } else {
                KeySourceView::StaticAsymmetricKeys
            },
            reason: JwtValidationFailureReason::MissingKid,
        }),
{
}

} // verus!
