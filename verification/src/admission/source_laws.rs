//! What the policies on a key source come to, and what a fetch makes of it.
use crate::admission::jwks_cache::{
    all_registered, as_active, by_identity, live_keys, refresh_failed, refresh_started,
    refresh_succeeded, replaces, stale_limit, state_at, state_label, usable, with_retained,
    EntryView, JwtJwksActiveKey, JwtJwksCacheState, SnapshotView,
};
use crate::admission::jwks_refresh::{
    accepted, are_jwks, first_duplicate, is_jwk, kids, listed_keys, normalized_key, FetchedJwk,
    JwkFields, JwtJwksFetchFailure,
};
use crate::admission::jwks_report::report_of;
use crate::admission::jwks_source::{
    asymmetric, by_name, cooldown_of, ends_path, endpoint_of, identity_of, lists, merged_source,
    merged_sources, only, ordered, policy_sources, source_of, with_missing, JwtJwksSourceConfig,
    SourceView,
};
use crate::admission::jwt::{algorithm_label, HeaderView, JwtValidationFailureReason};
use crate::admission::jwt_validation::rejection_note;
use crate::admission::key_laws::goes_by;
use crate::admission::key_resolution::{jwk_document, jwk_verdict, key_kid};
use crate::admission::laws::law_algorithms_are_known_by_name;
use crate::admission::refresh_outcome::{
    cache_after_fetch, failure_report, replacement_report, NoteView,
};
use crate::admission::startup::{known_to, preflight_objection, required};
use crate::config::{
    JwksStartupBehavior, JwkMaterial, JwtAlgorithm, Nanos, RuntimeJwtAuth,
    RuntimeJwtVerificationKey, RuntimeUpstream, WallTime, LONGEST, SECOND,
};
use crate::crypto::{hex_text, sha256_digest};
use crate::json::{json_document, FieldView, JsonView};
use crate::text::{lemma_lex_total, lemma_span_is, opt};
use vstd::prelude::*;

verus! {

/// The source of a policy has the policy's address and settings, goes by a digest of its address,
/// and accepts exactly the policy's public-key algorithms; a policy without an address has none.
pub proof fn law_a_source_is_its_policys(jwt: RuntimeJwtAuth, other: RuntimeJwtAuth)
    ensures
        source_of(jwt) is Some <==> jwt.jwks_url is Some,
        source_of(jwt) matches Some(source) ==> {
            &&& source.jwks_url == jwt.jwks_url->0@
            &&& source.refresh_interval == jwt.jwks_refresh_interval
            &&& source.request_timeout == jwt.jwks_request_timeout
            &&& source.cache_ttl == jwt.jwks_cache_ttl
            &&& source.stale_if_error == jwt.jwks_stale_if_error
            &&& source.startup_behavior == jwt.jwks_startup_behavior
            &&& source.allowed_algorithms.contains(JwtAlgorithm::Rs256)
                <==> jwt.allowed_algorithms@.contains(JwtAlgorithm::Rs256)
            &&& source.allowed_algorithms.contains(JwtAlgorithm::Es256)
                <==> jwt.allowed_algorithms@.contains(JwtAlgorithm::Es256)
            &&& !source.allowed_algorithms.contains(JwtAlgorithm::Hs256)
            &&& source_of(other) matches Some(second) ==> (source.jwks_url == second.jwks_url
                ==> source.source_identity == second.source_identity)
        },
{
    let list = jwt.allowed_algorithms@;
    let taken = asymmetric(list);
    if list.contains(JwtAlgorithm::Es256) {
        assert(taken[0] == JwtAlgorithm::Es256);
    }
    if list.contains(JwtAlgorithm::Rs256) {
        assert(taken[taken.len() - 1] == JwtAlgorithm::Rs256);
    }
}

/// A source goes by the first twelve bytes of its address's digest, in hexadecimal.
pub proof fn law_a_source_goes_by_a_digest(url: Seq<char>)
    requires
        sha256_digest(vstd::utf8::encode_utf8(url)).len() >= 12,
    ensures
        identity_of(url).len() == 29,
        identity_of(url).take(5) == "jwks:"@,
        identity_of(url).skip(5) == hex_text(
            sha256_digest(vstd::utf8::encode_utf8(url)).subrange(0, 12),
        ),
{
    reveal_strlit("jwks:");
    let digest = sha256_digest(vstd::utf8::encode_utf8(url));
    assert(digest.take(12) =~= digest.subrange(0, 12));
    assert(identity_of(url).take(5) =~= "jwks:"@);
    assert(identity_of(url).skip(5) =~= hex_text(digest.subrange(0, 12)));
}

/// Two digits stand for each byte, the higher half first.
pub proof fn law_hexadecimal_has_two_digits_for_a_byte(data: Seq<u8>, i: int)
    requires
        0 <= i < data.len(),
    ensures
        hex_text(data).len() == 2 * data.len(),
        ({
            let digit = |c: char|
                if '0' <= c <= '9' {
                    c as int - '0' as int
                } else {
                    c as int - 'a' as int + 10
                };
            let high = hex_text(data)[2 * i];
            let low = hex_text(data)[2 * i + 1];
            &&& '0' <= high <= '9' || 'a' <= high <= 'f'
            &&& '0' <= low <= '9' || 'a' <= low <= 'f'
            &&& data[i] == 16 * digit(high) + digit(low)
        }),
{
}

/// The time between two fetches on demand is the source's own interval, but never less than five
/// seconds nor more than thirty.
pub proof fn law_the_cooldown_is_bounded(interval: Nanos)
    ensures
        5 * SECOND <= cooldown_of(interval) <= 30 * SECOND,
        5 * SECOND <= interval <= 30 * SECOND ==> cooldown_of(interval) == interval,
        interval < 5 * SECOND ==> cooldown_of(interval) == 5 * SECOND,
        interval > 30 * SECOND ==> cooldown_of(interval) == 30 * SECOND,
{
}

/// Two policies on one source come to one that refreshes as often and keeps keys as briefly as the
/// stricter of them, waits and tolerates failures as long as the more patient of them, must be
/// ready where either must, and accepts what either accepts.
pub proof fn law_merged_policies_keep_both(a: SourceView, b: SourceView, algorithm: JwtAlgorithm)
    ensures
        ({
            let both = merged_source(a, b);
            &&& both.source_identity == a.source_identity && both.jwks_url == a.jwks_url
            &&& both.refresh_interval <= a.refresh_interval && both.refresh_interval
                <= b.refresh_interval
            &&& both.refresh_interval == a.refresh_interval || both.refresh_interval
                == b.refresh_interval
            &&& both.cache_ttl <= a.cache_ttl && both.cache_ttl <= b.cache_ttl
            &&& both.cache_ttl == a.cache_ttl || both.cache_ttl == b.cache_ttl
            &&& both.request_timeout >= a.request_timeout && both.request_timeout
                >= b.request_timeout
            &&& both.request_timeout == a.request_timeout || both.request_timeout
                == b.request_timeout
            &&& both.stale_if_error >= a.stale_if_error && both.stale_if_error >= b.stale_if_error
            &&& both.stale_if_error == a.stale_if_error || both.stale_if_error == b.stale_if_error
            &&& both.startup_behavior == JwksStartupBehavior::RequireReady <==> a.startup_behavior
                == JwksStartupBehavior::RequireReady || b.startup_behavior
                == JwksStartupBehavior::RequireReady
            &&& both.allowed_algorithms.contains(algorithm) <==> a.allowed_algorithms.contains(
                algorithm,
            ) || b.allowed_algorithms.contains(algorithm)
        }),
{
    lemma_with_missing(a.allowed_algorithms, b.allowed_algorithms, algorithm);
    lemma_by_name(with_missing(a.allowed_algorithms, b.allowed_algorithms), algorithm);
}

proof fn lemma_with_missing(
    list: Seq<JwtAlgorithm>,
    more: Seq<JwtAlgorithm>,
    algorithm: JwtAlgorithm,
)
    ensures
        with_missing(list, more).contains(algorithm) <==> list.contains(algorithm)
            || more.contains(algorithm),
    decreases more.len(),
{
    if more.len() > 0 {
        let before = more.drop_last();
        lemma_with_missing(list, before, algorithm);
        let sofar = with_missing(list, before);
        let all = with_missing(list, more);
        assert(more.contains(algorithm) <==> before.contains(algorithm) || more.last()
            == algorithm) by {
            assert(more =~= before.push(more.last()));
            lemma_push(before, more.last(), algorithm);
        }
        if !sofar.contains(more.last()) {
            lemma_push(sofar, more.last(), algorithm);
        }
    }
}

proof fn lemma_push<A>(list: Seq<A>, last: A, item: A)
    ensures
        list.push(last).contains(item) <==> list.contains(item) || last == item,
{
    let all = list.push(last);
    if list.contains(item) {
        let k = choose|k: int| 0 <= k < list.len() && list[k] == item;
        assert(all[k] == item);
    }
    assert(all[list.len() as int] == last);
    if all.contains(item) && last != item {
        let k = choose|k: int| 0 <= k < all.len() && all[k] == item;
        assert(list[k] == item);
    }
}

proof fn lemma_only(list: Seq<JwtAlgorithm>, wanted: JwtAlgorithm, algorithm: JwtAlgorithm)
    ensures
        only(list, wanted).contains(algorithm) <==> wanted == algorithm && list.contains(algorithm),
    decreases list.len(),
{
    if list.len() > 0 {
        let before = list.drop_last();
        lemma_only(before, wanted, algorithm);
        assert(list =~= before.push(list.last()));
        lemma_push(before, list.last(), algorithm);
        lemma_push(only(before, wanted), wanted, algorithm);
    }
}

proof fn lemma_by_name(list: Seq<JwtAlgorithm>, algorithm: JwtAlgorithm)
    ensures
        by_name(list).contains(algorithm) <==> list.contains(algorithm),
{
    let es = only(list, JwtAlgorithm::Es256);
    let hs = only(list, JwtAlgorithm::Hs256);
    let rs = only(list, JwtAlgorithm::Rs256);
    lemma_only(list, JwtAlgorithm::Es256, algorithm);
    lemma_only(list, JwtAlgorithm::Hs256, algorithm);
    lemma_only(list, JwtAlgorithm::Rs256, algorithm);
    lemma_concat(es, hs, algorithm);
    lemma_concat(es + hs, rs, algorithm);
}

proof fn lemma_concat<A>(left: Seq<A>, right: Seq<A>, item: A)
    ensures
        (left + right).contains(item) <==> left.contains(item) || right.contains(item),
{
    let all = left + right;
    if left.contains(item) {
        let k = choose|k: int| 0 <= k < left.len() && left[k] == item;
        assert(all[k] == item);
    }
    if right.contains(item) {
        let k = choose|k: int| 0 <= k < right.len() && right[k] == item;
        assert(all[left.len() + k] == item);
    }
    if all.contains(item) && !left.contains(item) {
        let k = choose|k: int| 0 <= k < all.len() && all[k] == item;
        if k < left.len() {
            assert(left[k] == item);
        }
        assert(right[k - left.len()] == item);
    }
}

/// The sources of a configuration are exactly those that some upstream's policy has.
pub proof fn law_every_upstreams_source_is_taken(
    upstreams: Seq<RuntimeUpstream>,
    source: SourceView,
)
    ensures
        policy_sources(upstreams).contains(source) <==> exists|i: int|
            0 <= i < upstreams.len() && ((
            #[trigger] upstreams[i]).policy.upstream_auth.jwt matches Some(jwt) && source_of(jwt)
                == Some(source)),
    decreases upstreams.len(),
{
    if upstreams.len() > 0 {
        let before = upstreams.drop_last();
        let last = upstreams.len() - 1;
        law_every_upstreams_source_is_taken(before, source);
        let sofar = policy_sources(before);
        if let Some(jwt) = upstreams[last].policy.upstream_auth.jwt {
            if let Some(own) = source_of(jwt) {
                lemma_push(sofar, own, source);
            }
        }
        if policy_sources(upstreams).contains(source) {
            if sofar.contains(source) {
                let i = choose|i: int|
                    0 <= i < before.len() && ((
                    #[trigger] before[i]).policy.upstream_auth.jwt matches Some(jwt) && source_of(
                        jwt,
                    ) == Some(source));
                assert(upstreams[i] == before[i]);
            } else {
                assert(upstreams[last].policy.upstream_auth.jwt is Some);
            }
        }
        if exists|i: int|
            0 <= i < upstreams.len() && ((
            #[trigger] upstreams[i]).policy.upstream_auth.jwt matches Some(jwt) && source_of(jwt)
                == Some(source)) {
            let i = choose|i: int|
                0 <= i < upstreams.len() && ((
                #[trigger] upstreams[i]).policy.upstream_auth.jwt matches Some(jwt) && source_of(
                    jwt,
                ) == Some(source));
            if i < last {
                assert(before[i] == upstreams[i]);
            }
        }
    }
}

/// Every policy on a source counts: a source is there exactly where some policy has it, must be
/// ready exactly where some policy on it says so, and is refreshed as often and kept as briefly as
/// the strictest policy on it says.
pub proof fn law_every_policy_on_a_source_counts(sources: Seq<SourceView>, id: Seq<char>)
    ensures
        merged_sources(sources).contains_key(id) <==> exists|i: int|
            0 <= i < sources.len() && (#[trigger] sources[i]).source_identity == id,
        merged_sources(sources).contains_key(id) ==> {
            let all = merged_sources(sources)[id];
            &&& all.source_identity == id
            &&& all.startup_behavior == JwksStartupBehavior::RequireReady <==> exists|i: int|
                0 <= i < sources.len() && (#[trigger] sources[i]).source_identity == id
                    && sources[i].startup_behavior == JwksStartupBehavior::RequireReady
            &&& forall|i: int|
                0 <= i < sources.len() && (#[trigger] sources[i]).source_identity == id ==> {
                    &&& all.refresh_interval <= sources[i].refresh_interval
                    &&& all.cache_ttl <= sources[i].cache_ttl
                    &&& all.request_timeout >= sources[i].request_timeout
                    &&& all.stale_if_error >= sources[i].stale_if_error
                }
        },
    decreases sources.len(),
{
    if sources.len() > 0 {
        let before = sources.drop_last();
        let last = sources.len() - 1;
        law_every_policy_on_a_source_counts(before, id);
        let sofar = merged_sources(before);
        let own = sources[last];
        assert forall|i: int| 0 <= i < before.len() implies #[trigger] before[i] == sources[i] by {}
        if exists|i: int|
            0 <= i < sources.len() && (#[trigger] sources[i]).source_identity == id {
            let i = choose|i: int|
                0 <= i < sources.len() && (#[trigger] sources[i]).source_identity == id;
            if i < last {
                assert(before[i].source_identity == id);
            }
        }
        if sofar.contains_key(id) {
            let k = choose|k: int|
                0 <= k < before.len() && (#[trigger] before[k]).source_identity == id;
            assert(sources[k].source_identity == id);
        }
        if merged_sources(sources).contains_key(id) {
            let all = merged_sources(sources)[id];
            let strict = |list: Seq<SourceView>|
                exists|i: int|
                    0 <= i < list.len() && (#[trigger] list[i]).source_identity == id
                        && list[i].startup_behavior == JwksStartupBehavior::RequireReady;
            if own.source_identity == id && own.startup_behavior
                == JwksStartupBehavior::RequireReady {
                assert(sources[last].source_identity == id);
                assert(strict(sources));
            }
            if strict(before) {
                let k = choose|k: int|
                    0 <= k < before.len() && (#[trigger] before[k]).source_identity == id
                        && before[k].startup_behavior == JwksStartupBehavior::RequireReady;
                assert(sources[k].source_identity == id);
                assert(strict(sources));
            }
            if strict(sources) {
                let k = choose|k: int|
                    0 <= k < sources.len() && (#[trigger] sources[k]).source_identity == id
                        && sources[k].startup_behavior == JwksStartupBehavior::RequireReady;
                if k < last {
                    assert(before[k].source_identity == id);
                    assert(strict(before));
                }
            }
            if own.source_identity == id && !sofar.contains_key(id) {
                assert forall|i: int|
                    0 <= i < sources.len() && (
                    #[trigger] sources[i]).source_identity == id implies i == last by {
                    if i < last {
                        assert(before[i].source_identity == id);
                    }
                }
            }
            assert forall|i: int|
                0 <= i < sources.len() && (#[trigger] sources[i]).source_identity == id implies {
                &&& all.refresh_interval <= sources[i].refresh_interval
                &&& all.cache_ttl <= sources[i].cache_ttl
                &&& all.request_timeout >= sources[i].request_timeout
                &&& all.stale_if_error >= sources[i].stale_if_error
            } by {
                if i < last {
                    assert(before[i].source_identity == id);
                }
            }
        }
    }
}

/// The keys that may be used at a time are exactly those without a bound and those whose bound has
/// not passed.
pub proof fn law_keys_live_until_their_bound(
    keys: Seq<JwtJwksActiveKey>,
    now: Nanos,
    key: JwtJwksActiveKey,
)
    ensures
        live_keys(keys, now).contains(key) <==> keys.contains(key) && (key.retained_until is None
            || now <= key.retained_until->0),
    decreases keys.len(),
{
    if keys.len() > 0 {
        let before = keys.drop_last();
        law_keys_live_until_their_bound(before, now, key);
        assert(keys =~= before.push(keys.last()));
        lemma_push(before, keys.last(), key);
        lemma_push(live_keys(before, now), keys.last(), key);
    }
}

/// A key takes another one's place exactly where the two are the same text for the same key id and
/// algorithm, or go by the same key id.
pub proof fn law_a_key_gives_way_to_its_namesake(
    new: RuntimeJwtVerificationKey,
    old: RuntimeJwtVerificationKey,
)
    ensures
        key_kid(old) is Some && key_kid(new) == key_kid(old) ==> replaces(new, old),
        new == old ==> replaces(new, old),
        replaces(new, old) ==> key_kid(new) == key_kid(old),
        replaces(new, old) && key_kid(old) is None ==> match (new, old) {
            (
                RuntimeJwtVerificationKey::Pem { public_key_pem: a, .. },
                RuntimeJwtVerificationKey::Pem { public_key_pem: b, .. },
            ) => a@ == b@,
            (
                RuntimeJwtVerificationKey::Jwk { jwk: a, .. },
                RuntimeJwtVerificationKey::Jwk { jwk: b, .. },
            ) => a@ == b@,
            _ => false,
        },
        key_kid(new) is Some ==> key_kid(new) == goes_by(new),
{
}

/// After a key set was published, every key in use is one of the set, without a bound, or one that
/// was in use before, until the time for which stale keys are tolerated has passed.
pub proof fn law_only_new_and_overlapping_keys_stay(
    entry: EntryView,
    now: Nanos,
    wall: WallTime,
    keys: Seq<RuntimeJwtVerificationKey>,
    i: int,
)
    requires
        keys.len() > 0,
        now + entry.source.stale_if_error <= Nanos::MAX,
        0 <= i < refresh_succeeded(entry, now, wall, keys).active_keys.len(),
    ensures
        ({
            let kept = refresh_succeeded(entry, now, wall, keys).active_keys[i];
            if i < keys.len() {
                kept.key == keys[i] && kept.retained_until is None
            } else {
                &&& kept.retained_until == Some((now + entry.source.stale_if_error) as Nanos)
                &&& exists|k: int|
                    0 <= k < entry.active_keys.len() && (#[trigger] entry.active_keys[k]).key
                        == kept.key && (entry.active_keys[k].retained_until is None || now
                        <= entry.active_keys[k].retained_until->0)
            }
        }),
{
    let live = live_keys(entry.active_keys, now);
    let until = (now + entry.source.stale_if_error) as Nanos;
    lemma_retained(as_active(keys), live, until);
    let kept = refresh_succeeded(entry, now, wall, keys).active_keys[i];
    if i < keys.len() {
        assert(kept == as_active(keys)[i]);
    } else {
        let k = choose|k: int| 0 <= k < live.len() && (#[trigger] live[k]).key == kept.key;
        law_keys_live_until_their_bound(entry.active_keys, now, live[k]);
        assert(live.contains(live[k]));
        let m = choose|m: int| 0 <= m < entry.active_keys.len() && entry.active_keys[m] == live[k];
        assert(entry.active_keys[m].key == kept.key);
    }
}

proof fn lemma_retained(keys: Seq<JwtJwksActiveKey>, olds: Seq<JwtJwksActiveKey>, until: Nanos)
    ensures
        keys.is_prefix_of(with_retained(keys, olds, until)),
        forall|i: int|
            keys.len() <= i < with_retained(keys, olds, until).len() ==> {
                let kept = #[trigger] with_retained(keys, olds, until)[i];
                kept.retained_until == Some(until) && exists|k: int|
                    0 <= k < olds.len() && (#[trigger] olds[k]).key == kept.key
            },
    decreases olds.len(),
{
    if olds.len() > 0 {
        let before = olds.drop_last();
        lemma_retained(keys, before, until);
        let sofar = with_retained(keys, before, until);
        let all = with_retained(keys, olds, until);
        assert forall|i: int| keys.len() <= i < all.len() implies {
            let kept = #[trigger] all[i];
            kept.retained_until == Some(until) && exists|k: int|
                0 <= k < olds.len() && (#[trigger] olds[k]).key == kept.key
        } by {
            if i < sofar.len() {
                assert(all[i] == sofar[i]);
                let k = choose|k: int|
                    0 <= k < before.len() && (#[trigger] before[k]).key == sofar[i].key;
                assert(olds[k].key == all[i].key);
            } else {
                assert(olds[olds.len() - 1].key == all[i].key);
            }
        }
    }
}

/// A source without usable keys was never fetched or is unusable. One with keys is fresh or stale
/// by the age of its last success, or is kept as what its last refresh left it; past its time to
/// live and the time for which errors are tolerated it is unusable in any case.
pub proof fn law_the_state_goes_by_keys_and_age(entry: EntryView, now: Nanos)
    requires
        entry.source.cache_ttl + entry.source.stale_if_error <= LONGEST,
    ensures
        ({
            let state = state_at(entry, now);
            let limit = entry.source.cache_ttl + entry.source.stale_if_error;
            let some = exists|i: int|
                0 <= i < entry.active_keys.len() && ((
                #[trigger] entry.active_keys[i]).retained_until is None || now
                    <= entry.active_keys[i].retained_until->0);
            let kept = entry.state == JwtJwksCacheState::RefreshFailedRetained || entry.state
                == JwtJwksCacheState::QuarantinedRetained;
            &&& stale_limit(entry.source) == limit
            &&& !some && entry.state == JwtJwksCacheState::NeverFetched ==> state
                == JwtJwksCacheState::NeverFetched
            &&& !some && entry.state != JwtJwksCacheState::NeverFetched ==> state
                == JwtJwksCacheState::EmptyUnusable
            &&& some && entry.last_success_at is None ==> state == entry.state
            &&& some ==> (entry.last_success_at matches Some(success) ==> {
                &&& now > success + limit ==> state == JwtJwksCacheState::EmptyUnusable
                &&& now <= success + limit && kept ==> state == entry.state
                &&& now <= success + entry.source.cache_ttl && !kept ==> state
                    == JwtJwksCacheState::Fresh
                &&& success + entry.source.cache_ttl < now <= success + limit && !kept ==> state
                    == JwtJwksCacheState::Stale
            })
        }),
        usable(state_at(entry, now)) <==> state_at(entry, now) == JwtJwksCacheState::Fresh
            || state_at(entry, now) == JwtJwksCacheState::Stale || state_at(entry, now)
            == JwtJwksCacheState::RefreshFailedRetained || state_at(entry, now)
            == JwtJwksCacheState::QuarantinedRetained,
{
    let live = live_keys(entry.active_keys, now);
    let some = exists|i: int|
        0 <= i < entry.active_keys.len() && ((#[trigger] entry.active_keys[i]).retained_until
            is None || now <= entry.active_keys[i].retained_until->0);
    if live.len() > 0 {
        law_keys_live_until_their_bound(entry.active_keys, now, live[0]);
        assert(live.contains(live[0]));
        let k = choose|k: int| 0 <= k < entry.active_keys.len() && entry.active_keys[k] == live[0];
        assert(entry.active_keys[k].retained_until is None || now
            <= entry.active_keys[k].retained_until->0);
    }
    if some {
        let k = choose|k: int|
            0 <= k < entry.active_keys.len() && ((#[trigger] entry.active_keys[k]).retained_until
                is None || now <= entry.active_keys[k].retained_until->0);
        law_keys_live_until_their_bound(entry.active_keys, now, entry.active_keys[k]);
        assert(entry.active_keys.contains(entry.active_keys[k]));
    }
}

/// A refresh that starts is under way from then on and changes nothing else; one that ends is no
/// longer under way, and its end, its success or its failure has that time. A failure is told in
/// the words of the failure.
pub proof fn law_a_refresh_leaves_its_times(
    entry: EntryView,
    now: Nanos,
    wall: WallTime,
    keys: Seq<RuntimeJwtVerificationKey>,
    failure: JwtJwksFetchFailure,
)
    requires
        now + entry.source.stale_if_error <= Nanos::MAX,
    ensures
        ({
            let started = refresh_started(entry, now, wall);
            let done = refresh_succeeded(entry, now, wall, keys);
            let failed = refresh_failed(entry, now, wall, failure);
            &&& started.refresh_in_flight && started.last_refresh_started_at == Some(now)
                && started.last_refresh_started_wall == Some(wall)
            &&& started.active_keys == entry.active_keys && started.state == entry.state
                && started.source == entry.source && started.last_success_at
                == entry.last_success_at && started.last_error == entry.last_error
            &&& !done.refresh_in_flight && !failed.refresh_in_flight
            &&& done.last_refresh_completed_at == Some(now) && failed.last_refresh_completed_at
                == Some(now)
            &&& done.source == entry.source && failed.source == entry.source
            &&& keys.len() > 0 ==> done.last_success_at == Some(now) && done.last_success_wall
                == Some(wall) && done.last_failure_reason is None && done.last_error is None
            &&& keys.len() == 0 ==> done.last_success_at == entry.last_success_at
            &&& failed.last_success_at == entry.last_success_at && failed.last_success_wall
                == entry.last_success_wall
            &&& failed.last_failure_at == Some(now) && failed.last_failure_wall == Some(wall)
            &&& failed.last_failure_reason == Some(failure.reason)
            &&& failed.last_error == Some(failure.reason.label() + ": "@ + failure.detail@)
            &&& failed.next_on_demand_refresh_at == entry.next_on_demand_refresh_at
            &&& done.next_on_demand_refresh_at == entry.next_on_demand_refresh_at
            &&& failed.state == JwtJwksCacheState::EmptyUnusable || failed.state
                == JwtJwksCacheState::RefreshFailedRetained
        }),
{
}

/// The end of a fetch concerns its own source, and only where the cache knows it.
pub proof fn law_a_fetch_concerns_its_own_source(
    cache: Map<Seq<char>, EntryView>,
    id: Seq<char>,
    other: Seq<char>,
    fetched: Result<Vec<RuntimeJwtVerificationKey>, JwtJwksFetchFailure>,
    now: Nanos,
    wall: WallTime,
)
    ensures
        ({
            let after = cache_after_fetch(cache, id, fetched, now, wall);
            &&& after.contains_key(other) == cache.contains_key(other)
            &&& other != id && cache.contains_key(other) ==> after[other] == cache[other]
            &&& cache.contains_key(id) ==> match fetched {
                Ok(keys) => after[id] == refresh_succeeded(cache[id], now, wall, keys@),
                Err(failure) => after[id] == refresh_failed(cache[id], now, wall, failure),
            }
        }),
{
}

/// The keys of a fetched document are its list of keys, one text for each item, in order.
pub proof fn law_a_document_lists_its_keys(body: Seq<u8>, i: int)
    ensures
        listed_keys(body) is Ok <==> (json_document(body) matches Ok(document) && (document.get(
            "keys"@,
        ) matches Some(FieldView::List(items)))),
        json_document(body) matches Ok(document) ==> (document.get("keys"@) matches Some(
            FieldView::List(items),
        ) ==> {
            &&& listed_keys(body)->Ok_0.len() == items.len()
            &&& 0 <= i < items.len() ==> listed_keys(body)->Ok_0[i] == items[i].source
        }),
{
}

/// The algorithm that a fetched key is for: the one that it names, else RS256 for an RSA key and
/// ES256 for a key on P-256.
pub open spec fn serves(document: JsonView, algorithm: JwtAlgorithm) -> bool {
    match document.get_str("alg"@) {
        Some(name) => name == algorithm_label(algorithm),
        None => {
            ||| algorithm == JwtAlgorithm::Rs256 && document.get_str("kty"@) == Some("RSA"@)
            ||| algorithm == JwtAlgorithm::Es256 && document.get_str("kty"@) == Some("EC"@)
                && document.get_str("crv"@) == Some("P-256"@)
        },
    }
}

/// A fetched key may be used to verify signatures, as far as it says what it is for.
pub open spec fn is_for_signatures(document: JsonView) -> bool {
    &&& document.get_str("use"@) matches Some(text) ==> text == "sig"@
    &&& document.get("key_ops"@) matches Some(FieldView::List(items)) ==> exists|i: int|
        0 <= i < items.len() && (#[trigger] items[i]).text == Some("verify"@)
}

/// A fetched key is taken exactly where it is for signatures, serves an algorithm with public keys
/// that the policy allows, and is sound for it; it then keeps its key id and its text. One for
/// another purpose or another algorithm is left out without harm.
pub proof fn law_a_fetched_key_is_taken_for_its_algorithm(
    jwk: Seq<char>,
    material: JwkMaterial,
    allowed: Seq<JwtAlgorithm>,
    algorithm: JwtAlgorithm,
)
    requires
        jwk_document(jwk) matches Some(document) && document is Object,
    ensures
        ({
            let document = jwk_document(jwk)->0;
            let taken = normalized_key(jwk, material, allowed);
            let wanted = algorithm != JwtAlgorithm::Hs256 && allowed.contains(algorithm);
            &&& !is_for_signatures(document) ==> (taken matches Ok(none) && none is None)
            &&& is_for_signatures(document) && serves(document, algorithm) && !wanted ==> (
            taken matches Ok(none) && none is None)
            &&& is_for_signatures(document) && serves(document, algorithm) && wanted ==> {
                &&& taken is Ok <==> jwk_verdict(jwk, material, algorithm) is Ok
                &&& taken matches Ok(one) ==> one == Some(
                    JwkFields { kid: document.get_str("kid"@), alg: algorithm, jwk, material },
                )
            }
            &&& is_for_signatures(document) && !serves(document, JwtAlgorithm::Hs256) && !serves(
                document,
                JwtAlgorithm::Rs256,
            ) && !serves(document, JwtAlgorithm::Es256) ==> taken is Err
            &&& (taken matches Ok(Some(fields)) && fields.alg == algorithm) ==> serves(
                document,
                algorithm,
            ) && is_for_signatures(document)
        }),
{
    let document = jwk_document(jwk)->0;
    if let Some(name) = document.get_str("alg"@) {
        law_algorithms_are_known_by_name(name, algorithm);
        law_algorithms_are_known_by_name(name, JwtAlgorithm::Hs256);
        law_algorithms_are_known_by_name(name, JwtAlgorithm::Rs256);
        law_algorithms_are_known_by_name(name, JwtAlgorithm::Es256);
    }
    reveal_strlit("RSA");
    reveal_strlit("EC");
    assert("RSA"@.len() == 3 && "EC"@.len() == 2);
}

/// Every key of a document that may be used is taken, and no other.
pub proof fn law_every_usable_key_is_taken(
    keys: Seq<FetchedJwk>,
    allowed: Seq<JwtAlgorithm>,
    fields: JwkFields,
)
    ensures
        accepted(keys, allowed).contains(fields) <==> exists|i: int|
            0 <= i < keys.len() && normalized_key(
                (#[trigger] keys[i]).jwk@,
                keys[i].material,
                allowed,
            ) == Ok::<Option<JwkFields>, Seq<char>>(Some(fields)),
    decreases keys.len(),
{
    if keys.len() > 0 {
        let before = keys.drop_last();
        let last = keys.len() - 1;
        law_every_usable_key_is_taken(before, allowed, fields);
        let sofar = accepted(before, allowed);
        let own = normalized_key(keys[last].jwk@, keys[last].material, allowed);
        if let Ok(Some(one)) = own {
            lemma_push(sofar, one, fields);
        }
        if accepted(keys, allowed).contains(fields) {
            if sofar.contains(fields) {
                let i = choose|i: int|
                    0 <= i < before.len() && normalized_key(
                        (#[trigger] before[i]).jwk@,
                        before[i].material,
                        allowed,
                    ) == Ok::<Option<JwkFields>, Seq<char>>(Some(fields));
                assert(keys[i] == before[i]);
            } else {
                assert(own == Ok::<Option<JwkFields>, Seq<char>>(Some(fields)));
            }
        }
        if exists|i: int|
            0 <= i < keys.len() && normalized_key(
                (#[trigger] keys[i]).jwk@,
                keys[i].material,
                allowed,
            ) == Ok::<Option<JwkFields>, Seq<char>>(Some(fields)) {
            let i = choose|i: int|
                0 <= i < keys.len() && normalized_key(
                    (#[trigger] keys[i]).jwk@,
                    keys[i].material,
                    allowed,
                ) == Ok::<Option<JwkFields>, Seq<char>>(Some(fields));
            if i < last {
                assert(before[i] == keys[i]);
            }
        }
    }
}

proof fn lemma_kids(keys: Seq<JwkFields>, kid: Seq<char>)
    ensures
        kids(keys).contains(kid) <==> exists|i: int|
            0 <= i < keys.len() && (#[trigger] keys[i]).kid == Some(kid),
    decreases keys.len(),
{
    if keys.len() > 0 {
        let before = keys.drop_last();
        let last = keys.len() - 1;
        lemma_kids(before, kid);
        if kids(before).contains(kid) {
            let i = choose|i: int| 0 <= i < before.len() && (#[trigger] before[i]).kid == Some(kid);
            assert(keys[i].kid == Some(kid));
        }
        if keys[last].kid == Some(kid) {
            assert(kids(keys).contains(kid));
        }
        if exists|i: int| 0 <= i < keys.len() && (#[trigger] keys[i]).kid == Some(kid) {
            let i = choose|i: int| 0 <= i < keys.len() && (#[trigger] keys[i]).kid == Some(kid);
            if i < last {
                assert(before[i].kid == Some(kid));
            }
        }
    }
}

/// A document is ambiguous exactly where two of its keys go by one key id, and the key id that is
/// told of is one that two keys go by.
pub proof fn law_two_keys_of_one_kid_are_ambiguous(keys: Seq<JwkFields>)
    ensures
        first_duplicate(keys) is Some <==> exists|i: int, j: int|
            0 <= i < j < keys.len() && (#[trigger] keys[i]).kid is Some && (
            #[trigger] keys[j]).kid == keys[i].kid,
        first_duplicate(keys) matches Some(kid) ==> exists|i: int, j: int|
            0 <= i < j < keys.len() && (#[trigger] keys[i]).kid == Some(kid) && (
            #[trigger] keys[j]).kid == Some(kid),
    decreases keys.len(),
{
    if keys.len() > 0 {
        let before = keys.drop_last();
        let last = keys.len() - 1;
        law_two_keys_of_one_kid_are_ambiguous(before);
        assert forall|i: int| 0 <= i < before.len() implies #[trigger] before[i] == keys[i] by {}
        if let Some(kid) = first_duplicate(before) {
            let (i, j) = choose|i: int, j: int|
                0 <= i < j < before.len() && (#[trigger] before[i]).kid == Some(kid) && (
                #[trigger] before[j]).kid == Some(kid);
            assert(keys[i].kid == Some(kid) && keys[j].kid == Some(kid));
        } else {
            if let Some(kid) = keys[last].kid {
                lemma_kids(before, kid);
                if kids(before).contains(kid) {
                    let i = choose|i: int|
                        0 <= i < before.len() && (#[trigger] before[i]).kid == Some(kid);
                    assert(keys[i].kid == Some(kid) && keys[last].kid == Some(kid));
                }
            }
            if exists|i: int, j: int|
                0 <= i < j < keys.len() && (#[trigger] keys[i]).kid is Some && (
                #[trigger] keys[j]).kid == keys[i].kid {
                let (i, j) = choose|i: int, j: int|
                    0 <= i < j < keys.len() && (#[trigger] keys[i]).kid is Some && (
                    #[trigger] keys[j]).kid == keys[i].kid;
                assert(before[i] == keys[i]);
                if j < last {
                    assert(before[j] == keys[j]);
                }
                assert(before[i].kid == keys[last].kid);
            }
        }
    }
}

/// A state has a name of its own.
pub proof fn law_states_have_names_of_their_own(a: JwtJwksCacheState, b: JwtJwksCacheState)
    requires
        state_label(a) == state_label(b),
    ensures
        a == b,
{
    reveal_strlit("never_fetched");
    reveal_strlit("fresh");
    reveal_strlit("stale");
    reveal_strlit("refresh_failed_retained");
    reveal_strlit("quarantined_retained");
    reveal_strlit("empty_unusable");
    assert("fresh"@[0] == 'f' && "stale"@[0] == 's');
    assert("never_fetched"@.len() == 13 && "fresh"@.len() == 5 && "stale"@.len() == 5
        && "refresh_failed_retained"@.len() == 23 && "quarantined_retained"@.len() == 20
        && "empty_unusable"@.len() == 14);
}

/// What operators are shown of a source is what is known of it: its public address, the state and
/// the number of its keys, when it was last tried and last read and how long ago that is, and why
/// it last failed. A source that the cache does not know was never fetched.
pub proof fn law_a_report_shows_what_is_known(
    source: SourceView,
    known: Option<SnapshotView>,
    wall: WallTime,
    i: int,
)
    ensures
        ({
            let report = report_of(source, known, wall);
            let seconds = |time: Option<WallTime>|
                match time {
                    Some(WallTime::SinceEpoch { secs }) => Some(secs),
                    _ => None,
                };
            &&& report.source_id == source.source_identity
            &&& report.endpoint == endpoint_of(source.jwks_url)
            &&& report.allowed_algorithms.len() == source.allowed_algorithms.len()
            &&& 0 <= i < source.allowed_algorithms.len() ==> report.allowed_algorithms[i]
                == algorithm_label(source.allowed_algorithms[i])
            &&& report.startup_behavior == if source.startup_behavior
                == JwksStartupBehavior::RequireReady {
                "require_ready"@
            } else {
                "allow_degraded"@
            }
            &&& known is None ==> report.state == "never_fetched"@ && report.active_key_count == 0
                && report.age_seconds is None && report.last_error is None
                && report.last_failure_reason is None
            &&& known matches Some(entry) ==> {
                &&& report.state == state_label(entry.state)
                &&& report.active_key_count == entry.active_keys.len()
                &&& report.last_refresh_attempt_unix_seconds == seconds(
                    entry.last_refresh_started_wall,
                )
                &&& report.last_refresh_success_unix_seconds == seconds(entry.last_success_wall)
                &&& report.last_error == entry.last_error
                &&& entry.last_failure_reason is None ==> report.last_failure_reason is None
                &&& entry.last_failure_reason matches Some(reason) ==> report.last_failure_reason
                    == Some(reason.label())
                &&& report.age_seconds is Some <==> seconds(entry.last_success_wall) is Some
                    && seconds(Some(wall)) is Some
                &&& report.age_seconds matches Some(age) ==> {
                    let then = seconds(entry.last_success_wall)->0;
                    let present = seconds(Some(wall))->0;
                    (present >= then ==> then + age == present) && (present < then ==> age == 0)
                }
            }
        }),
{
}

/// The report on a fetch counts the keys before and after it, and says whether the set was
/// published, put aside in favour of the keys in use, or left the source without any. The report on
/// a failed one says that the keys in use stay exactly where there are some.
pub proof fn law_a_fetch_is_reported_as_it_ended(
    before: Option<SnapshotView>,
    after: SnapshotView,
    failure: JwtJwksFetchFailure,
)
    ensures
        ({
            let report = replacement_report(before, after);
            let failed = failure_report(Some(after), failure);
            let lost = failure_report(None, failure);
            &&& report.active_keys == after.active_keys.len()
            &&& before matches Some(earlier) ==> report.previous_active_keys
                == earlier.active_keys.len()
            &&& before is None ==> report.previous_active_keys == 0
            &&& report.state == state_label(after.state)
            &&& report.last_success_wall == after.last_success_wall
            &&& after.state == JwtJwksCacheState::Fresh || after.state == JwtJwksCacheState::Stale
                <==> report.note is Published
            &&& after.state == JwtJwksCacheState::QuarantinedRetained <==> report.note
                is Quarantined
            &&& after.state == JwtJwksCacheState::EmptyUnusable <==> report.note is Unusable
            &&& report.note matches NoteView::Quarantined { detail } ==> (
            after.last_error matches Some(error) ==> detail == error)
            &&& report.note matches NoteView::Unusable { detail } ==> (
            after.last_error matches Some(error) ==> detail == error)
            &&& failed.active_keys == after.active_keys.len()
            &&& failed.state == state_label(after.state)
            &&& failed.failure_reason == failure.reason.label()
            &&& failed.last_success_wall == after.last_success_wall
            &&& failed.action == if after.state == JwtJwksCacheState::NeverFetched || after.state
                == JwtJwksCacheState::EmptyUnusable {
                "reject_tokens"@
            } else {
                "retain_last_known_good"@
            }
            &&& lost.action == "reject_tokens"@ && lost.active_keys == 0
        }),
{
}

/// A start is objected to for a source exactly where the source could not be fetched or has no
/// usable keys after that; and exactly the sources that must be ready are asked about.
pub proof fn law_a_start_needs_its_required_sources(
    source: SourceView,
    trigger: Seq<char>,
    failure: Option<JwtJwksFetchFailure>,
    snapshot: Option<SnapshotView>,
    sources: Map<Seq<char>, SourceView>,
    id: Seq<char>,
)
    ensures
        preflight_objection(source, trigger, failure, snapshot) is None <==> failure is None && (
        snapshot matches Some(entry) && entry.state != JwtJwksCacheState::NeverFetched && entry.state
            != JwtJwksCacheState::EmptyUnusable),
        required(sources).contains_key(id) <==> sources.contains_key(id)
            && sources[id].startup_behavior == JwksStartupBehavior::RequireReady,
        required(sources).contains_key(id) ==> required(sources)[id] == sources[id],
        preflight_objection(source, trigger, failure, snapshot) matches Some(text) ==> exists|
            rest: Seq<char>,
        | text == #[trigger] ("jwks require-ready preflight failed source_id="@
            + source.source_identity + " endpoint="@ + endpoint_of(source.jwks_url) + " trigger="@
            + trigger + " startup_behavior=require_ready"@ + rest),
        failure matches Some(failure) ==> preflight_objection(
            source,
            trigger,
            Some(failure),
            snapshot,
        ) == Some(
            "jwks require-ready preflight failed source_id="@ + source.source_identity
                + " endpoint="@ + endpoint_of(source.jwks_url) + " trigger="@ + trigger
                + " startup_behavior=require_ready"@ + (" detail="@ + failure.reason.label() + ": "@
                + failure.detail@),
        ),
{
    let head = "jwks require-ready preflight failed source_id="@ + source.source_identity
        + " endpoint="@ + endpoint_of(source.jwks_url) + " trigger="@ + trigger
        + " startup_behavior=require_ready"@;
    if let Some(failure) = failure {
        let rest = " detail="@ + failure.reason.label() + ": "@ + failure.detail@;
        assert(head + " detail="@ + failure.text() =~= head + rest);
    } else if let Some(entry) = snapshot {
        let detail = match entry.last_error {
            Some(error) => error,
            None => "jwks source has no usable keys after startup preflight"@,
        };
        let rest = " state="@ + state_label(entry.state) + " detail="@ + detail;
        assert(head + " state="@ + state_label(entry.state) + " detail="@ + detail =~= head + rest);
    } else {
        let rest = " detail=missing_cache_snapshot"@;
        assert(preflight_objection(source, trigger, failure, snapshot) == Some(head + rest));
    }
}

/// What operators are shown of an address is all of it up to a query or a fragment.
pub proof fn law_an_address_is_shown_up_to_its_query(base: Seq<char>, mark: char, rest: Seq<char>)
    requires
        !base.contains('?'),
        !base.contains('#'),
        mark == '?' || mark == '#',
    ensures
        endpoint_of(base) == base,
        endpoint_of(base.push(mark) + rest) == base,
{
    let n = base.len() as int;
    let url = base.push(mark) + rest;
    assert forall|i: int| 0 <= i < n implies !ends_path()(#[trigger] base[i]) by {
        assert(base.contains(base[i]));
    }
    lemma_span_is(base, ends_path(), n);
    assert(base.take(n) =~= base);
    assert forall|i: int| 0 <= i < n implies !ends_path()(#[trigger] url[i]) by {
        assert(url[i] == base[i]);
    }
    assert(url[n] == mark);
    lemma_span_is(url, ends_path(), n);
    assert(url.take(n) =~= base);
}

/// A cache that is told of several sources knows all of them and what it knew before, and of the
/// others nothing changes; at a start it is told of every source of the configuration.
pub proof fn law_every_source_becomes_known(
    cache: Map<Seq<char>, EntryView>,
    sources: Seq<JwtJwksSourceConfig>,
    all: Map<Seq<char>, SourceView>,
    id: Seq<char>,
)
    ensures
        all_registered(cache, sources).contains_key(id) <==> cache.contains_key(id) || exists|i: int|
            0 <= i < sources.len() && (#[trigger] sources[i]).source_identity@ == id,
        cache.contains_key(id) ==> all_registered(cache, sources)[id].active_keys
            == cache[id].active_keys && all_registered(cache, sources)[id].state == cache[id].state,
        known_to(cache, all).contains_key(id) <==> cache.contains_key(id) || all.contains_key(id),
        cache.contains_key(id) && all.contains_key(id) && all[id].source_identity == id ==> known_to(
            cache,
            all,
        )[id].active_keys == cache[id].active_keys,
        cache.contains_key(id) && !all.contains_key(id) ==> known_to(cache, all)[id] == cache[id],
        !cache.contains_key(id) && all.contains_key(id) && all[id].source_identity == id ==> {
            let entry = known_to(cache, all)[id];
            entry.source == all[id] && entry.state == JwtJwksCacheState::NeverFetched
                && entry.active_keys.len() == 0 && !entry.refresh_in_flight
        },
    decreases sources.len(),
{
    if sources.len() > 0 {
        let before = sources.drop_last();
        let last = sources.len() - 1;
        law_every_source_becomes_known(cache, before, all, id);
        if exists|i: int| 0 <= i < before.len() && (#[trigger] before[i]).source_identity@ == id {
            let i = choose|i: int|
                0 <= i < before.len() && (#[trigger] before[i]).source_identity@ == id;
            assert(sources[i].source_identity@ == id);
        }
        if exists|i: int| 0 <= i < sources.len() && (#[trigger] sources[i]).source_identity@ == id {
            let i = choose|i: int|
                0 <= i < sources.len() && (#[trigger] sources[i]).source_identity@ == id;
            if i < last {
                assert(before[i].source_identity@ == id);
            }
        }
        if sources[last].source_identity@ == id {
            assert(all_registered(cache, sources).contains_key(id));
        }
    }
}

/// A list of a configuration's sources holds each of them once.
pub proof fn law_a_list_of_sources_holds_each_once(
    sources: Seq<JwtJwksSourceConfig>,
    all: Map<Seq<char>, SourceView>,
    i: int,
    j: int,
)
    requires
        ordered(sources),
        lists(sources, all),
        0 <= i < j < sources.len(),
    ensures
        sources[i].source_identity@ != sources[j].source_identity@,
        all.contains_key(sources[i].source_identity@),
        all[sources[i].source_identity@] == sources[i]@,
{
    lemma_lex_total(sources[i].source_identity@, sources[j].source_identity@);
}

/// The note on a rejected token tells why, under which algorithm and key id, and how the policy's
/// own remote source stands, where it has one.
pub proof fn law_a_rejection_is_noted_with_its_source(
    jwt: RuntimeJwtAuth,
    header: Option<HeaderView>,
    reason: JwtValidationFailureReason,
    cache: Map<Seq<char>, EntryView>,
    now: Nanos,
)
    ensures
        ({
            let note = rejection_note(jwt, header, reason, cache, now);
            &&& note.reason == reason.label()
            &&& header matches Some(header) ==> note.algorithm == algorithm_label(header.algorithm)
            &&& header is None ==> note.algorithm == "unknown"@ && note.kid == "none"@
            &&& header matches Some(header) ==> (header.kid matches Some(kid) ==> note.kid == kid)
            &&& header matches Some(header) ==> (header.kid is None ==> note.kid == "none"@)
            &&& note.source is Some <==> jwt.jwks_url is Some
            &&& note.source matches Some(source) ==> {
                let id = identity_of(jwt.jwks_url->0@);
                &&& source.source_identity == id
                &&& source.endpoint == endpoint_of(jwt.jwks_url->0@)
                &&& !cache.contains_key(id) ==> source.state == "missing"@ && source.failure_reason
                    == "none"@ && !source.stale_window_expired
                &&& cache.contains_key(id) ==> {
                    &&& source.state == state_label(state_at(cache[id], now))
                    &&& cache[id].last_failure_reason matches Some(failure)
                        ==> source.failure_reason == failure.label()
                    &&& cache[id].last_failure_reason is None ==> source.failure_reason == "none"@
                    &&& source.stale_window_expired <==> state_at(cache[id], now)
                        == JwtJwksCacheState::EmptyUnusable && cache[id].last_success_at is Some
                }
            }
        }),
{
}

/// The time for which keys may be used after their last fetch is their time to live and the time for
/// which errors are tolerated, as far as a duration goes, and never less than their time to live.
pub proof fn law_stale_keys_are_tolerated_for_a_time(source: SourceView)
    ensures
        source.cache_ttl <= stale_limit(source) <= source.cache_ttl + source.stale_if_error,
        stale_limit(source) < source.cache_ttl + source.stale_if_error ==> stale_limit(source)
            >= LONGEST,
        source.cache_ttl + source.stale_if_error > LONGEST && source.cache_ttl <= LONGEST
            ==> stale_limit(source) == LONGEST,
{
}

/// Of several sources with one identity the last one counts, and a source is active exactly where
/// it is among them.
pub proof fn law_the_last_source_of_an_identity_counts(
    sources: Seq<JwtJwksSourceConfig>,
    id: Seq<char>,
    i: int,
)
    requires
        forall|j: int| i < j < sources.len() ==> (#[trigger] sources[j]).source_identity@ != id,
        i >= -1,
    ensures
        i == -1 ==> !by_identity(sources).contains_key(id),
        0 <= i < sources.len() && sources[i].source_identity@ == id ==> by_identity(
            sources,
        ).contains_key(id) && by_identity(sources)[id] == sources[i]@,
    decreases sources.len(),
{
    if sources.len() > 0 {
        let before = sources.drop_last();
        let last = sources.len() - 1;
        if i < last {
            assert(sources[last].source_identity@ != id);
            assert forall|j: int| i < j < before.len() implies (
            #[trigger] before[j]).source_identity@ != id by {
                assert(before[j] == sources[j]);
            }
            law_the_last_source_of_an_identity_counts(before, id, i);
        }
    }
}

/// A key that was taken from a document has the document's key id, algorithm and text.
pub proof fn law_a_taken_key_is_the_documents(
    keys: Seq<RuntimeJwtVerificationKey>,
    fields: Seq<JwkFields>,
    i: int,
)
    requires
        are_jwks(keys, fields),
        0 <= i < keys.len(),
    ensures
        keys.len() == fields.len(),
        keys[i] matches RuntimeJwtVerificationKey::Jwk { kid, alg, jwk, jwk_material } && {
            &&& opt(kid) == fields[i].kid
            &&& alg == Some(fields[i].alg)
            &&& jwk@ == fields[i].jwk
            &&& jwk_material == fields[i].material
        },
{
    assert(is_jwk(keys[i], fields[i]));
}

/// Durations are counted in nanoseconds, of which a second has a billion, and go up to the longest
/// that whole seconds of sixty-four bits allow.
pub proof fn law_a_second_has_a_billion_nanoseconds()
    ensures
        SECOND == 1_000_000_000,
        LONGEST == (u64::MAX as int + 1) * 1_000_000_000 - 1,
{
}

} // verus!
