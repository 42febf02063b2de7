//! What holds of the cached key sets whatever happens to them.
use crate::admission::jwks_cache::{
    as_active, bare_keys, live_keys, may_refresh_on_demand, reconciled, refresh_failed,
    refresh_succeeded, registered, replaces, snapshot_of, stale_limit, state_at, supersedes, usable,
    with_retained, EntryView, JwtJwksActiveKey, JwtJwksCacheState,
};
use crate::admission::jwks_refresh::{
    accepted, first_duplicate, kids, FetchedJwk, JwkFields, JwtJwksFetchFailure,
};
use crate::admission::jwks_source::{
    asymmetric, by_name, endpoint_of, ends_path, merged_source, merged_sources, only, with_missing,
    with_policy, SourceView,
};
use crate::admission::key_resolution::{
    components_of, jwk_verdict, key_kid, ComponentsView, MIN_RSA_KEY_BITS,
};
use crate::admission::key_resolver::on_demand;
use crate::config::{JwtAlgorithm, Nanos, RuntimeJwtVerificationKey, WallTime, SECOND};
use crate::number::bit_length;
use crate::text::{lemma_span, lemma_span_is};
use vstd::prelude::*;

verus! {

/// A live key is one of the keys and may still be used.
proof fn lemma_live_key(keys: Seq<JwtJwksActiveKey>, now: Nanos, i: int)
    requires
        0 <= i < live_keys(keys, now).len(),
    ensures
        live_keys(keys, now)[i].live(now),
        keys.contains(live_keys(keys, now)[i]),
    decreases keys.len(),
{
    let before = live_keys(keys.drop_last(), now);
    if keys.last().live(now) && i == before.len() {
        assert(keys[keys.len() - 1] == keys.last());
    } else {
        lemma_live_key(keys.drop_last(), now, i);
        let k = choose|k: int|
            0 <= k < keys.drop_last().len() && keys.drop_last()[k] == before[i];
        assert(keys[k] == before[i]);
    }
}

/// Where every key may still be used, all of them are live.
proof fn lemma_all_live(keys: Seq<JwtJwksActiveKey>, now: Nanos)
    requires
        forall|i: int| 0 <= i < keys.len() ==> (#[trigger] keys[i]).live(now),
    ensures
        live_keys(keys, now) == keys,
    decreases keys.len(),
{
    if keys.len() > 0 {
        let before = keys.drop_last();
        assert forall|i: int| 0 <= i < before.len() implies (#[trigger] before[i]).live(now) by {
            assert(keys[i].live(now));
        }
        lemma_all_live(before, now);
        assert(keys[keys.len() - 1].live(now));
        assert(keys =~= before.push(keys.last()));
    } else {
        assert(live_keys(keys, now) =~= keys);
    }
}

proof fn lemma_live_again(keys: Seq<JwtJwksActiveKey>, now: Nanos)
    ensures
        live_keys(live_keys(keys, now), now) == live_keys(keys, now),
{
    let live = live_keys(keys, now);
    assert forall|i: int| 0 <= i < live.len() implies (#[trigger] live[i]).live(now) by {
        lemma_live_key(keys, now, i);
    }
    lemma_all_live(live, now);
}

proof fn lemma_with_retained_prefix(
    keys: Seq<JwtJwksActiveKey>,
    olds: Seq<JwtJwksActiveKey>,
    until: Nanos,
)
    ensures
        keys.is_prefix_of(with_retained(keys, olds, until)),
        forall|i: int|
            keys.len() <= i < with_retained(keys, olds, until).len() ==> (
            #[trigger] with_retained(keys, olds, until)[i]).retained_until == Some(until),
    decreases olds.len(),
{
    if olds.len() > 0 {
        lemma_with_retained_prefix(keys, olds.drop_last(), until);
    } else {
        assert(keys =~= with_retained(keys, olds, until));
    }
}

/// A key set that was just published is fresh, and its keys come first, without any bound on their
/// use.
pub proof fn law_published_keys_are_served(
    entry: EntryView,
    now: Nanos,
    wall: WallTime,
    keys: Seq<RuntimeJwtVerificationKey>,
)
    requires
        keys.len() > 0,
        now + entry.source.stale_if_error <= Nanos::MAX,
    ensures
        ({
            let snapshot = snapshot_of(refresh_succeeded(entry, now, wall, keys), now);
            &&& snapshot.state == JwtJwksCacheState::Fresh
            &&& keys.is_prefix_of(snapshot.active_keys)
            &&& snapshot.last_error is None
        }),
{
    let until = (now + entry.source.stale_if_error) as Nanos;
    let live = live_keys(entry.active_keys, now);
    let rolled = with_retained(as_active(keys), live, until);
    lemma_with_retained_prefix(as_active(keys), live, until);
    assert forall|i: int| 0 <= i < rolled.len() implies (#[trigger] rolled[i]).live(now) by {
        if i < keys.len() {
            assert(rolled.subrange(0, keys.len() as int)[i] == as_active(keys)[i]);
        }
    }
    lemma_all_live(rolled, now);
    let snapshot = snapshot_of(refresh_succeeded(entry, now, wall, keys), now);
    assert(snapshot.active_keys == bare_keys(rolled));
    assert(keys =~= snapshot.active_keys.subrange(0, keys.len() as int)) by {
        assert forall|i: int| 0 <= i < keys.len() implies keys[i] == #[trigger] snapshot.active_keys[i] by {
            assert(rolled.subrange(0, keys.len() as int)[i] == as_active(keys)[i]);
        }
    }
    assert(rolled.len() > 0);
}

/// A key that was usable when its set was replaced stays usable for the overlap, unless the set
/// holds a key that takes its place.
pub proof fn law_replaced_keys_overlap(
    entry: EntryView,
    now: Nanos,
    wall: WallTime,
    keys: Seq<RuntimeJwtVerificationKey>,
    i: int,
)
    requires
        keys.len() > 0,
        now + entry.source.stale_if_error <= Nanos::MAX,
        0 <= i < live_keys(entry.active_keys, now).len(),
    ensures
        ({
            let after = refresh_succeeded(entry, now, wall, keys).active_keys;
            let key = live_keys(entry.active_keys, now)[i].key;
            let until = (now + entry.source.stale_if_error) as Nanos;
            supersedes(after, key) || after.contains(
                JwtJwksActiveKey { key, retained_until: Some(until) },
            )
        }),
{
    let until = (now + entry.source.stale_if_error) as Nanos;
    lemma_kept_or_superseded(as_active(keys), live_keys(entry.active_keys, now), until, i);
}

proof fn lemma_kept_or_superseded(
    keys: Seq<JwtJwksActiveKey>,
    olds: Seq<JwtJwksActiveKey>,
    until: Nanos,
    i: int,
)
    requires
        0 <= i < olds.len(),
    ensures
        supersedes(with_retained(keys, olds, until), olds[i].key) || with_retained(
            keys,
            olds,
            until,
        ).contains(JwtJwksActiveKey { key: olds[i].key, retained_until: Some(until) }),
    decreases olds.len(),
{
    let before = with_retained(keys, olds.drop_last(), until);
    let after = with_retained(keys, olds, until);
    let kept = JwtJwksActiveKey { key: olds[i].key, retained_until: Some(until) };
    if i == olds.len() - 1 {
        if !supersedes(before, olds[i].key) {
            assert(after[before.len() as int] == kept);
        }
    } else {
        lemma_kept_or_superseded(keys, olds.drop_last(), until, i);
        assert(olds.drop_last()[i] == olds[i]);
        if supersedes(before, olds[i].key) {
            let k = choose|k: int|
                0 <= k < before.len() && replaces((#[trigger] before[k]).key, olds[i].key);
            assert(after[k] == before[k]);
        } else {
            let k = choose|k: int| 0 <= k < before.len() && before[k] == kept;
            assert(after[k] == before[k]);
        }
    }
}

/// No two keys of the list have one key id.
pub open spec fn distinct_kids(keys: Seq<JwtJwksActiveKey>) -> bool {
    forall|i: int, j: int|
        0 <= i < j < keys.len() && key_kid((#[trigger] keys[i]).key) is Some ==> key_kid(
            keys[i].key,
        ) != key_kid((#[trigger] keys[j]).key)
}

/// A published set with distinct key ids leaves no key id with two keys: reused key ids belong to
/// the new key alone.
pub proof fn law_one_key_for_each_kid(
    entry: EntryView,
    now: Nanos,
    wall: WallTime,
    keys: Seq<RuntimeJwtVerificationKey>,
)
    requires
        keys.len() > 0,
        now + entry.source.stale_if_error <= Nanos::MAX,
        distinct_kids(as_active(keys)),
    ensures
        distinct_kids(refresh_succeeded(entry, now, wall, keys).active_keys),
{
    let until = (now + entry.source.stale_if_error) as Nanos;
    lemma_distinct_kids(as_active(keys), live_keys(entry.active_keys, now), until);
}

proof fn lemma_distinct_kids(
    keys: Seq<JwtJwksActiveKey>,
    olds: Seq<JwtJwksActiveKey>,
    until: Nanos,
)
    requires
        distinct_kids(keys),
    ensures
        distinct_kids(with_retained(keys, olds, until)),
    decreases olds.len(),
{
    if olds.len() > 0 {
        lemma_distinct_kids(keys, olds.drop_last(), until);
        let before = with_retained(keys, olds.drop_last(), until);
        let after = with_retained(keys, olds, until);
        let last = olds.last().key;
        if !supersedes(before, last) {
            assert forall|i: int, j: int|
                0 <= i < j < after.len() && key_kid((#[trigger] after[i]).key)
                    is Some implies key_kid(after[i].key) != key_kid(
                (#[trigger] after[j]).key,
            ) by {
                if j == before.len() {
                    assert(after[i] == before[i]);
                    assert(!replaces(before[i].key, last));
                } else {
                    assert(after[i] == before[i] && after[j] == before[j]);
                }
            }
        }
    }
}

/// A refresh that fails takes no key away: the same keys are served, and they are usable for as
/// long as they were going to be.
pub proof fn law_failed_refresh_keeps_keys(
    entry: EntryView,
    now: Nanos,
    wall: WallTime,
    failure: JwtJwksFetchFailure,
    later: Nanos,
)
    ensures
        ({
            let after = refresh_failed(entry, now, wall, failure);
            &&& after.active_keys == entry.active_keys
            &&& snapshot_of(after, later).active_keys == snapshot_of(entry, later).active_keys
            &&& usable(entry.state) && live_keys(entry.active_keys, now).len() > 0 ==> usable(
                state_at(after, later),
            ) == usable(state_at(entry, later))
        }),
{
}

/// A replacement without usable keys is quarantined: the keys in use stay, and where there are
/// none the source is unusable.
pub proof fn law_empty_replacement_is_quarantined(entry: EntryView, now: Nanos, wall: WallTime)
    ensures
        ({
            let after = refresh_succeeded(entry, now, wall, Seq::empty());
            &&& live_keys(after.active_keys, now) == live_keys(entry.active_keys, now)
            &&& after.state == if live_keys(entry.active_keys, now).len() == 0 {
                JwtJwksCacheState::EmptyUnusable
            } else {
                JwtJwksCacheState::QuarantinedRetained
            }
            &&& after.last_success_at == entry.last_success_at
        }),
{
    lemma_live_again(entry.active_keys, now);
    if live_keys(entry.active_keys, now).len() == 0 {
        assert(live_keys(Seq::<JwtJwksActiveKey>::empty(), now) =~= live_keys(
            entry.active_keys,
            now,
        ));
    }
}

/// A usable source has a key to use.
pub proof fn law_usable_source_has_keys(entry: EntryView, now: Nanos)
    requires
        usable(state_at(entry, now)),
    ensures
        snapshot_of(entry, now).active_keys.len() > 0,
{
}

/// Past the stale limit a source is unusable, and stays so until it is fetched again.
pub proof fn law_stale_limit_is_final(entry: EntryView, now: Nanos, later: Nanos)
    requires
        entry.last_success_at matches Some(success) && success <= now && now - success
            > stale_limit(entry.source),
        now <= later,
    ensures
        !usable(state_at(entry, now)),
        !usable(state_at(entry, later)),
{
}

/// Within its time to live a fetched source is fresh, from then to the stale limit stale, as long
/// as no refresh fails.
pub proof fn law_fresh_then_stale(entry: EntryView, now: Nanos)
    requires
        entry.state == JwtJwksCacheState::Fresh,
        live_keys(entry.active_keys, now).len() > 0,
        entry.last_success_at matches Some(success) && success <= now && now - success
            <= stale_limit(entry.source),
    ensures
        state_at(entry, now) == if now - entry.last_success_at->0 <= entry.source.cache_ttl {
            JwtJwksCacheState::Fresh
        } else {
            JwtJwksCacheState::Stale
        },
{
}

/// Demands for a refresh are answered at most once in the cooldown: after one was answered, none is
/// until then, whether its fetch is under way, has failed, or has succeeded.
pub proof fn law_on_demand_refresh_is_throttled(
    cache: Map<Seq<char>, EntryView>,
    id: Seq<char>,
    now: Nanos,
    wall: WallTime,
    end: Nanos,
    failure: JwtJwksFetchFailure,
    keys: Seq<RuntimeJwtVerificationKey>,
    later: Nanos,
)
    requires
        now + 30 * SECOND <= Nanos::MAX,
        on_demand(cache, id, now, wall).1 is Some,
        later < now + 5 * SECOND,
    ensures
        ({
            let entry = on_demand(cache, id, now, wall).0[id];
            &&& !may_refresh_on_demand(entry, later)
            &&& !may_refresh_on_demand(refresh_failed(entry, end, wall, failure), later)
            &&& !may_refresh_on_demand(refresh_succeeded(entry, end, wall, keys), later)
        }),
{
}

proof fn lemma_only_contains(list: Seq<JwtAlgorithm>, wanted: JwtAlgorithm, x: JwtAlgorithm)
    ensures
        only(list, wanted).contains(x) <==> x == wanted && list.contains(wanted),
    decreases list.len(),
{
    if list.len() > 0 {
        let before = list.drop_last();
        lemma_only_contains(before, wanted, x);
        let now = only(list, wanted);
        let then = only(before, wanted);
        if list.contains(wanted) {
            let k = choose|k: int| 0 <= k < list.len() && list[k] == wanted;
            if k < before.len() {
                assert(before[k] == wanted);
            }
        }
        if before.contains(wanted) {
            let k = choose|k: int| 0 <= k < before.len() && before[k] == wanted;
            assert(list[k] == wanted);
        }
        if list.last() == wanted {
            assert(now[then.len() as int] == wanted);
            assert(list[list.len() - 1] == wanted);
            if now.contains(x) {
                let k = choose|k: int| 0 <= k < now.len() && now[k] == x;
                if k < then.len() {
                    assert(then[k] == x);
                }
            }
        }
    }
}

proof fn lemma_by_name_contains(list: Seq<JwtAlgorithm>, x: JwtAlgorithm)
    ensures
        by_name(list).contains(x) <==> list.contains(x),
{
    let es = only(list, JwtAlgorithm::Es256);
    let hs = only(list, JwtAlgorithm::Hs256);
    let rs = only(list, JwtAlgorithm::Rs256);
    lemma_only_contains(list, JwtAlgorithm::Es256, x);
    lemma_only_contains(list, JwtAlgorithm::Hs256, x);
    lemma_only_contains(list, JwtAlgorithm::Rs256, x);
    let all = by_name(list);
    if all.contains(x) {
        let k = choose|k: int| 0 <= k < all.len() && all[k] == x;
        if k < es.len() {
            assert(es[k] == x);
        } else if k < es.len() + hs.len() {
            assert(hs[k - es.len()] == x);
        } else {
            assert(rs[k - es.len() - hs.len()] == x);
        }
    }
    if es.contains(x) {
        let k = choose|k: int| 0 <= k < es.len() && es[k] == x;
        assert(all[k] == x);
    }
    if hs.contains(x) {
        let k = choose|k: int| 0 <= k < hs.len() && hs[k] == x;
        assert(all[es.len() + k] == x);
    }
    if rs.contains(x) {
        let k = choose|k: int| 0 <= k < rs.len() && rs[k] == x;
        assert(all[es.len() + hs.len() + k] == x);
    }
}

proof fn lemma_with_missing(
    list: Seq<JwtAlgorithm>,
    more: Seq<JwtAlgorithm>,
    x: JwtAlgorithm,
)
    ensures
        with_missing(list, more).contains(x) <==> list.contains(x) || more.contains(x),
        list.no_duplicates() ==> with_missing(list, more).no_duplicates(),
    decreases more.len(),
{
    if more.len() > 0 {
        let before = more.drop_last();
        lemma_with_missing(list, before, x);
        lemma_with_missing(list, before, more.last());
        let then = with_missing(list, before);
        let now = with_missing(list, more);
        if more.contains(x) {
            let k = choose|k: int| 0 <= k < more.len() && more[k] == x;
            if k < before.len() {
                assert(before[k] == x);
            }
        }
        if before.contains(x) {
            let k = choose|k: int| 0 <= k < before.len() && before[k] == x;
            assert(more[k] == x);
        }
        assert(more[more.len() - 1] == more.last());
        if !then.contains(more.last()) {
            assert(now[then.len() as int] == more.last());
            if then.contains(x) {
                let k = choose|k: int| 0 <= k < then.len() && then[k] == x;
                assert(now[k] == x);
            }
            if now.contains(x) {
                let k = choose|k: int| 0 <= k < now.len() && now[k] == x;
                if k < then.len() {
                    assert(then[k] == x);
                }
            }
        }
    }
}

/// A list without duplicates holds an item once or not at all.
proof fn lemma_only_once(list: Seq<JwtAlgorithm>, wanted: JwtAlgorithm)
    requires
        list.no_duplicates(),
    ensures
        only(list, wanted) == if list.contains(wanted) {
            seq![wanted]
        } else {
            Seq::empty()
        },
    decreases list.len(),
{
    if list.len() > 0 {
        let before = list.drop_last();
        assert(before.no_duplicates()) by {
            assert forall|a: int, b: int|
                0 <= a < before.len() && 0 <= b < before.len() && a != b implies before[a]
                != before[b] by {
                assert(list[a] != list[b]);
            }
        }
        lemma_only_once(before, wanted);
        assert(list[list.len() - 1] == list.last());
        if before.contains(wanted) {
            let k = choose|k: int| 0 <= k < before.len() && before[k] == wanted;
            assert(list[k] == wanted);
            assert(list[k] != list[list.len() - 1]);
        } else if list.contains(wanted) {
            let k = choose|k: int| 0 <= k < list.len() && list[k] == wanted;
            if k < before.len() {
                assert(before[k] == wanted);
            }
        }
        assert(only(list, wanted) =~= if list.contains(wanted) {
            seq![wanted]
        } else {
            Seq::empty()
        });
    }
}

/// Without duplicates, the order by name depends on the items alone.
proof fn lemma_by_name_unique(a: Seq<JwtAlgorithm>, b: Seq<JwtAlgorithm>)
    requires
        a.no_duplicates(),
        b.no_duplicates(),
        forall|x: JwtAlgorithm| a.contains(x) <==> b.contains(x),
    ensures
        by_name(a) == by_name(b),
{
    lemma_only_once(a, JwtAlgorithm::Es256);
    lemma_only_once(a, JwtAlgorithm::Hs256);
    lemma_only_once(a, JwtAlgorithm::Rs256);
    lemma_only_once(b, JwtAlgorithm::Es256);
    lemma_only_once(b, JwtAlgorithm::Hs256);
    lemma_only_once(b, JwtAlgorithm::Rs256);
}

proof fn lemma_by_name_no_duplicates(list: Seq<JwtAlgorithm>)
    requires
        list.no_duplicates(),
    ensures
        by_name(list).no_duplicates(),
{
    lemma_only_once(list, JwtAlgorithm::Es256);
    lemma_only_once(list, JwtAlgorithm::Hs256);
    lemma_only_once(list, JwtAlgorithm::Rs256);
}

/// A source's algorithms are listed once each.
pub open spec fn listed_once(source: SourceView) -> bool {
    source.allowed_algorithms.no_duplicates()
}

/// The policies of one source merge to the same policy in either order.
pub proof fn law_merge_is_commutative(a: SourceView, b: SourceView)
    requires
        listed_once(a),
        listed_once(b),
        a.source_identity == b.source_identity,
        a.jwks_url == b.jwks_url,
    ensures
        merged_source(a, b) == merged_source(b, a),
{
    let left = with_missing(a.allowed_algorithms, b.allowed_algorithms);
    let right = with_missing(b.allowed_algorithms, a.allowed_algorithms);
    assert forall|x: JwtAlgorithm| left.contains(x) <==> right.contains(x) by {
        lemma_with_missing(a.allowed_algorithms, b.allowed_algorithms, x);
        lemma_with_missing(b.allowed_algorithms, a.allowed_algorithms, x);
    }
    lemma_with_missing(a.allowed_algorithms, b.allowed_algorithms, JwtAlgorithm::Es256);
    lemma_with_missing(b.allowed_algorithms, a.allowed_algorithms, JwtAlgorithm::Es256);
    lemma_by_name_unique(left, right);
}

/// The policies of one source merge to the same policy in any grouping.
pub proof fn law_merge_is_associative(a: SourceView, b: SourceView, c: SourceView)
    requires
        listed_once(a),
        listed_once(b),
        listed_once(c),
    ensures
        merged_source(merged_source(a, b), c) == merged_source(a, merged_source(b, c)),
{
    let ab = with_missing(a.allowed_algorithms, b.allowed_algorithms);
    let bc = with_missing(b.allowed_algorithms, c.allowed_algorithms);
    let left = with_missing(by_name(ab), c.allowed_algorithms);
    let right = with_missing(a.allowed_algorithms, by_name(bc));
    lemma_with_missing(a.allowed_algorithms, b.allowed_algorithms, JwtAlgorithm::Es256);
    lemma_with_missing(b.allowed_algorithms, c.allowed_algorithms, JwtAlgorithm::Es256);
    lemma_by_name_no_duplicates(ab);
    lemma_by_name_no_duplicates(bc);
    lemma_with_missing(by_name(ab), c.allowed_algorithms, JwtAlgorithm::Es256);
    lemma_with_missing(a.allowed_algorithms, by_name(bc), JwtAlgorithm::Es256);
    assert forall|x: JwtAlgorithm| left.contains(x) <==> right.contains(x) by {
        lemma_with_missing(a.allowed_algorithms, b.allowed_algorithms, x);
        lemma_with_missing(b.allowed_algorithms, c.allowed_algorithms, x);
        lemma_by_name_contains(ab, x);
        lemma_by_name_contains(bc, x);
        lemma_with_missing(by_name(ab), c.allowed_algorithms, x);
        lemma_with_missing(a.allowed_algorithms, by_name(bc), x);
    }
    lemma_by_name_unique(left, right);
}

/// A policy merged a second time changes nothing.
pub proof fn law_merge_is_idempotent(a: SourceView, b: SourceView)
    requires
        listed_once(a),
        listed_once(b),
    ensures
        merged_source(merged_source(a, b), b) == merged_source(a, b),
        listed_once(merged_source(a, b)),
{
    let ab = with_missing(a.allowed_algorithms, b.allowed_algorithms);
    lemma_with_missing(a.allowed_algorithms, b.allowed_algorithms, JwtAlgorithm::Es256);
    lemma_by_name_no_duplicates(ab);
    let again = with_missing(by_name(ab), b.allowed_algorithms);
    lemma_with_missing(by_name(ab), b.allowed_algorithms, JwtAlgorithm::Es256);
    assert forall|x: JwtAlgorithm| again.contains(x) <==> ab.contains(x) by {
        lemma_with_missing(a.allowed_algorithms, b.allowed_algorithms, x);
        lemma_by_name_contains(ab, x);
        lemma_with_missing(by_name(ab), b.allowed_algorithms, x);
    }
    lemma_by_name_unique(again, ab);
}

/// A source's algorithms are listed once each, in the order of their names.
pub open spec fn canonical(source: SourceView) -> bool {
    listed_once(source) && by_name(source.allowed_algorithms) == source.allowed_algorithms
}

/// The sources taken from verification policies are in canonical form, and none of them accepts a
/// shared secret.
pub proof fn law_policy_sources_are_canonical(list: Seq<JwtAlgorithm>, source: SourceView)
    requires
        source.allowed_algorithms == asymmetric(list),
    ensures
        canonical(source),
        !source.allowed_algorithms.contains(JwtAlgorithm::Hs256),
{
    let algorithms = asymmetric(list);
    lemma_only_once(algorithms, JwtAlgorithm::Es256);
    lemma_only_once(algorithms, JwtAlgorithm::Hs256);
    lemma_only_once(algorithms, JwtAlgorithm::Rs256);
    if list.contains(JwtAlgorithm::Es256) {
        assert(algorithms[0] == JwtAlgorithm::Es256);
    }
    if list.contains(JwtAlgorithm::Rs256) {
        assert(algorithms.last() == JwtAlgorithm::Rs256);
        assert(algorithms[algorithms.len() - 1] == JwtAlgorithm::Rs256);
    }
    assert(by_name(algorithms) =~= algorithms);
}

/// A policy in canonical form merged with itself is itself.
proof fn lemma_merge_with_itself(source: SourceView)
    requires
        canonical(source),
    ensures
        merged_source(source, source) == source,
{
    let list = source.allowed_algorithms;
    let both = with_missing(list, list);
    lemma_with_missing(list, list, JwtAlgorithm::Es256);
    assert forall|x: JwtAlgorithm| both.contains(x) <==> list.contains(x) by {
        lemma_with_missing(list, list, x);
    }
    lemma_by_name_unique(both, list);
}

/// A merged policy is in canonical form.
proof fn lemma_merge_is_canonical(a: SourceView, b: SourceView)
    requires
        listed_once(a),
        listed_once(b),
    ensures
        canonical(merged_source(a, b)),
{
    let ab = with_missing(a.allowed_algorithms, b.allowed_algorithms);
    lemma_with_missing(a.allowed_algorithms, b.allowed_algorithms, JwtAlgorithm::Es256);
    lemma_by_name_no_duplicates(ab);
    assert forall|x: JwtAlgorithm| by_name(ab).contains(x) <==> ab.contains(x) by {
        lemma_by_name_contains(ab, x);
    }
    lemma_by_name_unique(by_name(ab), ab);
}

/// Every source of the cache lists its algorithms once each.
pub open spec fn all_listed_once(cache: Map<Seq<char>, EntryView>) -> bool {
    forall|id: Seq<char>| #[trigger] cache.contains_key(id) ==> listed_once(cache[id].source)
}

/// Making a source known a second time changes nothing.
pub proof fn law_registration_is_idempotent(cache: Map<Seq<char>, EntryView>, source: SourceView)
    requires
        all_listed_once(cache),
        canonical(source),
    ensures
        registered(registered(cache, source), source) == registered(cache, source),
{
    let id = source.source_identity;
    if cache.contains_key(id) {
        law_merge_is_idempotent(cache[id].source, source);
    } else {
        lemma_merge_with_itself(source);
    }
    assert(registered(registered(cache, source), source) =~= registered(cache, source));
}

/// Sources of one identity have one address, and each is in canonical form.
pub open spec fn coherent(sources: Seq<SourceView>) -> bool {
    &&& forall|i: int| 0 <= i < sources.len() ==> canonical(#[trigger] sources[i])
    &&& forall|i: int, j: int|
        0 <= i < sources.len() && 0 <= j < sources.len() && (
        #[trigger] sources[i]).source_identity == (#[trigger] sources[j]).source_identity
            ==> sources[i].jwks_url == sources[j].jwks_url
}

proof fn lemma_merged_sources(sources: Seq<SourceView>)
    requires
        coherent(sources),
    ensures
        forall|id: Seq<char>| #[trigger]
            merged_sources(sources).contains_key(id) ==> canonical(merged_sources(sources)[id])
                && merged_sources(sources)[id].source_identity == id && exists|i: int|
                0 <= i < sources.len() && (#[trigger] sources[i]).source_identity == id
                    && sources[i].jwks_url == merged_sources(sources)[id].jwks_url,
    decreases sources.len(),
{
    if sources.len() > 0 {
        let before = sources.drop_last();
        assert(coherent(before)) by {
            assert forall|i: int| 0 <= i < before.len() implies canonical(#[trigger] before[i]) by {
                assert(before[i] == sources[i]);
            }
            assert forall|i: int, j: int|
                0 <= i < before.len() && 0 <= j < before.len() && (
                #[trigger] before[i]).source_identity == (
                #[trigger] before[j]).source_identity implies before[i].jwks_url
                == before[j].jwks_url by {
                assert(before[i] == sources[i] && before[j] == sources[j]);
            }
        }
        lemma_merged_sources(before);
        let n = sources.len() - 1;
        let last = sources[n];
        let then = merged_sources(before);
        let now = merged_sources(sources);
        assert(canonical(sources[n]));
        assert forall|id: Seq<char>| #[trigger] now.contains_key(id) implies canonical(now[id])
            && now[id].source_identity == id && exists|i: int|
            0 <= i < sources.len() && (#[trigger] sources[i]).source_identity == id
                && sources[i].jwks_url == now[id].jwks_url by {
            if then.contains_key(id) {
                let i = choose|i: int|
                    0 <= i < before.len() && (#[trigger] before[i]).source_identity == id
                        && before[i].jwks_url == then[id].jwks_url;
                assert(sources[i] == before[i]);
                if id == last.source_identity {
                    lemma_merge_is_canonical(then[id], last);
                }
            } else {
                assert(sources[n].source_identity == id);
            }
        }
    }
}

/// The order of two neighbouring policies does not matter to what all of them merge to.
pub proof fn law_source_order_is_irrelevant(sources: Seq<SourceView>, a: SourceView, b: SourceView)
    requires
        coherent(sources.push(a).push(b)),
    ensures
        merged_sources(sources.push(a).push(b)) == merged_sources(sources.push(b).push(a)),
{
    let all = sources.push(a).push(b);
    assert(sources.push(a).push(b).drop_last() =~= sources.push(a));
    assert(sources.push(b).push(a).drop_last() =~= sources.push(b));
    assert(sources.push(a).drop_last() =~= sources);
    assert(sources.push(b).drop_last() =~= sources);
    assert(coherent(sources)) by {
        assert forall|i: int| 0 <= i < sources.len() implies canonical(#[trigger] sources[i]) by {
            assert(all[i] == sources[i]);
        }
        assert forall|i: int, j: int|
            0 <= i < sources.len() && 0 <= j < sources.len() && (
            #[trigger] sources[i]).source_identity == (
            #[trigger] sources[j]).source_identity implies sources[i].jwks_url
            == sources[j].jwks_url by {
            assert(all[i] == sources[i] && all[j] == sources[j]);
        }
    }
    lemma_merged_sources(sources);
    let n = sources.len() as int;
    assert(all[n] == a && all[n + 1] == b);
    assert(canonical(all[n]) && canonical(all[n + 1]));
    let then = merged_sources(sources);
    assert(merged_sources(sources.push(a)) == with_policy(then, a));
    assert(merged_sources(sources.push(b)) == with_policy(then, b));
    assert(merged_sources(sources.push(a).push(b)) == with_policy(with_policy(then, a), b));
    assert(merged_sources(sources.push(b).push(a)) == with_policy(with_policy(then, b), a));
    if a.source_identity == b.source_identity {
        assert(all[n].jwks_url == all[n + 1].jwks_url);
        let id = a.source_identity;
        law_merge_is_commutative(a, b);
        if then.contains_key(id) {
            let m = then[id];
            law_merge_is_associative(m, a, b);
            law_merge_is_associative(m, b, a);
        }
    }
    assert(with_policy(with_policy(then, a), b) =~= with_policy(with_policy(then, b), a));
}

/// A reconciliation leaves exactly the active sources, keeps what is known of those that stay, and
/// starts the others with nothing.
pub proof fn law_reconciliation_keeps_active_sources(
    cache: Map<Seq<char>, EntryView>,
    active: Map<Seq<char>, SourceView>,
    id: Seq<char>,
)
    ensures
        reconciled(cache, active).contains_key(id) <==> active.contains_key(id),
        active.contains_key(id) && active[id].source_identity == id ==> {
            let after = reconciled(cache, active)[id];
            if cache.contains_key(id) {
                after == (EntryView {
                    source: merged_source(cache[id].source, active[id]),
                    ..cache[id]
                })
            } else {
                after.state == JwtJwksCacheState::NeverFetched && after.active_keys.len() == 0
                    && after.source == active[id]
            }
        },
{
}

/// A second reconciliation with the same sources changes nothing.
pub proof fn law_reconciliation_is_idempotent(
    cache: Map<Seq<char>, EntryView>,
    active: Map<Seq<char>, SourceView>,
)
    requires
        all_listed_once(cache),
        forall|id: Seq<char>| #[trigger]
            active.contains_key(id) ==> canonical(active[id]) && active[id].source_identity == id,
    ensures
        reconciled(reconciled(cache, active), active) == reconciled(cache, active),
{
    let once = reconciled(cache, active);
    let twice = reconciled(once, active);
    assert forall|id: Seq<char>| #[trigger] twice.contains_key(id) implies twice[id]
        == once[id] by {
        assert(active.contains_key(id));
        if cache.contains_key(id) {
            law_merge_is_idempotent(cache[id].source, active[id]);
        } else {
            lemma_merge_with_itself(active[id]);
        }
    }
    assert(twice =~= once);
}

/// The address that operators are shown is a prefix of the configured one, holds neither a query nor
/// a fragment, and shows as itself.
pub proof fn law_public_endpoint_hides_query(url: Seq<char>)
    ensures
        endpoint_of(url).is_prefix_of(url),
        !endpoint_of(url).contains('?'),
        !endpoint_of(url).contains('#'),
        endpoint_of(endpoint_of(url)) == endpoint_of(url),
{
    lemma_span(url, ends_path());
    let shown = endpoint_of(url);
    assert forall|i: int| 0 <= i < shown.len() implies !ends_path()(#[trigger] shown[i]) by {
        assert(shown[i] == url[i]);
    }
    assert(shown =~= url.subrange(0, shown.len() as int));
    lemma_span_is(shown, ends_path(), shown.len() as int);
    assert(endpoint_of(shown) =~= shown);
}

/// What is taken from a fetched document: keys for an allowed public-key algorithm that the key
/// library accepts for it, an RSA key only with a modulus of the smallest accepted length or more.
pub proof fn law_accepted_keys_are_sound(
    keys: Seq<FetchedJwk>,
    allowed: Seq<JwtAlgorithm>,
    i: int,
)
    requires
        0 <= i < accepted(keys, allowed).len(),
    ensures
        ({
            let key = accepted(keys, allowed)[i];
            &&& allowed.contains(key.alg)
            &&& key.alg != JwtAlgorithm::Hs256
            &&& jwk_verdict(key.jwk, key.material, key.alg) is Ok
            &&& key.alg == JwtAlgorithm::Rs256 ==> (components_of(key.jwk, key.alg) matches Ok(
                ComponentsView::Rsa { n, .. },
            ) && bit_length(n) >= MIN_RSA_KEY_BITS)
        }),
    decreases keys.len(),
{
    let before = accepted(keys.drop_last(), allowed);
    if i < before.len() {
        law_accepted_keys_are_sound(keys.drop_last(), allowed, i);
    }
}

/// The usable keys of a document without a duplicate have distinct key ids.
pub proof fn law_accepted_kids_are_distinct(fields: Seq<JwkFields>, i: int, j: int)
    requires
        first_duplicate(fields) is None,
        0 <= i < j < fields.len(),
        fields[i].kid is Some,
    ensures
        fields[i].kid != fields[j].kid,
    decreases fields.len(),
{
    let before = fields.drop_last();
    if j < before.len() {
        law_accepted_kids_are_distinct(before, i, j);
        assert(before[i] == fields[i] && before[j] == fields[j]);
    } else {
        lemma_kids_contain(before, i);
        assert(before[i] == fields[i]);
    }
}

proof fn lemma_kids_contain(fields: Seq<JwkFields>, i: int)
    requires
        0 <= i < fields.len(),
        fields[i].kid is Some,
    ensures
        kids(fields).contains(fields[i].kid->0),
    decreases fields.len(),
{
    if i < fields.len() - 1 {
        lemma_kids_contain(fields.drop_last(), i);
        assert(fields.drop_last()[i] == fields[i]);
    }
}

} // verus!
