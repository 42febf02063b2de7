//! The key sets fetched from remote sources, and how long each may be used.
use crate::admission::jwks_refresh::{
    equivalent, jwt_verification_keys_equivalent, JwtJwksFetchFailure, JwtJwksFetchFailureReason,
};
use crate::admission::jwks_source::{
    cooldown_of, merge_jwks_source_config, merged_source, JwtJwksSourceConfig, SourceView,
};
use crate::admission::key_resolution::{key_kid, static_key_metadata};
use crate::config::{Nanos, RuntimeJwtVerificationKey, WallTime, LONGEST, SECOND};
use crate::keyed::{
    as_map, distinct, find_key, key_at, lemma_map_at, lemma_map_push, lemma_map_remove,
    lemma_map_update,
};
use crate::text::{as_deref, opt, owned, same_option, texts};
use vstd::prelude::*;

verus! {

/// What is known of a source's keys.
#[derive(Debug, Clone, Copy, PartialEq, Eq, Structural)]
pub enum JwtJwksCacheState {
    NeverFetched,
    Fresh,
    Stale,
    RefreshFailedRetained,
    QuarantinedRetained,
    EmptyUnusable,
}

/// A usable key, and until when it may be used once another key set has replaced it.
#[derive(Debug)]
pub struct JwtJwksActiveKey {
    pub key: RuntimeJwtVerificationKey,
    pub retained_until: Option<Nanos>,
}

impl Clone for JwtJwksActiveKey {
    fn clone(&self) -> (r: Self)
        ensures
            r == *self,
    {
        JwtJwksActiveKey { key: self.key.clone(), retained_until: self.retained_until }
    }
}

impl JwtJwksActiveKey {
    /// The key may still be used at `now`.
    pub open spec fn live(self, now: Nanos) -> bool {
        match self.retained_until {
            None => true,
            Some(until) => now <= until,
        }
    }

    fn is_live(&self, now: Nanos) -> (r: bool)
        ensures
            r == self.live(now),
    {
        match self.retained_until {
            None => true,
            Some(until) => now <= until,
        }
    }
}

/// The keys that may still be used at `now`, in their order.
pub open spec fn live_keys(keys: Seq<JwtJwksActiveKey>, now: Nanos) -> Seq<JwtJwksActiveKey>
    decreases keys.len(),
{
    if keys.len() == 0 {
        Seq::empty()
    } else if keys.last().live(now) {
        live_keys(keys.drop_last(), now).push(keys.last())
    } else {
        live_keys(keys.drop_last(), now)
    }
}

/// What the cache knows of one source.
#[derive(Debug)]
pub struct JwtJwksCacheEntry {
    pub source: JwtJwksSourceConfig,
    pub state: JwtJwksCacheState,
    pub active_keys: Vec<JwtJwksActiveKey>,
    pub refresh_in_flight: bool,
    pub last_refresh_started_at: Option<Nanos>,
    pub last_refresh_started_wall: Option<WallTime>,
    pub last_refresh_completed_at: Option<Nanos>,
    pub last_refresh_completed_wall: Option<WallTime>,
    pub last_success_at: Option<Nanos>,
    pub last_success_wall: Option<WallTime>,
    pub last_failure_at: Option<Nanos>,
    pub last_failure_wall: Option<WallTime>,
    pub last_error: Option<String>,
    pub last_failure_reason: Option<JwtJwksFetchFailureReason>,
    pub next_on_demand_refresh_at: Option<Nanos>,
}

/// What an entry holds.
pub struct EntryView {
    pub source: SourceView,
    pub state: JwtJwksCacheState,
    pub active_keys: Seq<JwtJwksActiveKey>,
    pub refresh_in_flight: bool,
    pub last_refresh_started_at: Option<Nanos>,
    pub last_refresh_started_wall: Option<WallTime>,
    pub last_refresh_completed_at: Option<Nanos>,
    pub last_refresh_completed_wall: Option<WallTime>,
    pub last_success_at: Option<Nanos>,
    pub last_success_wall: Option<WallTime>,
    pub last_failure_at: Option<Nanos>,
    pub last_failure_wall: Option<WallTime>,
    pub last_error: Option<Seq<char>>,
    pub last_failure_reason: Option<JwtJwksFetchFailureReason>,
    pub next_on_demand_refresh_at: Option<Nanos>,
}

impl View for JwtJwksCacheEntry {
    type V = EntryView;

    open spec fn view(&self) -> EntryView {
        EntryView {
            source: self.source@,
            state: self.state,
            active_keys: self.active_keys@,
            refresh_in_flight: self.refresh_in_flight,
            last_refresh_started_at: self.last_refresh_started_at,
            last_refresh_started_wall: self.last_refresh_started_wall,
            last_refresh_completed_at: self.last_refresh_completed_at,
            last_refresh_completed_wall: self.last_refresh_completed_wall,
            last_success_at: self.last_success_at,
            last_success_wall: self.last_success_wall,
            last_failure_at: self.last_failure_at,
            last_failure_wall: self.last_failure_wall,
            last_error: opt(self.last_error),
            last_failure_reason: self.last_failure_reason,
            next_on_demand_refresh_at: self.next_on_demand_refresh_at,
        }
    }
}

/// A source of which nothing has been fetched.
pub open spec fn fresh_entry(source: SourceView) -> EntryView {
    EntryView {
        source,
        state: JwtJwksCacheState::NeverFetched,
        active_keys: Seq::empty(),
        refresh_in_flight: false,
        last_refresh_started_at: None,
        last_refresh_started_wall: None,
        last_refresh_completed_at: None,
        last_refresh_completed_wall: None,
        last_success_at: None,
        last_success_wall: None,
        last_failure_at: None,
        last_failure_wall: None,
        last_error: None,
        last_failure_reason: None,
        next_on_demand_refresh_at: None,
    }
}

fn new_jwks_cache_entry(source: JwtJwksSourceConfig) -> (r: JwtJwksCacheEntry)
    ensures
        r@ == fresh_entry(source@),
{
    let r = JwtJwksCacheEntry {
        source,
        state: JwtJwksCacheState::NeverFetched,
        active_keys: Vec::new(),
        refresh_in_flight: false,
        last_refresh_started_at: None,
        last_refresh_started_wall: None,
        last_refresh_completed_at: None,
        last_refresh_completed_wall: None,
        last_success_at: None,
        last_success_wall: None,
        last_failure_at: None,
        last_failure_wall: None,
        last_error: None,
        last_failure_reason: None,
        next_on_demand_refresh_at: None,
    };
    assert(r@.active_keys =~= fresh_entry(source@).active_keys);
    r
}

/// Keys just fetched: none of them is bounded in time.
pub open spec fn as_active(keys: Seq<RuntimeJwtVerificationKey>) -> Seq<JwtJwksActiveKey> {
    keys.map_values(
        |key: RuntimeJwtVerificationKey| JwtJwksActiveKey { key, retained_until: None },
    )
}

/// A key set holds a key equivalent to `key`, or one with its key id.
pub open spec fn supersedes(keys: Seq<JwtJwksActiveKey>, key: RuntimeJwtVerificationKey) -> bool {
    exists|i: int| 0 <= i < keys.len() && replaces((#[trigger] keys[i]).key, key)
}

/// `new` takes the place of `key`: it is equivalent to it, or has its key id.
pub open spec fn replaces(
    new: RuntimeJwtVerificationKey,
    key: RuntimeJwtVerificationKey,
) -> bool {
    equivalent(new, key) || (key_kid(key) is Some && key_kid(new) == key_kid(key))
}

/// `keys` followed by those of `olds` that it does not supersede, each kept until `until`.
pub open spec fn with_retained(
    keys: Seq<JwtJwksActiveKey>,
    olds: Seq<JwtJwksActiveKey>,
    until: Nanos,
) -> Seq<JwtJwksActiveKey>
    decreases olds.len(),
{
    if olds.len() == 0 {
        keys
    } else {
        let sofar = with_retained(keys, olds.drop_last(), until);
        if supersedes(sofar, olds.last().key) {
            sofar
        } else {
            sofar.push(JwtJwksActiveKey { key: olds.last().key, retained_until: Some(until) })
        }
    }
}

/// What the cache tells of a source at a point in time.
pub open spec fn state_at(entry: EntryView, now: Nanos) -> JwtJwksCacheState {
    if live_keys(entry.active_keys, now).len() == 0 {
        if entry.state == JwtJwksCacheState::NeverFetched {
            JwtJwksCacheState::NeverFetched
        } else {
            JwtJwksCacheState::EmptyUnusable
        }
    } else {
        match entry.last_success_at {
            None => entry.state,
            Some(success) => {
                let age = if now < success { 0 } else { now - success };
                let retained = entry.state == JwtJwksCacheState::RefreshFailedRetained
                    || entry.state == JwtJwksCacheState::QuarantinedRetained;
                if age > stale_limit(entry.source) {
                    JwtJwksCacheState::EmptyUnusable
                } else if retained {
                    entry.state
                } else if age <= entry.source.cache_ttl {
                    JwtJwksCacheState::Fresh
                } else {
                    JwtJwksCacheState::Stale
                }
            },
        }
    }
}

/// The age up to which a source's keys are used when it cannot be refreshed: never under its time
/// to live, and never over the longest length of time.
pub open spec fn stale_limit(source: SourceView) -> int {
    let sum = source.cache_ttl + source.stale_if_error;
    let capped = if sum > LONGEST {
        LONGEST as int
    } else {
        sum
    };
    if capped < source.cache_ttl {
        source.cache_ttl as int
    } else {
        capped
    }
}

impl JwtJwksCacheEntry {
    pub fn active_keys(&self, now: Nanos) -> (r: Vec<JwtJwksActiveKey>)
        ensures
            r@ == live_keys(self.active_keys@, now),
    {
        let mut r: Vec<JwtJwksActiveKey> = Vec::new();
        let mut i: usize = 0;
        while i < self.active_keys.len()
            invariant
                i <= self.active_keys.len(),
                r@ == live_keys(self.active_keys@.take(i as int), now),
            decreases self.active_keys.len() - i,
        {
            assert(self.active_keys@.take(i + 1).drop_last() =~= self.active_keys@.take(i as int));
            if self.active_keys[i].is_live(now) {
                r.push(self.active_keys[i].clone());
            }
            i = i + 1;
        }
        assert(self.active_keys@.take(i as int) =~= self.active_keys@);
        r
    }

    pub fn prune_expired_keys(&mut self, now: Nanos)
        ensures
            final(self)@ == (EntryView {
                active_keys: live_keys(old(self)@.active_keys, now),
                ..old(self)@
            }),
    {
        let kept = self.active_keys(now);
        self.active_keys = kept;
    }

    pub fn rollover_keys(&self, new_keys: Vec<RuntimeJwtVerificationKey>, now: Nanos) -> (r: Vec<
        JwtJwksActiveKey,
    >)
        requires
            now + self.source.stale_if_error <= Nanos::MAX,
        ensures
            r@ == with_retained(
                as_active(new_keys@),
                live_keys(self.active_keys@, now),
                (now + self.source.stale_if_error) as Nanos,
            ),
    {
        let overlap_until: Nanos = now + self.source.stale_if_error;
        let mut merged: Vec<JwtJwksActiveKey> = Vec::new();
        let mut i: usize = 0;
        while i < new_keys.len()
            invariant
                i <= new_keys.len(),
                merged@ == as_active(new_keys@.take(i as int)),
            decreases new_keys.len() - i,
        {
            merged.push(JwtJwksActiveKey { key: new_keys[i].clone(), retained_until: None });
            i = i + 1;
            assert(merged@ =~= as_active(new_keys@.take(i as int)));
        }
        assert(new_keys@.take(i as int) =~= new_keys@);
        let olds = self.active_keys(now);
        let mut k: usize = 0;
        while k < olds.len()
            invariant
                k <= olds.len(),
                merged@ == with_retained(
                    as_active(new_keys@),
                    olds@.take(k as int),
                    overlap_until,
                ),
            decreases olds.len() - k,
        {
            assert(olds@.take(k + 1).drop_last() =~= olds@.take(k as int));
            if !is_superseded(&merged, &olds[k].key) {
                merged.push(
                    JwtJwksActiveKey {
                        key: olds[k].key.clone(),
                        retained_until: Some(overlap_until),
                    },
                );
            }
            k = k + 1;
        }
        assert(olds@.take(k as int) =~= olds@);
        merged
    }

    pub fn effective_state(&self, now: Nanos) -> (r: JwtJwksCacheState)
        ensures
            r == state_at(self@, now),
    {
        if self.active_keys(now).len() == 0 {
            return match self.state {
                JwtJwksCacheState::NeverFetched => JwtJwksCacheState::NeverFetched,
                _ => JwtJwksCacheState::EmptyUnusable,
            };
        }
        let last_success_at = match self.last_success_at {
            Some(at) => at,
            None => {
                return self.state;
            },
        };
        let age: Nanos = now.saturating_sub(last_success_at);
        if age <= self.source.cache_ttl {
            return match self.state {
                JwtJwksCacheState::RefreshFailedRetained => JwtJwksCacheState::RefreshFailedRetained,
                JwtJwksCacheState::QuarantinedRetained => JwtJwksCacheState::QuarantinedRetained,
                _ => JwtJwksCacheState::Fresh,
            };
        }
        let sum: Nanos = self.source.cache_ttl.saturating_add(self.source.stale_if_error);
        let limit: Nanos = if sum > LONGEST { LONGEST } else { sum };
        if age <= limit {
            return match self.state {
                JwtJwksCacheState::RefreshFailedRetained => JwtJwksCacheState::RefreshFailedRetained,
                JwtJwksCacheState::QuarantinedRetained => JwtJwksCacheState::QuarantinedRetained,
                _ => JwtJwksCacheState::Stale,
            };
        }
        JwtJwksCacheState::EmptyUnusable
    }
}

/// The key id of a key with consistent metadata.
fn effective_kid(key: &RuntimeJwtVerificationKey) -> (r: Option<String>)
    ensures
        opt(r) == key_kid(*key),
{
    match static_key_metadata(key) {
        Ok(metadata) => metadata.kid,
        Err(_) => None,
    }
}

fn is_superseded(keys: &Vec<JwtJwksActiveKey>, key: &RuntimeJwtVerificationKey) -> (r: bool)
    ensures
        r == supersedes(keys@, *key),
{
    let kid = effective_kid(key);
    let mut i: usize = 0;
    while i < keys.len()
        invariant
            i <= keys.len(),
            opt(kid) == key_kid(*key),
            forall|k: int| 0 <= k < i ==> !replaces((#[trigger] keys@[k]).key, *key),
        decreases keys.len() - i,
    {
        if jwt_verification_keys_equivalent(&keys[i].key, key) {
            assert(replaces(keys@[i as int].key, *key));
            return true;
        }
        if kid.is_some() {
            let candidate = effective_kid(&keys[i].key);
            if same_option(as_deref(&candidate), as_deref(&kid)) {
                assert(replaces(keys@[i as int].key, *key));
                return true;
            }
        }
        i = i + 1;
    }
    false
}

/// What a caller sees of a source at a point in time.
#[derive(Debug)]
pub struct JwtJwksCacheSnapshot {
    pub source: JwtJwksSourceConfig,
    pub state: JwtJwksCacheState,
    pub active_keys: Vec<RuntimeJwtVerificationKey>,
    pub last_error: Option<String>,
    pub last_failure_reason: Option<JwtJwksFetchFailureReason>,
    pub last_success_at: Option<Nanos>,
    pub last_refresh_started_wall: Option<WallTime>,
    pub last_success_wall: Option<WallTime>,
}

/// What a snapshot holds.
pub struct SnapshotView {
    pub source: SourceView,
    pub state: JwtJwksCacheState,
    pub active_keys: Seq<RuntimeJwtVerificationKey>,
    pub last_error: Option<Seq<char>>,
    pub last_failure_reason: Option<JwtJwksFetchFailureReason>,
    pub last_success_at: Option<Nanos>,
    pub last_refresh_started_wall: Option<WallTime>,
    pub last_success_wall: Option<WallTime>,
}

impl View for JwtJwksCacheSnapshot {
    type V = SnapshotView;

    open spec fn view(&self) -> SnapshotView {
        SnapshotView {
            source: self.source@,
            state: self.state,
            active_keys: self.active_keys@,
            last_error: opt(self.last_error),
            last_failure_reason: self.last_failure_reason,
            last_success_at: self.last_success_at,
            last_refresh_started_wall: self.last_refresh_started_wall,
            last_success_wall: self.last_success_wall,
        }
    }
}

/// The keys themselves, without the bounds on their use.
pub open spec fn bare_keys(keys: Seq<JwtJwksActiveKey>) -> Seq<RuntimeJwtVerificationKey> {
    keys.map_values(|active: JwtJwksActiveKey| active.key)
}

/// The snapshot of an entry at `now`.
pub open spec fn snapshot_of(entry: EntryView, now: Nanos) -> SnapshotView {
    SnapshotView {
        source: entry.source,
        state: state_at(entry, now),
        active_keys: bare_keys(live_keys(entry.active_keys, now)),
        last_error: entry.last_error,
        last_failure_reason: entry.last_failure_reason,
        last_success_at: entry.last_success_at,
        last_refresh_started_wall: entry.last_refresh_started_wall,
        last_success_wall: entry.last_success_wall,
    }
}

/// The snapshot of the source `id`, where the cache knows it.
pub open spec fn snapshot_in(
    cache: Map<Seq<char>, EntryView>,
    id: Seq<char>,
    now: Nanos,
) -> Option<SnapshotView> {
    if cache.contains_key(id) {
        Some(snapshot_of(cache[id], now))
    } else {
        None
    }
}

/// The view of an optional snapshot.
pub open spec fn opt_snapshot(snapshot: Option<JwtJwksCacheSnapshot>) -> Option<SnapshotView> {
    match snapshot {
        Some(snapshot) => Some(snapshot@),
        None => None,
    }
}

/// The cache after `source` was made known to it.
pub open spec fn registered(
    cache: Map<Seq<char>, EntryView>,
    source: SourceView,
) -> Map<Seq<char>, EntryView> {
    let id = source.source_identity;
    cache.insert(id, entry_for(cache, source))
}

/// The entry of a source that is made known: what is known already, under the merged policy.
pub open spec fn entry_for(cache: Map<Seq<char>, EntryView>, source: SourceView) -> EntryView {
    let id = source.source_identity;
    if cache.contains_key(id) {
        EntryView { source: merged_source(cache[id].source, source), ..cache[id] }
    } else {
        fresh_entry(source)
    }
}

/// The cache after each of `sources` was made known to it in turn.
pub open spec fn all_registered(
    cache: Map<Seq<char>, EntryView>,
    sources: Seq<JwtJwksSourceConfig>,
) -> Map<Seq<char>, EntryView>
    decreases sources.len(),
{
    if sources.len() == 0 {
        cache
    } else {
        registered(all_registered(cache, sources.drop_last()), sources.last()@)
    }
}

/// The sources by identity, the last of each.
pub open spec fn by_identity(sources: Seq<JwtJwksSourceConfig>) -> Map<Seq<char>, SourceView>
    decreases sources.len(),
{
    if sources.len() == 0 {
        Map::empty()
    } else {
        by_identity(sources.drop_last()).insert(
            sources.last().source_identity@,
            sources.last()@,
        )
    }
}

/// The cache with exactly the active sources: those already known under the merged policy, the
/// others with nothing fetched.
pub open spec fn reconciled(
    cache: Map<Seq<char>, EntryView>,
    active: Map<Seq<char>, SourceView>,
) -> Map<Seq<char>, EntryView> {
    Map::new(
        |id: Seq<char>| active.contains_key(id),
        |id: Seq<char>| entry_for(cache, active[id]),
    )
}

/// An entry whose refresh starts.
pub open spec fn refresh_started(entry: EntryView, now: Nanos, wall: WallTime) -> EntryView {
    EntryView {
        refresh_in_flight: true,
        last_refresh_started_at: Some(now),
        last_refresh_started_wall: Some(wall),
        ..entry
    }
}

/// An entry after a fetch that yielded `keys`.
pub open spec fn refresh_succeeded(
    entry: EntryView,
    now: Nanos,
    wall: WallTime,
    keys: Seq<RuntimeJwtVerificationKey>,
) -> EntryView {
    let done = EntryView {
        refresh_in_flight: false,
        last_refresh_completed_at: Some(now),
        last_refresh_completed_wall: Some(wall),
        last_error: None,
        last_failure_reason: None,
        last_failure_at: None,
        last_failure_wall: None,
        ..entry
    };
    let live = live_keys(entry.active_keys, now);
    if keys.len() > 0 {
        EntryView {
            active_keys: with_retained(
                as_active(keys),
                live,
                (now + entry.source.stale_if_error) as Nanos,
            ),
            last_success_at: Some(now),
            last_success_wall: Some(wall),
            state: JwtJwksCacheState::Fresh,
            ..done
        }
    } else if live.len() == 0 {
        EntryView {
            active_keys: Seq::empty(),
            state: JwtJwksCacheState::EmptyUnusable,
            ..done
        }
    } else {
        EntryView {
            state: JwtJwksCacheState::QuarantinedRetained,
            active_keys: live,
            last_failure_at: Some(now),
            last_failure_wall: Some(wall),
            last_error: Some("empty_jwks: replacement produced no usable keys"@),
            last_failure_reason: Some(JwtJwksFetchFailureReason::MalformedDocument),
            ..done
        }
    }
}

/// An entry after a fetch that failed.
pub open spec fn refresh_failed(
    entry: EntryView,
    now: Nanos,
    wall: WallTime,
    failure: JwtJwksFetchFailure,
) -> EntryView {
    EntryView {
        refresh_in_flight: false,
        last_refresh_completed_at: Some(now),
        last_refresh_completed_wall: Some(wall),
        last_failure_at: Some(now),
        last_failure_wall: Some(wall),
        last_error: Some(failure.text()),
        last_failure_reason: Some(failure.reason),
        state: if live_keys(entry.active_keys, now).len() == 0 {
            JwtJwksCacheState::EmptyUnusable
        } else {
            JwtJwksCacheState::RefreshFailedRetained
        },
        ..entry
    }
}

/// An entry may be refreshed on demand: nothing is under way and its wait is over.
pub open spec fn may_refresh_on_demand(entry: EntryView, now: Nanos) -> bool {
    !entry.refresh_in_flight && match entry.next_on_demand_refresh_at {
        Some(next_allowed) => next_allowed <= now,
        None => true,
    }
}

/// The cached key sets, each under its source's identity.
#[derive(Debug)]
pub struct JwtJwksSharedCache {
    entries: Vec<(String, JwtJwksCacheEntry)>,
}

impl View for JwtJwksSharedCache {
    type V = Map<Seq<char>, EntryView>;

    closed spec fn view(&self) -> Map<Seq<char>, EntryView> {
        as_map(self.entries@)
    }
}

impl JwtJwksSharedCache {
    /// No identity is cached twice.
    pub closed spec fn wf(self) -> bool {
        distinct(self.entries@)
    }

    pub fn new() -> (r: Self)
        ensures
            r.wf(),
            r@ == Map::<Seq<char>, EntryView>::empty(),
    {
        let r = JwtJwksSharedCache { entries: Vec::new() };
        assert(r@ =~= Map::<Seq<char>, EntryView>::empty());
        r
    }

    pub fn register_source(&mut self, source: JwtJwksSourceConfig)
        requires
            old(self).wf(),
        ensures
            final(self).wf(),
            final(self)@ == registered(old(self)@, source@),
    {
        let ghost before = self.entries@;
        match find_key(&self.entries, source.source_identity.as_str()) {
            Some(i) => {
                merge_jwks_source_config(&mut self.entries[i].1.source, &source);
                proof {
                    lemma_map_update(before, self.entries@, i as int);
                }
            },
            None => {
                let id = source.source_identity.clone();
                let entry = (id, new_jwks_cache_entry(source));
                proof {
                    lemma_map_push(before, entry);
                }
                self.entries.push(entry);
            },
        }
    }

    pub fn register_sources(&mut self, sources: &Vec<JwtJwksSourceConfig>)
        requires
            old(self).wf(),
        ensures
            final(self).wf(),
            final(self)@ == all_registered(old(self)@, sources@),
    {
        let mut i: usize = 0;
        while i < sources.len()
            invariant
                i <= sources.len(),
                self.wf(),
                self@ == all_registered(old(self)@, sources@.take(i as int)),
            decreases sources.len() - i,
        {
            assert(sources@.take(i + 1).drop_last() =~= sources@.take(i as int));
            self.register_source(sources[i].clone());
            i = i + 1;
        }
        assert(sources@.take(i as int) =~= sources@);
    }

    /// What is cached of a source.
    pub fn entry(&self, source_identity: &str) -> (r: Option<&JwtJwksCacheEntry>)
        requires
            self.wf(),
        ensures
            match r {
                Some(entry) => self@.contains_key(source_identity@) && entry@
                    == self@[source_identity@],
                None => !self@.contains_key(source_identity@),
            },
    {
        match find_key(&self.entries, source_identity) {
            None => None,
            Some(i) => {
                proof {
                    lemma_map_at(self.entries@, i as int);
                }
                Some(&self.entries[i].1)
            },
        }
    }

    pub fn snapshot(&self, source_identity: &str, now: Nanos) -> (r: Option<JwtJwksCacheSnapshot>)
        requires
            self.wf(),
        ensures
            opt_snapshot(r) == snapshot_in(self@, source_identity@, now),
    {
        match find_key(&self.entries, source_identity) {
            None => None,
            Some(i) => {
                let entry = &self.entries[i].1;
                let live = entry.active_keys(now);
                let mut active_keys: Vec<RuntimeJwtVerificationKey> = Vec::new();
                let mut k: usize = 0;
                while k < live.len()
                    invariant
                        k <= live.len(),
                        active_keys@ == bare_keys(live@.take(k as int)),
                    decreases live.len() - k,
                {
                    active_keys.push(live[k].key.clone());
                    k = k + 1;
                    assert(active_keys@ =~= bare_keys(live@.take(k as int)));
                }
                assert(live@.take(k as int) =~= live@);
                Some(
                    JwtJwksCacheSnapshot {
                        source: entry.source.clone(),
                        state: entry.effective_state(now),
                        active_keys,
                        last_error: entry.last_error.clone(),
                        last_failure_reason: entry.last_failure_reason,
                        last_success_at: entry.last_success_at,
                        last_refresh_started_wall: entry.last_refresh_started_wall,
                        last_success_wall: entry.last_success_wall,
                    },
                )
            },
        }
    }

    pub fn begin_refresh(
        &mut self,
        source: &JwtJwksSourceConfig,
        now: Nanos,
        wall: WallTime,
    ) -> (r: bool)
        requires
            old(self).wf(),
        ensures
            final(self).wf(),
            r == (old(self)@.contains_key(source.source_identity@) && !old(
                self,
            )@[source.source_identity@].refresh_in_flight),
            final(self)@ == if r {
                old(self)@.insert(
                    source.source_identity@,
                    refresh_started(old(self)@[source.source_identity@], now, wall),
                )
            } else {
                old(self)@
            },
    {
        let ghost before = self.entries@;
        match find_key(&self.entries, source.source_identity.as_str()) {
            None => false,
            Some(i) => {
                if self.entries[i].1.refresh_in_flight {
                    return false;
                }
                self.entries[i].1.refresh_in_flight = true;
                self.entries[i].1.last_refresh_started_at = Some(now);
                self.entries[i].1.last_refresh_started_wall = Some(wall);
                proof {
                    lemma_map_update(before, self.entries@, i as int);
                }
                true
            },
        }
    }

    pub fn complete_refresh_success(
        &mut self,
        source_identity: &str,
        now: Nanos,
        wall: WallTime,
        keys: Vec<RuntimeJwtVerificationKey>,
    )
        requires
            old(self).wf(),
            old(self)@.contains_key(source_identity@) && keys@.len() > 0 ==> now + old(
                self,
            )@[source_identity@].source.stale_if_error <= Nanos::MAX,
        ensures
            final(self).wf(),
            final(self)@ == if old(self)@.contains_key(source_identity@) {
                old(self)@.insert(
                    source_identity@,
                    refresh_succeeded(old(self)@[source_identity@], now, wall, keys@),
                )
            } else {
                old(self)@
            },
    {
        let ghost before = self.entries@;
        let i: usize = match find_key(&self.entries, source_identity) {
            None => {
                return ;
            },
            Some(i) => i,
        };
        self.entries[i].1.refresh_in_flight = false;
        self.entries[i].1.last_refresh_completed_at = Some(now);
        self.entries[i].1.last_refresh_completed_wall = Some(wall);
        self.entries[i].1.last_error = None;
        self.entries[i].1.last_failure_reason = None;
        self.entries[i].1.last_failure_at = None;
        self.entries[i].1.last_failure_wall = None;
        if keys.len() == 0 {
            if self.entries[i].1.active_keys(now).len() == 0 {
                self.entries[i].1.active_keys = Vec::new();
                self.entries[i].1.state = JwtJwksCacheState::EmptyUnusable;
                assert(self.entries@[i as int].1@.active_keys =~= Seq::empty());
            } else {
                self.entries[i].1.state = JwtJwksCacheState::QuarantinedRetained;
                self.entries[i].1.prune_expired_keys(now);
                self.entries[i].1.last_failure_at = Some(now);
                self.entries[i].1.last_failure_wall = Some(wall);
                self.entries[i].1.last_error = Some(
                    owned("empty_jwks: replacement produced no usable keys"),
                );
                self.entries[i].1.last_failure_reason = Some(
                    JwtJwksFetchFailureReason::MalformedDocument,
                );
            }
        } else {
            let rolled = self.entries[i].1.rollover_keys(keys, now);
            self.entries[i].1.active_keys = rolled;
            self.entries[i].1.last_success_at = Some(now);
            self.entries[i].1.last_success_wall = Some(wall);
            self.entries[i].1.state = JwtJwksCacheState::Fresh;
        }
        proof {
            lemma_map_update(before, self.entries@, i as int);
        }
    }

    pub fn complete_refresh_failure(
        &mut self,
        source_identity: &str,
        now: Nanos,
        wall: WallTime,
        failure: &JwtJwksFetchFailure,
    )
        requires
            old(self).wf(),
        ensures
            final(self).wf(),
            final(self)@ == if old(self)@.contains_key(source_identity@) {
                old(self)@.insert(
                    source_identity@,
                    refresh_failed(old(self)@[source_identity@], now, wall, *failure),
                )
            } else {
                old(self)@
            },
    {
        let ghost before = self.entries@;
        let i: usize = match find_key(&self.entries, source_identity) {
            None => {
                return ;
            },
            Some(i) => i,
        };
        self.entries[i].1.refresh_in_flight = false;
        self.entries[i].1.last_refresh_completed_at = Some(now);
        self.entries[i].1.last_refresh_completed_wall = Some(wall);
        self.entries[i].1.last_failure_at = Some(now);
        self.entries[i].1.last_failure_wall = Some(wall);
        self.entries[i].1.last_error = Some(failure.to_text());
        self.entries[i].1.last_failure_reason = Some(failure.reason);
        if self.entries[i].1.active_keys(now).len() == 0 {
            self.entries[i].1.state = JwtJwksCacheState::EmptyUnusable;
        } else {
            self.entries[i].1.state = JwtJwksCacheState::RefreshFailedRetained;
        }
        proof {
            lemma_map_update(before, self.entries@, i as int);
        }
    }

    pub fn schedule_on_demand_refresh(
        &mut self,
        source_identity: &str,
        now: Nanos,
        wall: WallTime,
    ) -> (r: Option<JwtJwksSourceConfig>)
        requires
            old(self).wf(),
            now + 30 * SECOND <= Nanos::MAX,
        ensures
            final(self).wf(),
            r is Some <==> old(self)@.contains_key(source_identity@) && may_refresh_on_demand(
                old(self)@[source_identity@],
                now,
            ),
            r matches Some(source) ==> source@ == old(self)@[source_identity@].source,
            final(self)@ == if r is Some {
                let entry = old(self)@[source_identity@];
                old(self)@.insert(
                    source_identity@,
                    EntryView {
                        next_on_demand_refresh_at: Some(
                            (now + cooldown_of(entry.source.refresh_interval)) as Nanos,
                        ),
                        ..refresh_started(entry, now, wall)
                    },
                )
            } else {
                old(self)@
            },
    {
        let ghost before = self.entries@;
        let i: usize = match find_key(&self.entries, source_identity) {
            None => {
                return None;
            },
            Some(i) => i,
        };
        if self.entries[i].1.refresh_in_flight {
            return None;
        }
        if let Some(next_allowed) = self.entries[i].1.next_on_demand_refresh_at {
            if now < next_allowed {
                return None;
            }
        }
        let cooldown: Nanos = self.entries[i].1.source.on_demand_refresh_cooldown();
        self.entries[i].1.refresh_in_flight = true;
        self.entries[i].1.last_refresh_started_at = Some(now);
        self.entries[i].1.last_refresh_started_wall = Some(wall);
        self.entries[i].1.next_on_demand_refresh_at = Some(now + cooldown);
        let source = self.entries[i].1.source.clone();
        proof {
            lemma_map_update(before, self.entries@, i as int);
        }
        Some(source)
    }

    /// Keeps exactly the active sources, and returns their identities. Of several with one identity
    /// the last counts.
    pub fn reconcile_sources(&mut self, active_sources: &Vec<JwtJwksSourceConfig>) -> (r: Vec<
        String,
    >)
        requires
            old(self).wf(),
        ensures
            final(self).wf(),
            final(self)@ == reconciled(old(self)@, by_identity(active_sources@)),
            forall|id: Seq<char>|
                by_identity(active_sources@).contains_key(id) <==> texts(r@).contains(id),
            texts(r@).no_duplicates(),
    {
        let active = Self::latest_by_identity(active_sources);
        let ghost wanted = by_identity(active_sources@);
        self.retain_active(&active);
        let ghost kept = self@;
        let mut ids: Vec<String> = Vec::new();
        let mut i: usize = 0;
        while i < active.len()
            invariant
                i <= active.len(),
                distinct(active@),
                as_map(active@) == wanted,
                forall|k: int|
                    0 <= k < active@.len() ==> (#[trigger] active@[k]).0@
                        == active@[k].1.source_identity@,
                self.wf(),
                ids@.len() == i,
                forall|k: int| 0 <= k < i ==> #[trigger] ids@[k] == active@[k].0,
                kept == old(self)@.restrict(wanted.dom()),
                forall|id: Seq<char>| #[trigger]
                    self@.contains_key(id) <==> kept.contains_key(id) || exists|k: int|
                        0 <= k < i && key_at(active@, id, k),
                forall|k: int|
                    0 <= k < i ==> self@[(#[trigger] active@[k]).0@] == entry_for(
                        old(self)@,
                        active@[k].1@,
                    ),
                forall|k: int|
                    i <= k < active@.len() && kept.contains_key((#[trigger] active@[k]).0@)
                        ==> self@[active@[k].0@] == kept[active@[k].0@],
            decreases active.len() - i,
        {
            let ghost current = self@;
            let ghost id = active@[i as int].0@;
            proof {
                lemma_map_at(active@, i as int);
                assert forall|k: int| 0 <= k < active@.len() && k != i implies (
                #[trigger] active@[k]).0@ != id by {
                    if k < i {
                        assert(active@[k].0@ != active@[i as int].0@);
                    } else {
                        assert(active@[i as int].0@ != active@[k].0@);
                    }
                }
                assert(current.contains_key(id) <==> old(self)@.contains_key(id));
                if current.contains_key(id) {
                    assert(kept.contains_key(id));
                    assert(current[id] == old(self)@[id]);
                }
            }
            self.register_source(active[i].1.clone());
            ids.push(active[i].0.clone());
            assert forall|other: Seq<char>| #[trigger]
                self@.contains_key(other) <==> kept.contains_key(other) || exists|k: int|
                    0 <= k < i + 1 && key_at(active@, other, k) by {
                if other == id {
                    assert(key_at(active@, other, i as int));
                } else if current.contains_key(other) && !kept.contains_key(other) {
                    let k = choose|k: int| 0 <= k < i && key_at(active@, other, k);
                    assert(0 <= k < i + 1 && key_at(active@, other, k));
                }
            }
            i = i + 1;
        }
        proof {
            let goal = reconciled(old(self)@, wanted);
            assert forall|id: Seq<char>| #[trigger]
                self@.contains_key(id) <==> goal.contains_key(id) by {
                if goal.contains_key(id) {
                    let k = choose|k: int| key_at(active@, id, k);
                    assert(0 <= k < i && key_at(active@, id, k));
                }
                if self@.contains_key(id) && !kept.contains_key(id) {
                    let k = choose|k: int| 0 <= k < i && key_at(active@, id, k);
                    lemma_map_at(active@, k);
                }
            }
            assert forall|id: Seq<char>| #[trigger] goal.contains_key(id) implies self@[id]
                == goal[id] by {
                let k = choose|k: int| key_at(active@, id, k);
                lemma_map_at(active@, k);
            }
            assert(self@ =~= goal);
            assert forall|id: Seq<char>|
                wanted.contains_key(id) <==> texts(ids@).contains(id) by {
                if wanted.contains_key(id) {
                    let k = choose|k: int| key_at(active@, id, k);
                    assert(texts(ids@)[k] == id);
                }
                if texts(ids@).contains(id) {
                    let k = choose|k: int|
                        0 <= k < texts(ids@).len() && texts(ids@)[k]
                            == id;
                    assert(ids@[k] == active@[k].0);
                    lemma_map_at(active@, k);
                }
            }
            assert forall|a: int, b: int| 0 <= a < ids@.len() && 0 <= b < ids@.len() && a != b implies texts(
                ids@,
            )[a] != texts(ids@)[b] by {
                let x = if a < b { a } else { b };
                let y = if a < b { b } else { a };
                assert(ids@[x] == active@[x].0 && ids@[y] == active@[y].0);
                assert(active@[x].0@ != active@[y].0@);
            }
        }
        ids
    }

    /// The sources by identity, the last of each.
    fn latest_by_identity(sources: &Vec<JwtJwksSourceConfig>) -> (r: Vec<
        (String, JwtJwksSourceConfig),
    >)
        ensures
            distinct(r@),
            as_map(r@) == by_identity(sources@),
            forall|k: int|
                0 <= k < r@.len() ==> (#[trigger] r@[k]).0@ == r@[k].1.source_identity@,
    {
        let mut r: Vec<(String, JwtJwksSourceConfig)> = Vec::new();
        let mut i: usize = 0;
        assert(as_map(r@) =~= Map::<Seq<char>, SourceView>::empty());
        while i < sources.len()
            invariant
                i <= sources.len(),
                distinct(r@),
                as_map(r@) == by_identity(sources@.take(i as int)),
                forall|k: int|
                    0 <= k < r@.len() ==> (#[trigger] r@[k]).0@ == r@[k].1.source_identity@,
            decreases sources.len() - i,
        {
            assert(sources@.take(i + 1).drop_last() =~= sources@.take(i as int));
            let ghost before = r@;
            let source = sources[i].clone();
            let pair = (source.source_identity.clone(), source);
            match find_key(&r, pair.0.as_str()) {
                Some(at) => {
                    r[at] = pair;
                    proof {
                        lemma_map_update(before, r@, at as int);
                    }
                },
                None => {
                    proof {
                        lemma_map_push(before, pair);
                    }
                    r.push(pair);
                },
            }
            i = i + 1;
        }
        assert(sources@.take(i as int) =~= sources@);
        r
    }

    /// Drops the entries whose identity is not among the active ones.
    fn retain_active(&mut self, active: &Vec<(String, JwtJwksSourceConfig)>)
        requires
            old(self).wf(),
            distinct(active@),
        ensures
            final(self).wf(),
            final(self)@ == old(self)@.restrict(as_map(active@).dom()),
    {
        let mut i: usize = 0;
        while i < self.entries.len()
            invariant
                i <= self.entries.len(),
                distinct(active@),
                distinct(self.entries@),
                as_map(self.entries@).submap_of(as_map(old(self).entries@)),
                forall|id: Seq<char>|
                    as_map(old(self).entries@).contains_key(id) && as_map(active@).contains_key(id)
                        ==> #[trigger] as_map(self.entries@).contains_key(id),
                forall|k: int|
                    0 <= k < i ==> as_map(active@).contains_key((#[trigger] self.entries@[k]).0@),
            decreases self.entries.len() - i,
        {
            let ghost before = self.entries@;
            if find_key(active, self.entries[i].0.as_str()).is_some() {
                i = i + 1;
            } else {
                let _ = self.entries.remove(i);
                proof {
                    lemma_map_remove(before, i as int);
                    assert forall|k: int| 0 <= k < i implies as_map(active@).contains_key(
                        (#[trigger] self.entries@[k]).0@,
                    ) by {
                        assert(self.entries@[k] == before[k]);
                    }
                }
            }
        }
        proof {
            let goal = old(self)@.restrict(as_map(active@).dom());
            assert forall|id: Seq<char>| #[trigger]
                as_map(self.entries@).contains_key(id) implies goal.contains_key(id) by {
                let k = choose|k: int| key_at(self.entries@, id, k);
                assert(as_map(active@).contains_key(self.entries@[k].0@));
            }
            assert(as_map(self.entries@) =~= goal);
        }
    }

    pub fn upsert(&mut self, source_identity: &str, entry: JwtJwksCacheEntry)
        requires
            old(self).wf(),
        ensures
            final(self).wf(),
            final(self)@ == old(self)@.insert(source_identity@, entry@),
    {
        let ghost before = self.entries@;
        let id = owned(source_identity);
        match find_key(&self.entries, source_identity) {
            Some(i) => {
                self.entries[i] = (id, entry);
                proof {
                    lemma_map_update(before, self.entries@, i as int);
                }
            },
            None => {
                let pair = (id, entry);
                proof {
                    lemma_map_push(before, pair);
                }
                self.entries.push(pair);
            },
        }
    }

    pub fn remove(&mut self, source_identity: &str)
        requires
            old(self).wf(),
        ensures
            final(self).wf(),
            final(self)@ == old(self)@.remove(source_identity@),
    {
        let ghost before = self.entries@;
        match find_key(&self.entries, source_identity) {
            Some(i) => {
                let _ = self.entries.remove(i);
                proof {
                    lemma_map_remove(before, i as int);
                }
            },
            None => {
                assert(self@ =~= old(self)@.remove(source_identity@));
            },
        }
    }
}

/// The name of a state.
pub open spec fn state_label(state: JwtJwksCacheState) -> Seq<char> {
    match state {
        JwtJwksCacheState::NeverFetched => "never_fetched"@,
        JwtJwksCacheState::Fresh => "fresh"@,
        JwtJwksCacheState::Stale => "stale"@,
        JwtJwksCacheState::RefreshFailedRetained => "refresh_failed_retained"@,
        JwtJwksCacheState::QuarantinedRetained => "quarantined_retained"@,
        JwtJwksCacheState::EmptyUnusable => "empty_unusable"@,
    }
}

pub fn jwt_jwks_cache_state_name(state: JwtJwksCacheState) -> (r: &'static str)
    ensures
        r@ == state_label(state),
{
    match state {
        JwtJwksCacheState::NeverFetched => "never_fetched",
        JwtJwksCacheState::Fresh => "fresh",
        JwtJwksCacheState::Stale => "stale",
        JwtJwksCacheState::RefreshFailedRetained => "refresh_failed_retained",
        JwtJwksCacheState::QuarantinedRetained => "quarantined_retained",
        JwtJwksCacheState::EmptyUnusable => "empty_unusable",
    }
}

/// Tokens may be verified with the keys of a source in this state.
pub open spec fn usable(state: JwtJwksCacheState) -> bool {
    state != JwtJwksCacheState::NeverFetched && state != JwtJwksCacheState::EmptyUnusable
}

pub fn jwt_jwks_cache_state_usable(state: JwtJwksCacheState) -> (r: bool)
    ensures
        r == usable(state),
{
    match state {
        JwtJwksCacheState::Fresh
        | JwtJwksCacheState::Stale
        | JwtJwksCacheState::RefreshFailedRetained
        | JwtJwksCacheState::QuarantinedRetained => true,
        JwtJwksCacheState::NeverFetched | JwtJwksCacheState::EmptyUnusable => false,
    }
}

/// The source was usable once and is so no more.
pub fn jwt_jwks_cache_stale_window_expired(snapshot: &JwtJwksCacheSnapshot) -> (r: bool)
    ensures
        r == (snapshot.state == JwtJwksCacheState::EmptyUnusable && snapshot.last_success_at
            is Some),
{
    match snapshot.state {
        JwtJwksCacheState::EmptyUnusable => snapshot.last_success_at.is_some(),
        _ => false,
    }
}

/// The seconds since the Unix epoch.
pub open spec fn unix_seconds(time: WallTime) -> Option<u64> {
    match time {
        WallTime::BeforeEpoch => None,
        WallTime::SinceEpoch { secs } => Some(secs),
    }
}

/// The seconds since the Unix epoch of an optional time.
pub open spec fn opt_unix_seconds(time: Option<WallTime>) -> Option<u64> {
    match time {
        Some(time) => unix_seconds(time),
        None => None,
    }
}

pub fn system_time_to_unix_seconds(time: WallTime) -> (r: Option<u64>)
    ensures
        r == unix_seconds(time),
{
    match time {
        WallTime::BeforeEpoch => None,
        WallTime::SinceEpoch { secs } => Some(secs),
    }
}

pub(crate) fn optional_unix_seconds(time: Option<WallTime>) -> (r: Option<u64>)
    ensures
        r == opt_unix_seconds(time),
{
    match time {
        Some(time) => system_time_to_unix_seconds(time),
        None => None,
    }
}

} // verus!
