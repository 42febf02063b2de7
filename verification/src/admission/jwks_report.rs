//! What operators are told of the key sources.
use crate::admission::jwks_cache::{
    jwt_jwks_cache_state_name, opt_snapshot, opt_unix_seconds, optional_unix_seconds, snapshot_in,
    state_label, system_time_to_unix_seconds, unix_seconds, EntryView, JwtJwksCacheSnapshot,
    JwtJwksSharedCache, SnapshotView,
};
use crate::admission::jwks_source::{
    endpoint_of, merged_sources, policy_sources, runtime_jwks_sources, JwtJwksSourceConfig,
    SourceView,
};
use crate::admission::jwt::{algorithm_label, jwt_algorithm_name};
use crate::config::{JwksStartupBehavior, JwtAlgorithm, Nanos, RuntimeConfig, WallTime};
use crate::text::{lex_less, opt, owned, texts};
use vstd::prelude::*;

verus! {

/// A source as it is reported to operators.
#[derive(Debug)]
pub struct JwtJwksRuntimeSnapshot {
    pub source_id: String,
    pub endpoint: String,
    pub allowed_algorithms: Vec<String>,
    pub startup_behavior: &'static str,
    pub state: &'static str,
    pub active_key_count: usize,
    pub age_seconds: Option<u64>,
    pub last_refresh_attempt_unix_seconds: Option<u64>,
    pub last_refresh_success_unix_seconds: Option<u64>,
    pub last_failure_reason: Option<String>,
    pub last_error: Option<String>,
}

/// What such a report holds.
pub struct RuntimeSnapshotView {
    pub source_id: Seq<char>,
    pub endpoint: Seq<char>,
    pub allowed_algorithms: Seq<Seq<char>>,
    pub startup_behavior: Seq<char>,
    pub state: Seq<char>,
    pub active_key_count: nat,
    pub age_seconds: Option<u64>,
    pub last_refresh_attempt_unix_seconds: Option<u64>,
    pub last_refresh_success_unix_seconds: Option<u64>,
    pub last_failure_reason: Option<Seq<char>>,
    pub last_error: Option<Seq<char>>,
}

impl View for JwtJwksRuntimeSnapshot {
    type V = RuntimeSnapshotView;

    open spec fn view(&self) -> RuntimeSnapshotView {
        RuntimeSnapshotView {
            source_id: self.source_id@,
            endpoint: self.endpoint@,
            allowed_algorithms: texts(self.allowed_algorithms@),
            startup_behavior: self.startup_behavior@,
            state: self.state@,
            active_key_count: self.active_key_count as nat,
            age_seconds: self.age_seconds,
            last_refresh_attempt_unix_seconds: self.last_refresh_attempt_unix_seconds,
            last_refresh_success_unix_seconds: self.last_refresh_success_unix_seconds,
            last_failure_reason: opt(self.last_failure_reason),
            last_error: opt(self.last_error),
        }
    }
}

/// The names of some algorithms.
pub open spec fn algorithm_labels(list: Seq<JwtAlgorithm>) -> Seq<Seq<char>> {
    list.map_values(
        |algorithm: JwtAlgorithm| algorithm_label(algorithm),
    )
}

/// How long ago a source was fetched last, by the wall clock.
pub open spec fn age_by_wall(success: Option<WallTime>, wall: WallTime) -> Option<u64> {
    match (opt_unix_seconds(success), unix_seconds(wall)) {
        (Some(then), Some(now)) => Some(
            if now < then {
                0u64
            } else {
                (now - then) as u64
            },
        ),
        _ => None,
    }
}

/// The report on a source, from its configuration and what the cache knows of it.
pub open spec fn report_of(
    source: SourceView,
    known: Option<SnapshotView>,
    wall: WallTime,
) -> RuntimeSnapshotView {
    RuntimeSnapshotView {
        source_id: source.source_identity,
        endpoint: endpoint_of(source.jwks_url),
        allowed_algorithms: algorithm_labels(source.allowed_algorithms),
        startup_behavior: match source.startup_behavior {
            JwksStartupBehavior::RequireReady => "require_ready"@,
            JwksStartupBehavior::AllowDegraded => "allow_degraded"@,
        },
        state: match known {
            Some(entry) => state_label(entry.state),
            None => "never_fetched"@,
        },
        active_key_count: match known {
            Some(entry) => entry.active_keys.len(),
            None => 0,
        },
        age_seconds: match known {
            Some(entry) => age_by_wall(entry.last_success_wall, wall),
            None => None,
        },
        last_refresh_attempt_unix_seconds: match known {
            Some(entry) => opt_unix_seconds(entry.last_refresh_started_wall),
            None => None,
        },
        last_refresh_success_unix_seconds: match known {
            Some(entry) => opt_unix_seconds(entry.last_success_wall),
            None => None,
        },
        last_failure_reason: match known {
            Some(entry) => match entry.last_failure_reason {
                Some(reason) => Some(reason.label()),
                None => None,
            },
            None => None,
        },
        last_error: match known {
            Some(entry) => entry.last_error,
            None => None,
        },
    }
}

pub(crate) fn algorithm_names(list: &Vec<JwtAlgorithm>) -> (r: Vec<String>)
    ensures
        texts(r@) == algorithm_labels(list@),
{
    let mut r: Vec<String> = Vec::new();
    let mut i: usize = 0;
    while i < list.len()
        invariant
            i <= list.len(),
            texts(r@) == algorithm_labels(list@.take(i as int)),
        decreases list.len() - i,
    {
        let ghost before = r@;
        let name = owned(jwt_algorithm_name(list[i]));
        r.push(name);
        assert(texts(r@) =~= texts(before).push(name@));
        i = i + 1;
        assert(algorithm_labels(list@.take(i as int)) =~= algorithm_labels(list@.take(i - 1)).push(
            algorithm_label(list@[i - 1]),
        ));
    }
    assert(list@.take(i as int) =~= list@);
    r
}

fn report_on(source: &JwtJwksSourceConfig, known: Option<JwtJwksCacheSnapshot>, wall: WallTime) -> (r:
    JwtJwksRuntimeSnapshot)
    ensures
        r@ == report_of(source@, opt_snapshot(known), wall),
{
    let startup_behavior = match source.startup_behavior {
        JwksStartupBehavior::RequireReady => "require_ready",
        JwksStartupBehavior::AllowDegraded => "allow_degraded",
    };
    let source_id = source.source_identity.clone();
    let endpoint = source.public_endpoint();
    let allowed_algorithms = algorithm_names(&source.allowed_algorithms);
    match known {
        None => JwtJwksRuntimeSnapshot {
            source_id,
            endpoint,
            allowed_algorithms,
            startup_behavior,
            state: "never_fetched",
            active_key_count: 0,
            age_seconds: None,
            last_refresh_attempt_unix_seconds: None,
            last_refresh_success_unix_seconds: None,
            last_failure_reason: None,
            last_error: None,
        },
        Some(entry) => {
            let success: Option<u64> = optional_unix_seconds(entry.last_success_wall);
            let age_seconds: Option<u64> = match (success, system_time_to_unix_seconds(wall)) {
                (Some(last_success), Some(now)) => Some(now.saturating_sub(last_success)),
                _ => None,
            };
            JwtJwksRuntimeSnapshot {
                source_id,
                endpoint,
                allowed_algorithms,
                startup_behavior,
                state: jwt_jwks_cache_state_name(entry.state),
                active_key_count: entry.active_keys.len(),
                age_seconds,
                last_refresh_attempt_unix_seconds: optional_unix_seconds(
                    entry.last_refresh_started_wall,
                ),
                last_refresh_success_unix_seconds: success,
                last_failure_reason: match entry.last_failure_reason {
                    Some(reason) => Some(owned(reason.as_str())),
                    None => None,
                },
                last_error: entry.last_error,
            }
        },
    }
}

/// The reports, in the order of their identities, one for each of the sources.
pub open spec fn reports(
    list: Seq<JwtJwksRuntimeSnapshot>,
    sources: Map<Seq<char>, SourceView>,
    cache: Map<Seq<char>, EntryView>,
    now: Nanos,
    wall: WallTime,
) -> bool {
    &&& forall|i: int, j: int|
        0 <= i < j < list.len() ==> lex_less(
            (#[trigger] list[i]).source_id@,
            (#[trigger] list[j]).source_id@,
        )
    &&& forall|i: int|
        0 <= i < list.len() ==> {
            let id = (#[trigger] list[i]).source_id@;
            sources.contains_key(id) && list[i]@ == report_of(
                sources[id],
                snapshot_in(cache, id, now),
                wall,
            )
        }
    &&& forall|id: Seq<char>| #[trigger]
        sources.contains_key(id) ==> exists|i: int|
            0 <= i < list.len() && (#[trigger] list[i]).source_id@ == id
}

pub fn snapshot_runtime_jwks_sources(
    config: &RuntimeConfig,
    cache: &JwtJwksSharedCache,
    now: Nanos,
    wall: WallTime,
) -> (r: Vec<JwtJwksRuntimeSnapshot>)
    requires
        cache.wf(),
    ensures
        reports(r@, merged_sources(policy_sources(config.upstreams@)), cache@, now, wall),
{
    let sources = runtime_jwks_sources(config);
    let mut r: Vec<JwtJwksRuntimeSnapshot> = Vec::new();
    let mut i: usize = 0;
    while i < sources.len()
        invariant
            i <= sources.len(),
            cache.wf(),
            r@.len() == i,
            forall|k: int|
                0 <= k < i ==> (#[trigger] r@[k])@ == report_of(
                    sources@[k]@,
                    snapshot_in(cache@, sources@[k].source_identity@, now),
                    wall,
                ),
        decreases sources.len() - i,
    {
        let known = cache.snapshot(sources[i].source_identity.as_str(), now);
        r.push(report_on(&sources[i], known, wall));
        i = i + 1;
    }
    proof {
        let map = merged_sources(policy_sources(config.upstreams@));
        assert forall|k: int| 0 <= k < r@.len() implies (#[trigger] r@[k]).source_id@
            == sources@[k].source_identity@ by {
            assert(r@[k]@.source_id == sources@[k]@.source_identity);
        }
        assert forall|id: Seq<char>| #[trigger] map.contains_key(id) implies exists|k: int|
            0 <= k < r@.len() && (#[trigger] r@[k]).source_id@ == id by {
            let k = choose|k: int|
                0 <= k < sources@.len() && (#[trigger] sources@[k]).source_identity@ == id;
            assert(r@[k].source_id@ == id);
        }
    }
    r
}

} // verus!
