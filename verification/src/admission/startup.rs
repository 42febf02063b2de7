//! Key sources that must be ready before traffic is served.
use crate::admission::jwks_cache::{
    all_registered, entry_for, jwt_jwks_cache_state_name, jwt_jwks_cache_state_usable, snapshot_in,
    state_label, usable, EntryView, JwtJwksCacheState, JwtJwksSharedCache, SnapshotView,
};
use crate::admission::jwks_refresh::JwtJwksFetchFailure;
use crate::admission::jwks_source::{
    endpoint_of, lists, max_of, merged_sources, ordered, policy_sources, runtime_jwks_sources,
    JwtJwksSourceConfig, SourceView,
};
use crate::config::{JwksStartupBehavior, Nanos, RuntimeConfig, SECOND};
use crate::listener::QUICListener;
use crate::text::{lemma_lex_total, lex_less, owned};
use vstd::prelude::*;

verus! {

/// The cache after every one of `sources` was made known to it.
pub open spec fn known_to(
    cache: Map<Seq<char>, EntryView>,
    sources: Map<Seq<char>, SourceView>,
) -> Map<Seq<char>, EntryView> {
    Map::new(
        |id: Seq<char>| cache.contains_key(id) || sources.contains_key(id),
        |id: Seq<char>|
            if sources.contains_key(id) {
                entry_for(cache, sources[id])
            } else {
                cache[id]
            },
    )
}

/// The sources that must be ready.
pub open spec fn required(sources: Map<Seq<char>, SourceView>) -> Map<Seq<char>, SourceView> {
    Map::new(
        |id: Seq<char>|
            sources.contains_key(id) && sources[id].startup_behavior
                == JwksStartupBehavior::RequireReady,
        |id: Seq<char>| sources[id],
    )
}

proof fn lemma_registered_absent(
    cache: Map<Seq<char>, EntryView>,
    sources: Seq<JwtJwksSourceConfig>,
    id: Seq<char>,
)
    requires
        forall|i: int| 0 <= i < sources.len() ==> (#[trigger] sources[i]).source_identity@ != id,
    ensures
        all_registered(cache, sources).contains_key(id) == cache.contains_key(id),
        cache.contains_key(id) ==> all_registered(cache, sources)[id] == cache[id],
    decreases sources.len(),
{
    if sources.len() > 0 {
        let before = sources.drop_last();
        assert forall|i: int| 0 <= i < before.len() implies (
        #[trigger] before[i]).source_identity@ != id by {
            assert(before[i] == sources[i]);
        }
        lemma_registered_absent(cache, before, id);
        assert(sources[sources.len() - 1].source_identity@ != id);
    }
}

proof fn lemma_registered_present(
    cache: Map<Seq<char>, EntryView>,
    sources: Seq<JwtJwksSourceConfig>,
    i: int,
)
    requires
        ordered(sources),
        0 <= i < sources.len(),
    ensures
        all_registered(cache, sources).contains_key(sources[i].source_identity@),
        all_registered(cache, sources)[sources[i].source_identity@] == entry_for(
            cache,
            sources[i]@,
        ),
    decreases sources.len(),
{
    let before = sources.drop_last();
    let n = sources.len() - 1;
    assert(ordered(before)) by {
        assert forall|a: int, b: int| 0 <= a < b < before.len() implies lex_less(
            (#[trigger] before[a]).source_identity@,
            (#[trigger] before[b]).source_identity@,
        ) by {
            assert(lex_less(sources[a].source_identity@, sources[b].source_identity@));
        }
    }
    if i < n {
        lemma_registered_present(cache, before, i);
        assert(before[i] == sources[i]);
        assert(lex_less(sources[i].source_identity@, sources[n].source_identity@));
        lemma_lex_total(sources[i].source_identity@, sources[n].source_identity@);
    } else {
        let id = sources[n].source_identity@;
        assert forall|k: int| 0 <= k < before.len() implies (
        #[trigger] before[k]).source_identity@ != id by {
            assert(before[k] == sources[k]);
            assert(lex_less(sources[k].source_identity@, sources[n].source_identity@));
            lemma_lex_total(sources[k].source_identity@, sources[n].source_identity@);
        }
        lemma_registered_absent(cache, before, id);
    }
}

proof fn lemma_known_to(
    cache: Map<Seq<char>, EntryView>,
    sources: Seq<JwtJwksSourceConfig>,
    map: Map<Seq<char>, SourceView>,
)
    requires
        ordered(sources),
        lists(sources, map),
    ensures
        all_registered(cache, sources) == known_to(cache, map),
{
    let all = all_registered(cache, sources);
    let goal = known_to(cache, map);
    assert forall|id: Seq<char>|
        (#[trigger] all.contains_key(id) == goal.contains_key(id)) && (goal.contains_key(id)
            ==> all[id] == goal[id]) by {
        if map.contains_key(id) {
            let i = choose|i: int|
                0 <= i < sources.len() && (#[trigger] sources[i]).source_identity@ == id;
            lemma_registered_present(cache, sources, i);
        } else {
            assert forall|i: int| 0 <= i < sources.len() implies (
            #[trigger] sources[i]).source_identity@ != id by {
                assert(map.contains_key(sources[i].source_identity@));
            }
            lemma_registered_absent(cache, sources, id);
        }
    }
    assert(all =~= goal);
}

/// The sources of an ordered list that must be ready, in their order.
fn require_ready_sources(sources: &Vec<JwtJwksSourceConfig>, Ghost(map): Ghost<
    Map<Seq<char>, SourceView>,
>) -> (r: Vec<JwtJwksSourceConfig>)
    requires
        ordered(sources@),
        lists(sources@, map),
    ensures
        ordered(r@),
        lists(r@, required(map)),
{
    let mut r: Vec<JwtJwksSourceConfig> = Vec::new();
    let mut at: Ghost<Seq<int>> = Ghost(Seq::empty());
    let mut i: usize = 0;
    while i < sources.len()
        invariant
            i <= sources.len(),
            r@.len() == at@.len(),
            forall|k: int| 0 <= k < r@.len() ==> (0 <= #[trigger] at@[k] < i),
            forall|k: int|
                0 <= k < r@.len() ==> (#[trigger] r@[k])@ == sources@[at@[k]]@
                    && r@[k].startup_behavior == JwksStartupBehavior::RequireReady,
            forall|k: int, l: int| 0 <= k < l < r@.len() ==> #[trigger] at@[k] < #[trigger] at@[l],
            forall|j: int|
                0 <= j < i && (#[trigger] sources@[j]).startup_behavior
                    == JwksStartupBehavior::RequireReady ==> at@.contains(j),
        decreases sources.len() - i,
    {
        if sources[i].startup_behavior == JwksStartupBehavior::RequireReady {
            let source = sources[i].clone();
            assert(source@.startup_behavior == sources@[i as int]@.startup_behavior);
            let ghost before = at@;
            r.push(source);
            proof {
                at@ = at@.push(i as int);
                assert(at@[before.len() as int] == i);
                assert forall|j: int|
                    0 <= j < i + 1 && (#[trigger] sources@[j]).startup_behavior
                        == JwksStartupBehavior::RequireReady implies at@.contains(j) by {
                    if j < i {
                        let k = choose|k: int| 0 <= k < before.len() && before[k] == j;
                        assert(at@[k] == j);
                    }
                }
            }
        }
        i = i + 1;
    }
    proof {
        let wanted = required(map);
        assert forall|k: int| 0 <= k < r@.len() implies (#[trigger] r@[k]).source_identity@
            == sources@[at@[k]].source_identity@ by {
            assert(r@[k]@.source_identity == sources@[at@[k]]@.source_identity);
        }
        assert forall|a: int, b: int| 0 <= a < b < r@.len() implies lex_less(
            (#[trigger] r@[a]).source_identity@,
            (#[trigger] r@[b]).source_identity@,
        ) by {
            assert(at@[a] < at@[b]);
            assert(lex_less(
                sources@[at@[a]].source_identity@,
                sources@[at@[b]].source_identity@,
            ));
        }
        assert forall|k: int| 0 <= k < r@.len() implies wanted.contains_key(
            (#[trigger] r@[k]).source_identity@,
        ) && wanted[r@[k].source_identity@] == r@[k]@ by {
            assert(map[sources@[at@[k]].source_identity@] == sources@[at@[k]]@);
            assert(r@[k]@.startup_behavior == JwksStartupBehavior::RequireReady);
        }
        assert forall|id: Seq<char>| #[trigger] wanted.contains_key(id) implies exists|k: int|
            0 <= k < r@.len() && (#[trigger] r@[k]).source_identity@ == id by {
            let j = choose|j: int|
                0 <= j < sources@.len() && (#[trigger] sources@[j]).source_identity@ == id;
            assert(map[sources@[j].source_identity@] == sources@[j]@);
            assert(sources@[j]@.startup_behavior == JwksStartupBehavior::RequireReady);
            assert(sources@[j].startup_behavior == JwksStartupBehavior::RequireReady);
            let k = choose|k: int| 0 <= k < at@.len() && at@[k] == j;
            assert(r@[k].source_identity@ == id);
        }
    }
    r
}

/// The text that opens every report on a source that is not ready.
pub open spec fn preflight_prefix(source: SourceView, trigger: Seq<char>) -> Seq<char> {
    "jwks require-ready preflight failed source_id="@ + source.source_identity + " endpoint="@
        + endpoint_of(source.jwks_url) + " trigger="@ + trigger + " startup_behavior=require_ready"@
}

/// Why a source is not ready, from the end of its fetch and what the cache then knows of it.
pub open spec fn preflight_objection(
    source: SourceView,
    trigger: Seq<char>,
    failure: Option<JwtJwksFetchFailure>,
    snapshot: Option<SnapshotView>,
) -> Option<Seq<char>> {
    let prefix = preflight_prefix(source, trigger);
    match (failure, snapshot) {
        (Some(failure), _) => Some(prefix + " detail="@ + failure.text()),
        (None, None) => Some(prefix + " detail=missing_cache_snapshot"@),
        (None, Some(entry)) => if usable(entry.state) {
            None
        } else {
            Some(
                prefix + " state="@ + state_label(entry.state) + " detail="@ + match entry.last_error {
                    Some(error) => error,
                    None => "jwks source has no usable keys after startup preflight"@,
                },
            )
        },
    }
}

fn preflight_text(source: &JwtJwksSourceConfig, trigger: &str) -> (r: String)
    ensures
        r@ == preflight_prefix(source@, trigger@),
{
    let mut r = owned("jwks require-ready preflight failed source_id=");
    r.append(source.source_identity.as_str());
    r.append(" endpoint=");
    r.append(source.public_endpoint().as_str());
    r.append(" trigger=");
    r.append(trigger);
    r.append(" startup_behavior=require_ready");
    r
}

impl QUICListener {
    /// Makes a configuration's sources known to the cache, and returns those that must be fetched
    /// before the startup goes on. Entries of other sources stay: a candidate configuration that is
    /// only previewed or validated must not evict what the running one uses.
    pub fn initialize_jwks_startup(config: &RuntimeConfig, cache: &mut JwtJwksSharedCache) -> (r:
        Vec<JwtJwksSourceConfig>)
        requires
            old(cache).wf(),
        ensures
            final(cache).wf(),
            final(cache)@ == known_to(
                old(cache)@,
                merged_sources(policy_sources(config.upstreams@)),
            ),
            ordered(r@),
            lists(r@, required(merged_sources(policy_sources(config.upstreams@)))),
    {
        let sources = runtime_jwks_sources(config);
        let ghost map = merged_sources(policy_sources(config.upstreams@));
        cache.register_sources(&sources);
        proof {
            lemma_known_to(old(cache)@, sources@, map);
        }
        require_ready_sources(&sources, Ghost(map))
    }

    /// Decides, once a source that must be ready was fetched, whether it is.
    pub fn preflight_require_ready_jwks(
        cache: &JwtJwksSharedCache,
        source: &JwtJwksSourceConfig,
        trigger: &str,
        fetched: Result<(), JwtJwksFetchFailure>,
        now: Nanos,
    ) -> (r: Result<(), String>)
        requires
            cache.wf(),
        ensures
            match (
                r,
                preflight_objection(
                    source@,
                    trigger@,
                    match fetched {
                        Ok(_) => None,
                        Err(failure) => Some(failure),
                    },
                    snapshot_in(cache@, source.source_identity@, now),
                ),
            ) {
                (Ok(_), None) => true,
                (Err(message), Some(text)) => message@ == text,
                _ => false,
            },
    {
        let mut message = preflight_text(source, trigger);
        if let Err(failure) = fetched {
            message.append(" detail=");
            message.append(failure.to_text().as_str());
            return Err(message);
        }
        let snapshot = match cache.snapshot(source.source_identity.as_str(), now) {
            Some(snapshot) => snapshot,
            None => {
                message.append(" detail=missing_cache_snapshot");
                return Err(message);
            },
        };
        if jwt_jwks_cache_state_usable(snapshot.state) {
            return Ok(());
        }
        message.append(" state=");
        message.append(jwt_jwks_cache_state_name(snapshot.state));
        message.append(" detail=");
        match snapshot.last_error {
            Some(error) => {
                message.append(error.as_str());
            },
            None => {
                message.append("jwks source has no usable keys after startup preflight");
            },
        }
        Err(message)
    }

    /// How often a source is fetched in the background: at its interval, and not more than once a
    /// second.
    pub fn background_refresh_period(source: &JwtJwksSourceConfig) -> (r: Nanos)
        ensures
            r == max_of(source.refresh_interval, SECOND),
    {
        if source.refresh_interval < SECOND { SECOND } else { source.refresh_interval }
    }

    /// A source that must be ready is not, once its first background fetch has ended.
    pub fn late_after_startup(
        cache: &JwtJwksSharedCache,
        source: &JwtJwksSourceConfig,
        now: Nanos,
    ) -> (r: bool)
        requires
            cache.wf(),
        ensures
            r == (source.startup_behavior == JwksStartupBehavior::RequireReady && !(snapshot_in(
                cache@,
                source.source_identity@,
                now,
            ) matches Some(entry) && (entry.state == JwtJwksCacheState::Fresh || entry.state
                == JwtJwksCacheState::Stale || entry.state
                == JwtJwksCacheState::RefreshFailedRetained))),
    {
        if source.startup_behavior != JwksStartupBehavior::RequireReady {
            return false;
        }
        match cache.snapshot(source.source_identity.as_str(), now) {
            Some(entry) => match entry.state {
                JwtJwksCacheState::Fresh
                | JwtJwksCacheState::Stale
                | JwtJwksCacheState::RefreshFailedRetained => false,
                _ => true,
            },
            None => true,
        }
    }
}

} // verus!
