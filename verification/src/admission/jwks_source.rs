//! Remote sources of verification keys.
use crate::config::{
    JwksStartupBehavior, JwtAlgorithm, Nanos, RuntimeConfig, RuntimeJwtAuth, RuntimeUpstream, SECOND,
};
use crate::crypto::{hex_encode, hex_text, sha256, sha256_digest};
use crate::text::{
    comes_before, lemma_lex_total, lemma_lex_transitive, lex_less, opt, same_text, span,
};
use vstd::prelude::*;

verus! {

/// A remote source of keys and how it is fetched.
#[derive(Debug)]
pub struct JwtJwksSourceConfig {
    pub source_identity: String,
    pub jwks_url: String,
    pub allowed_algorithms: Vec<JwtAlgorithm>,
    pub refresh_interval: Nanos,
    pub request_timeout: Nanos,
    pub cache_ttl: Nanos,
    pub stale_if_error: Nanos,
    pub startup_behavior: JwksStartupBehavior,
}

/// What a source's configuration holds.
pub struct SourceView {
    pub source_identity: Seq<char>,
    pub jwks_url: Seq<char>,
    pub allowed_algorithms: Seq<JwtAlgorithm>,
    pub refresh_interval: Nanos,
    pub request_timeout: Nanos,
    pub cache_ttl: Nanos,
    pub stale_if_error: Nanos,
    pub startup_behavior: JwksStartupBehavior,
}

impl View for JwtJwksSourceConfig {
    type V = SourceView;

    open spec fn view(&self) -> SourceView {
        SourceView {
            source_identity: self.source_identity@,
            jwks_url: self.jwks_url@,
            allowed_algorithms: self.allowed_algorithms@,
            refresh_interval: self.refresh_interval,
            request_timeout: self.request_timeout,
            cache_ttl: self.cache_ttl,
            stale_if_error: self.stale_if_error,
            startup_behavior: self.startup_behavior,
        }
    }
}

impl Clone for JwtJwksSourceConfig {
    fn clone(&self) -> (r: Self)
        ensures
            r@ == self@,
    {
        JwtJwksSourceConfig {
            source_identity: self.source_identity.clone(),
            jwks_url: self.jwks_url.clone(),
            allowed_algorithms: clone_algorithms(&self.allowed_algorithms),
            refresh_interval: self.refresh_interval,
            request_timeout: self.request_timeout,
            cache_ttl: self.cache_ttl,
            stale_if_error: self.stale_if_error,
            startup_behavior: self.startup_behavior,
        }
    }
}

pub(crate) fn clone_algorithms(list: &Vec<JwtAlgorithm>) -> (r: Vec<JwtAlgorithm>)
    ensures
        r@ == list@,
{
    let mut r: Vec<JwtAlgorithm> = Vec::new();
    let mut i: usize = 0;
    while i < list.len()
        invariant
            i <= list.len(),
            r@ == list@.take(i as int),
        decreases list.len() - i,
    {
        r.push(list[i]);
        i = i + 1;
        assert(list@.take(i as int) =~= list@.take(i - 1).push(list@[i - 1]));
    }
    assert(list@.take(i as int) =~= list@);
    r
}

pub fn contains_algorithm(list: &Vec<JwtAlgorithm>, wanted: JwtAlgorithm) -> (r: bool)
    ensures
        r == list@.contains(wanted),
{
    let mut i: usize = 0;
    while i < list.len()
        invariant
            i <= list.len(),
            forall|k: int| 0 <= k < i ==> list@[k] != wanted,
        decreases list.len() - i,
    {
        if list[i] == wanted {
            return true;
        }
        i = i + 1;
    }
    false
}

/// The items of `list` that are `wanted`.
pub open spec fn only(list: Seq<JwtAlgorithm>, wanted: JwtAlgorithm) -> Seq<JwtAlgorithm>
    decreases list.len(),
{
    if list.len() == 0 {
        Seq::empty()
    } else if list.last() == wanted {
        only(list.drop_last(), wanted).push(wanted)
    } else {
        only(list.drop_last(), wanted)
    }
}

/// `list` in the order of the algorithms' names.
pub open spec fn by_name(list: Seq<JwtAlgorithm>) -> Seq<JwtAlgorithm> {
    only(list, JwtAlgorithm::Es256) + only(list, JwtAlgorithm::Hs256) + only(
        list,
        JwtAlgorithm::Rs256,
    )
}

fn push_only(r: &mut Vec<JwtAlgorithm>, list: &Vec<JwtAlgorithm>, wanted: JwtAlgorithm)
    ensures
        final(r)@ == old(r)@ + only(list@, wanted),
{
    let mut i: usize = 0;
    assert(r@ =~= old(r)@ + only(list@.take(0), wanted));
    while i < list.len()
        invariant
            i <= list.len(),
            r@ == old(r)@ + only(list@.take(i as int), wanted),
        decreases list.len() - i,
    {
        assert(list@.take(i + 1).drop_last() =~= list@.take(i as int));
        if list[i] == wanted {
            r.push(wanted);
        }
        i = i + 1;
        assert(r@ =~= old(r)@ + only(list@.take(i as int), wanted));
    }
    assert(list@.take(i as int) =~= list@);
}

fn sort_by_name(list: &Vec<JwtAlgorithm>) -> (r: Vec<JwtAlgorithm>)
    ensures
        r@ == by_name(list@),
{
    let mut r: Vec<JwtAlgorithm> = Vec::new();
    push_only(&mut r, list, JwtAlgorithm::Es256);
    push_only(&mut r, list, JwtAlgorithm::Hs256);
    push_only(&mut r, list, JwtAlgorithm::Rs256);
    assert(r@ =~= by_name(list@));
    r
}

/// The asymmetric algorithms of `list`, each once, in the order of their names.
pub open spec fn asymmetric(list: Seq<JwtAlgorithm>) -> Seq<JwtAlgorithm> {
    let es = if list.contains(JwtAlgorithm::Es256) {
        seq![JwtAlgorithm::Es256]
    } else {
        seq![]
    };
    let rs = if list.contains(JwtAlgorithm::Rs256) {
        seq![JwtAlgorithm::Rs256]
    } else {
        seq![]
    };
    es + rs
}

/// The identity under which a source is cached: the first twelve bytes of its address's digest.
pub open spec fn identity_of(url: Seq<char>) -> Seq<char> {
    "jwks:"@ + hex_text(sha256_digest(vstd::utf8::encode_utf8(url)).take(12))
}

pub fn jwt_jwks_source_identity(jwks_url: &str, _allowed_algorithms: &[JwtAlgorithm]) -> (r: String)
    ensures
        r@ == identity_of(jwks_url@),
{
    let digest = sha256(jwks_url.as_bytes());
    let mut r = String::from_str("jwks:");
    let prefix = vstd::slice::slice_subrange(digest.as_slice(), 0, 12);
    assert(prefix@ =~= digest@.take(12));
    r.append(hex_encode(prefix).as_str());
    r
}

/// A query or a fragment begins.
pub open spec fn ends_path() -> spec_fn(char) -> bool {
    |c: char| c == '?' || c == '#'
}

/// An address without its query and fragment.
pub open spec fn endpoint_of(url: Seq<char>) -> Seq<char> {
    url.take(span(url, ends_path()) as int)
}

pub fn jwt_jwks_public_endpoint(jwks_url: &str) -> (r: String)
    ensures
        r@ == endpoint_of(jwks_url@),
{
    let chars = crate::text::to_chars(jwks_url);
    let mut i: usize = 0;
    while i < chars.len() && chars[i] != '?' && chars[i] != '#'
        invariant
            i <= chars.len(),
            chars@ == jwks_url@,
            forall|k: int| 0 <= k < i ==> !ends_path()(#[trigger] chars@[k]),
        decreases chars.len() - i,
    {
        i = i + 1;
    }
    proof {
        crate::text::lemma_span_is(jwks_url@, ends_path(), i as int);
    }
    let r = crate::text::from_chars(crate::text::slice_of(&chars, 0, i));
    assert(r@ =~= endpoint_of(jwks_url@));
    r
}

/// The source that a verification policy names.
pub open spec fn source_of(jwt: RuntimeJwtAuth) -> Option<SourceView> {
    match jwt.jwks_url {
        None => None,
        Some(url) => Some(
            SourceView {
                source_identity: identity_of(url@),
                jwks_url: url@,
                allowed_algorithms: asymmetric(jwt.allowed_algorithms@),
                refresh_interval: jwt.jwks_refresh_interval,
                request_timeout: jwt.jwks_request_timeout,
                cache_ttl: jwt.jwks_cache_ttl,
                stale_if_error: jwt.jwks_stale_if_error,
                startup_behavior: jwt.jwks_startup_behavior,
            },
        ),
    }
}

/// The view of an optional source.
pub open spec fn opt_source(source: Option<JwtJwksSourceConfig>) -> Option<SourceView> {
    match source {
        Some(source) => Some(source@),
        None => None,
    }
}

pub open spec fn min_of(a: Nanos, b: Nanos) -> Nanos {
    if b < a {
        b
    } else {
        a
    }
}

pub open spec fn max_of(a: Nanos, b: Nanos) -> Nanos {
    if a < b {
        b
    } else {
        a
    }
}

/// How long a source waits between refreshes on demand: its interval, held between five and thirty
/// seconds.
pub open spec fn cooldown_of(refresh_interval: Nanos) -> Nanos {
    max_of(min_of(refresh_interval, (30 * SECOND) as Nanos), (5 * SECOND) as Nanos)
}

impl JwtJwksSourceConfig {
    pub fn from_jwt(jwt: &RuntimeJwtAuth) -> (r: Option<Self>)
        ensures
            opt_source(r) == source_of(*jwt),
    {
        match &jwt.jwks_url {
            None => None,
            Some(url) => {
                let mut allowed_algorithms: Vec<JwtAlgorithm> = Vec::new();
                if contains_algorithm(&jwt.allowed_algorithms, JwtAlgorithm::Es256) {
                    allowed_algorithms.push(JwtAlgorithm::Es256);
                }
                if contains_algorithm(&jwt.allowed_algorithms, JwtAlgorithm::Rs256) {
                    allowed_algorithms.push(JwtAlgorithm::Rs256);
                }
                assert(allowed_algorithms@ =~= asymmetric(jwt.allowed_algorithms@));
                Some(
                    JwtJwksSourceConfig {
                        source_identity: jwt_jwks_source_identity(
                            url.as_str(),
                            allowed_algorithms.as_slice(),
                        ),
                        jwks_url: url.clone(),
                        allowed_algorithms,
                        refresh_interval: jwt.jwks_refresh_interval,
                        request_timeout: jwt.jwks_request_timeout,
                        cache_ttl: jwt.jwks_cache_ttl,
                        stale_if_error: jwt.jwks_stale_if_error,
                        startup_behavior: jwt.jwks_startup_behavior,
                    },
                )
            },
        }
    }

    pub fn on_demand_refresh_cooldown(&self) -> (r: Nanos)
        ensures
            r == cooldown_of(self.refresh_interval),
    {
        let upper: Nanos = 30 * SECOND;
        let lower: Nanos = 5 * SECOND;
        let capped = if upper < self.refresh_interval { upper } else { self.refresh_interval };
        if capped < lower { lower } else { capped }
    }

    pub fn public_endpoint(&self) -> (r: String)
        ensures
            r@ == endpoint_of(self.jwks_url@),
    {
        jwt_jwks_public_endpoint(self.jwks_url.as_str())
    }
}

pub fn runtime_jwks_source_identity(jwt: &RuntimeJwtAuth) -> (r: Option<String>)
    ensures
        opt(r) == match source_of(*jwt) {
            Some(source) => Some(source.source_identity),
            None => None,
        },
{
    match JwtJwksSourceConfig::from_jwt(jwt) {
        Some(source) => Some(source.source_identity),
        None => None,
    }
}

/// `list` with the items of `more` that it lacks behind it.
pub open spec fn with_missing(list: Seq<JwtAlgorithm>, more: Seq<JwtAlgorithm>) -> Seq<JwtAlgorithm>
    decreases more.len(),
{
    if more.len() == 0 {
        list
    } else {
        let sofar = with_missing(list, more.drop_last());
        if sofar.contains(more.last()) {
            sofar
        } else {
            sofar.push(more.last())
        }
    }
}

/// Two policies for one source taken together: what either accepts, the shorter intervals, the
/// longer patience, and readiness where either demands it.
pub open spec fn merged_source(existing: SourceView, incoming: SourceView) -> SourceView {
    SourceView {
        allowed_algorithms: by_name(
            with_missing(existing.allowed_algorithms, incoming.allowed_algorithms),
        ),
        refresh_interval: min_of(existing.refresh_interval, incoming.refresh_interval),
        request_timeout: max_of(existing.request_timeout, incoming.request_timeout),
        cache_ttl: min_of(existing.cache_ttl, incoming.cache_ttl),
        stale_if_error: max_of(existing.stale_if_error, incoming.stale_if_error),
        startup_behavior: if existing.startup_behavior == JwksStartupBehavior::RequireReady
            || incoming.startup_behavior == JwksStartupBehavior::RequireReady {
            JwksStartupBehavior::RequireReady
        } else {
            JwksStartupBehavior::AllowDegraded
        },
        ..existing
    }
}

pub fn merge_jwks_source_config(existing: &mut JwtJwksSourceConfig, incoming: &JwtJwksSourceConfig)
    ensures
        final(existing)@ == merged_source(old(existing)@, incoming@),
{
    let mut merged = clone_algorithms(&existing.allowed_algorithms);
    let mut i: usize = 0;
    while i < incoming.allowed_algorithms.len()
        invariant
            i <= incoming.allowed_algorithms.len(),
            merged@ == with_missing(
                existing.allowed_algorithms@,
                incoming.allowed_algorithms@.take(i as int),
            ),
        decreases incoming.allowed_algorithms.len() - i,
    {
        assert(incoming.allowed_algorithms@.take(i + 1).drop_last()
            =~= incoming.allowed_algorithms@.take(i as int));
        let algorithm = incoming.allowed_algorithms[i];
        if !contains_algorithm(&merged, algorithm) {
            merged.push(algorithm);
        }
        i = i + 1;
    }
    assert(incoming.allowed_algorithms@.take(i as int) =~= incoming.allowed_algorithms@);
    existing.allowed_algorithms = sort_by_name(&merged);
    if incoming.refresh_interval < existing.refresh_interval {
        existing.refresh_interval = incoming.refresh_interval;
    }
    if existing.request_timeout < incoming.request_timeout {
        existing.request_timeout = incoming.request_timeout;
    }
    if incoming.cache_ttl < existing.cache_ttl {
        existing.cache_ttl = incoming.cache_ttl;
    }
    if existing.stale_if_error < incoming.stale_if_error {
        existing.stale_if_error = incoming.stale_if_error;
    }
    let required = existing.startup_behavior == JwksStartupBehavior::RequireReady
        || incoming.startup_behavior == JwksStartupBehavior::RequireReady;
    existing.startup_behavior = if required {
        JwksStartupBehavior::RequireReady
    } else {
        JwksStartupBehavior::AllowDegraded
    };
}
/// The sources that the upstreams' policies name, in the order of the upstreams.
pub open spec fn policy_sources(upstreams: Seq<RuntimeUpstream>) -> Seq<SourceView>
    decreases upstreams.len(),
{
    if upstreams.len() == 0 {
        Seq::empty()
    } else {
        let sofar = policy_sources(upstreams.drop_last());
        match policy_source(upstreams.last()) {
            Some(source) => sofar.push(source),
            None => sofar,
        }
    }
}

/// The source that an upstream's policy names.
pub open spec fn policy_source(upstream: RuntimeUpstream) -> Option<SourceView> {
    match upstream.policy.upstream_auth.jwt {
        Some(jwt) => source_of(jwt),
        None => None,
    }
}

/// Sources by identity, with one more policy taken in.
pub open spec fn with_policy(sources: Map<Seq<char>, SourceView>, source: SourceView) -> Map<
    Seq<char>,
    SourceView,
> {
    let id = source.source_identity;
    sources.insert(
        id,
        if sources.contains_key(id) {
            merged_source(sources[id], source)
        } else {
            source
        },
    )
}

/// Sources by identity, the policies of each taken together.
pub open spec fn merged_sources(sources: Seq<SourceView>) -> Map<Seq<char>, SourceView>
    decreases sources.len(),
{
    if sources.len() == 0 {
        Map::empty()
    } else {
        with_policy(merged_sources(sources.drop_last()), sources.last())
    }
}

/// The list is strictly ordered by identity.
pub open spec fn ordered(sources: Seq<JwtJwksSourceConfig>) -> bool {
    forall|i: int, j: int|
        0 <= i < j < sources.len() ==> lex_less(
            (#[trigger] sources[i]).source_identity@,
            (#[trigger] sources[j]).source_identity@,
        )
}

/// The list holds what the map holds, each source under its own identity.
pub open spec fn lists(
    sources: Seq<JwtJwksSourceConfig>,
    map: Map<Seq<char>, SourceView>,
) -> bool {
    &&& forall|i: int|
        0 <= i < sources.len() ==> map.contains_key((#[trigger] sources[i]).source_identity@)
            && map[sources[i].source_identity@] == sources[i]@
    &&& forall|id: Seq<char>| #[trigger]
        map.contains_key(id) ==> exists|i: int|
            0 <= i < sources.len() && (#[trigger] sources[i]).source_identity@ == id
}

/// Puts a source into an ordered list, merging it with the one of its identity.
fn merge_into(list: &mut Vec<JwtJwksSourceConfig>, source: JwtJwksSourceConfig, Ghost(map): Ghost<
    Map<Seq<char>, SourceView>,
>)
    requires
        ordered(old(list)@),
        lists(old(list)@, map),
    ensures
        ordered(final(list)@),
        lists(final(list)@, with_policy(map, source@)),
{
    let ghost id = source.source_identity@;
    let ghost before = list@;
    let mut at: usize = 0;
    while at < list.len() && comes_before(
        list[at].source_identity.as_str(),
        source.source_identity.as_str(),
    )
        invariant
            at <= list.len(),
            list@ == before,
            id == source.source_identity@,
            forall|k: int|
                0 <= k < at ==> lex_less((#[trigger] before[k]).source_identity@, id),
        decreases list.len() - at,
    {
        at = at + 1;
    }
    if at < list.len() && same_text(
        list[at].source_identity.as_str(),
        source.source_identity.as_str(),
    ) {
        merge_jwks_source_config(&mut list[at], &source);
        proof {
            let next = map.insert(id, merged_source(map[id], source@));
            assert(map[before[at as int].source_identity@] == before[at as int]@);
            assert forall|i: int, j: int| 0 <= i < j < list@.len() implies lex_less(
                (#[trigger] list@[i]).source_identity@,
                (#[trigger] list@[j]).source_identity@,
            ) by {
                assert(list@[i]@.source_identity == before[i]@.source_identity);
                assert(list@[j]@.source_identity == before[j]@.source_identity);
                assert(lex_less(
                    before[i].source_identity@,
                    before[j].source_identity@,
                ));
            }
            assert forall|i: int| 0 <= i < list@.len() implies next.contains_key(
                (#[trigger] list@[i]).source_identity@,
            ) && next[list@[i].source_identity@] == list@[i]@ by {
                assert(list@[i]@.source_identity == before[i]@.source_identity);
                if i != at {
                    let a = if i < at { i } else { at as int };
                    let b = if i < at { at as int } else { i };
                    assert(lex_less(
                        before[a].source_identity@,
                        before[b].source_identity@,
                    ));
                    lemma_lex_total(
                        before[a].source_identity@,
                        before[b].source_identity@,
                    );
                }
            }
            assert forall|key: Seq<char>| #[trigger] next.contains_key(key) implies exists|i: int|
                0 <= i < list@.len() && (#[trigger] list@[i]).source_identity@ == key by {
                if map.contains_key(key) {
                    let i = choose|i: int|
                        0 <= i < before.len() && (#[trigger] before[i]).source_identity@ == key;
                    assert(list@[i]@.source_identity == before[i]@.source_identity);
                }
            }
        }
    } else {
        let ghost value = source@;
        proof {
            if at < before.len() {
                lemma_lex_total(before[at as int].source_identity@, id);
            }
            assert forall|k: int| at <= k < before.len() implies lex_less(
                id,
                (#[trigger] before[k]).source_identity@,
            ) by {
                if k > at {
                    assert(lex_less(
                        before[at as int].source_identity@,
                        before[k].source_identity@,
                    ));
                    lemma_lex_transitive(
                        id,
                        before[at as int].source_identity@,
                        before[k].source_identity@,
                    );
                }
            }
            assert forall|k: int| 0 <= k < before.len() implies (
            #[trigger] before[k]).source_identity@ != id by {
                lemma_lex_total(before[k].source_identity@, id);
            }
            assert(!map.contains_key(id));
        }
        list.insert(at, source);
        proof {
            let next = map.insert(id, value);
            assert forall|i: int, j: int| 0 <= i < j < list@.len() implies lex_less(
                (#[trigger] list@[i]).source_identity@,
                (#[trigger] list@[j]).source_identity@,
            ) by {
                let a = if i < at { i } else { i - 1 };
                let b = if j < at { j } else { j - 1 };
                if i != at && j != at {
                    assert(lex_less(
                        before[a].source_identity@,
                        before[b].source_identity@,
                    ));
                } else if i == at {
                    assert(list@[j] == before[b]);
                } else {
                    assert(list@[i] == before[a]);
                }
            }
            assert forall|i: int| 0 <= i < list@.len() implies next.contains_key(
                (#[trigger] list@[i]).source_identity@,
            ) && next[list@[i].source_identity@] == list@[i]@ by {
                if i != at {
                    let a = if i < at { i } else { i - 1 };
                    assert(list@[i] == before[a]);
                    assert(before[a].source_identity@ != id);
                }
            }
            assert forall|key: Seq<char>| #[trigger] next.contains_key(key) implies exists|i: int|
                0 <= i < list@.len() && (#[trigger] list@[i]).source_identity@ == key by {
                if key == id {
                    assert(list@[at as int].source_identity@ == key);
                } else {
                    let i = choose|i: int|
                        0 <= i < before.len() && (#[trigger] before[i]).source_identity@ == key;
                    let a = if i < at { i } else { i + 1 };
                    assert(list@[a] == before[i]);
                }
            }
        }
    }
}

/// The remote sources of a configuration, one for each identity, ordered by identity.
pub fn runtime_jwks_sources(config: &RuntimeConfig) -> (r: Vec<JwtJwksSourceConfig>)
    ensures
        ordered(r@),
        lists(r@, merged_sources(policy_sources(config.upstreams@))),
{
    let mut r: Vec<JwtJwksSourceConfig> = Vec::new();
    let mut i: usize = 0;
    while i < config.upstreams.len()
        invariant
            i <= config.upstreams.len(),
            ordered(r@),
            lists(r@, merged_sources(policy_sources(config.upstreams@.take(i as int)))),
        decreases config.upstreams.len() - i,
    {
        assert(config.upstreams@.take(i + 1).drop_last() =~= config.upstreams@.take(i as int));
        let ghost sofar = policy_sources(config.upstreams@.take(i as int));
        let upstream = &config.upstreams[i];
        if let Some(jwt) = &upstream.policy.upstream_auth.jwt {
            if let Some(source) = JwtJwksSourceConfig::from_jwt(jwt) {
                assert(sofar.push(source@).drop_last() =~= sofar);
                merge_into(&mut r, source, Ghost(merged_sources(sofar)));
            }
        }
        i = i + 1;
    }
    assert(config.upstreams@.take(i as int) =~= config.upstreams@);
    r
}

} // verus!
