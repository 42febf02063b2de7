//! How tokens are verified, as operators are shown it.
use crate::admission::jwks_cache::{EntryView, JwtJwksSharedCache};
use crate::admission::jwks_report::{
    algorithm_labels, algorithm_names, reports, snapshot_runtime_jwks_sources,
    JwtJwksRuntimeSnapshot, RuntimeSnapshotView,
};
use crate::admission::jwks_source::{
    merged_sources, policy_sources, runtime_jwks_source_identity, source_of,
};
use crate::config::{Nanos, RuntimeConfig, RuntimeJwtAuth, RuntimeUpstream, WallTime};
use crate::text::{
    clone_list, comes_before, lemma_lex_total, lemma_lex_transitive, lex_less, opt, same_text,
    texts,
};
use vstd::prelude::*;

verus! {

/// How an upstream's tokens are verified.
#[derive(Debug)]
pub struct ControlApiJwtProviderPayload {
    pub provider_mode: &'static str,
    pub allowed_algorithms: Vec<String>,
    pub require_kid: bool,
    pub issuers: Vec<String>,
    pub audiences: Vec<String>,
    pub static_key_count: usize,
    pub jwks_configured: bool,
    pub jwks_active: bool,
    pub jwks_cache_state: Option<&'static str>,
    pub serving_from_stale_cache: Option<bool>,
    pub usable_key_count: Option<usize>,
    pub last_refresh_success_unix_seconds: Option<u64>,
    pub last_refresh_attempt_unix_seconds: Option<u64>,
    pub last_failure_reason: Option<String>,
}

pub struct ProviderView {
    pub provider_mode: Seq<char>,
    pub allowed_algorithms: Seq<Seq<char>>,
    pub require_kid: bool,
    pub issuers: Seq<Seq<char>>,
    pub audiences: Seq<Seq<char>>,
    pub static_key_count: nat,
    pub jwks_configured: bool,
    pub jwks_active: bool,
    pub jwks_cache_state: Option<Seq<char>>,
    pub serving_from_stale_cache: Option<bool>,
    pub usable_key_count: Option<nat>,
    pub last_refresh_success_unix_seconds: Option<u64>,
    pub last_refresh_attempt_unix_seconds: Option<u64>,
    pub last_failure_reason: Option<Seq<char>>,
}

impl View for ControlApiJwtProviderPayload {
    type V = ProviderView;

    open spec fn view(&self) -> ProviderView {
        ProviderView {
            provider_mode: self.provider_mode@,
            allowed_algorithms: texts(self.allowed_algorithms@),
            require_kid: self.require_kid,
            issuers: texts(self.issuers@),
            audiences: texts(self.audiences@),
            static_key_count: self.static_key_count as nat,
            jwks_configured: self.jwks_configured,
            jwks_active: self.jwks_active,
            jwks_cache_state: match self.jwks_cache_state {
                Some(state) => Some(state@),
                None => None,
            },
            serving_from_stale_cache: self.serving_from_stale_cache,
            usable_key_count: match self.usable_key_count {
                Some(count) => Some(count as nat),
                None => None,
            },
            last_refresh_success_unix_seconds: self.last_refresh_success_unix_seconds,
            last_refresh_attempt_unix_seconds: self.last_refresh_attempt_unix_seconds,
            last_failure_reason: opt(self.last_failure_reason),
        }
    }
}

/// What tokens are verified with.
pub open spec fn mode_label(secret: bool, fixed: bool, remote: bool) -> Seq<char> {
    match (secret, fixed, remote) {
        (true, false, false) => "hs256_only"@,
        (false, true, false) => "static_asymmetric"@,
        (false, false, true) => "remote_jwks"@,
        (false, true, true) => "hybrid_asymmetric"@,
        (false, false, false) => "unconfigured"@,
        (true, _, _) => "hybrid"@,
    }
}

pub fn jwt_provider_mode(jwt: &RuntimeJwtAuth) -> (r: &'static str)
    ensures
        r@ == mode_label(
            jwt.secret@.len() > 0,
            jwt.static_keys@.len() > 0,
            jwt.jwks_url is Some,
        ),
{
    let has_hs256 = !jwt.secret.as_str().is_empty();
    let has_static_asymmetric = jwt.static_keys.len() > 0;
    let has_jwks = jwt.jwks_url.is_some();
    match (has_hs256, has_static_asymmetric, has_jwks) {
        (true, false, false) => "hs256_only",
        (false, true, false) => "static_asymmetric",
        (false, false, true) => "remote_jwks",
        (false, true, true) => "hybrid_asymmetric",
        (false, false, false) => "unconfigured",
        (true, _, _) => "hybrid",
    }
}

/// A single setting, and a list of settings behind it.
pub open spec fn one_and_more(one: Option<String>, more: Seq<String>) -> Seq<Seq<char>> {
    match one {
        Some(text) => seq![text@] + texts(more),
        None => texts(more),
    }
}

fn collect_one_and_more(one: &Option<String>, more: &Vec<String>) -> (r: Vec<String>)
    ensures
        texts(r@) == one_and_more(*one, more@),
{
    match one {
        None => clone_list(more),
        Some(text) => {
            let mut r: Vec<String> = Vec::new();
            r.push(text.clone());
            let mut i: usize = 0;
            assert(texts(r@) =~= seq![text@] + texts(more@.take(0)));
            while i < more.len()
                invariant
                    i <= more.len(),
                    texts(r@) == seq![text@] + texts(more@.take(i as int)),
                decreases more.len() - i,
            {
                let ghost before = r@;
                r.push(more[i].clone());
                assert(texts(r@) =~= texts(before).push(more@[i as int]@));
                i = i + 1;
                assert(texts(more@.take(i as int)) =~= texts(more@.take(i - 1)).push(
                    more@[i - 1]@,
                ));
                assert(seq![text@] + texts(more@.take(i as int)) =~= (seq![text@] + texts(
                    more@.take(i - 1),
                )).push(more@[i - 1]@));
            }
            assert(more@.take(i as int) =~= more@);
            r
        },
    }
}

/// A state in which keys are served that could not be refreshed in time.
pub open spec fn stale_label(state: Seq<char>) -> bool {
    state == "stale"@ || state == "refresh_failed_retained"@ || state == "quarantined_retained"@
}

/// A state in which no key is served.
pub open spec fn unusable_label(state: Seq<char>) -> bool {
    state == "never_fetched"@ || state == "empty_unusable"@
}

/// How an upstream's tokens are verified, from its policy and what is known of its source.
pub open spec fn provider_view(
    jwt: RuntimeJwtAuth,
    source: Option<RuntimeSnapshotView>,
) -> ProviderView {
    ProviderView {
        provider_mode: mode_label(
            jwt.secret@.len() > 0,
            jwt.static_keys@.len() > 0,
            jwt.jwks_url is Some,
        ),
        allowed_algorithms: algorithm_labels(jwt.allowed_algorithms@),
        require_kid: jwt.require_kid,
        issuers: one_and_more(jwt.issuer, jwt.issuers@),
        audiences: one_and_more(jwt.audience, jwt.audiences@),
        static_key_count: jwt.static_keys@.len(),
        jwks_configured: jwt.jwks_url is Some,
        jwks_active: match source {
            Some(source) => source.active_key_count > 0 && !unusable_label(source.state),
            None => false,
        },
        jwks_cache_state: match source {
            Some(source) => Some(source.state),
            None => None,
        },
        serving_from_stale_cache: match source {
            Some(source) => Some(stale_label(source.state)),
            None => None,
        },
        usable_key_count: match source {
            Some(source) => Some(source.active_key_count),
            None => None,
        },
        last_refresh_success_unix_seconds: match source {
            Some(source) => source.last_refresh_success_unix_seconds,
            None => None,
        },
        last_refresh_attempt_unix_seconds: match source {
            Some(source) => source.last_refresh_attempt_unix_seconds,
            None => None,
        },
        last_failure_reason: match source {
            Some(source) => source.last_failure_reason,
            None => None,
        },
    }
}

/// The report on the source `id`.
pub open spec fn report_named(list: Seq<JwtJwksRuntimeSnapshot>, id: Seq<char>) -> Option<
    RuntimeSnapshotView,
>
    decreases list.len(),
{
    if list.len() == 0 {
        None
    } else if list[0].source_id@ == id {
        Some(list[0]@)
    } else {
        report_named(list.drop_first(), id)
    }
}

/// The report on the source that a policy names.
pub open spec fn policy_report(jwt: RuntimeJwtAuth, list: Seq<JwtJwksRuntimeSnapshot>) -> Option<
    RuntimeSnapshotView,
> {
    match source_of(jwt) {
        Some(source) => report_named(list, source.source_identity),
        None => None,
    }
}

fn find_report<'a>(list: &'a Vec<JwtJwksRuntimeSnapshot>, id: &str) -> (r: Option<
    &'a JwtJwksRuntimeSnapshot,
>)
    ensures
        (match r {
            Some(report) => Some(report@),
            None => None,
        }) == report_named(list@, id@),
{
    let mut i: usize = 0;
    assert(list@.skip(0) =~= list@);
    while i < list.len()
        invariant
            i <= list.len(),
            report_named(list@, id@) == report_named(list@.skip(i as int), id@),
        decreases list.len() - i,
    {
        assert(list@.skip(i as int)[0] == list@[i as int]);
        if same_text(list[i].source_id.as_str(), id) {
            return Some(&list[i]);
        }
        assert(list@.skip(i as int).drop_first() =~= list@.skip(i + 1));
        i = i + 1;
    }
    None
}

pub fn jwt_provider_payload(jwt: &RuntimeJwtAuth, list: &Vec<JwtJwksRuntimeSnapshot>) -> (r:
    ControlApiJwtProviderPayload)
    ensures
        r@ == provider_view(*jwt, policy_report(*jwt, list@)),
{
    let provider_mode = jwt_provider_mode(jwt);
    let allowed_algorithms = algorithm_names(&jwt.allowed_algorithms);
    let issuers = collect_one_and_more(&jwt.issuer, &jwt.issuers);
    let audiences = collect_one_and_more(&jwt.audience, &jwt.audiences);
    let report = match runtime_jwks_source_identity(jwt) {
        Some(id) => find_report(list, id.as_str()),
        None => None,
    };
    let mut r = ControlApiJwtProviderPayload {
        provider_mode,
        allowed_algorithms,
        require_kid: jwt.require_kid,
        issuers,
        audiences,
        static_key_count: jwt.static_keys.len(),
        jwks_configured: jwt.jwks_url.is_some(),
        jwks_active: false,
        jwks_cache_state: None,
        serving_from_stale_cache: None,
        usable_key_count: None,
        last_refresh_success_unix_seconds: None,
        last_refresh_attempt_unix_seconds: None,
        last_failure_reason: None,
    };
    if let Some(report) = report {
        let state = report.state;
        let unusable = same_text(state, "never_fetched") || same_text(state, "empty_unusable");
        let stale = same_text(state, "stale") || same_text(state, "refresh_failed_retained")
            || same_text(state, "quarantined_retained");
        r.jwks_active = report.active_key_count > 0 && !unusable;
        r.jwks_cache_state = Some(state);
        r.serving_from_stale_cache = Some(stale);
        r.usable_key_count = Some(report.active_key_count);
        r.last_refresh_success_unix_seconds = report.last_refresh_success_unix_seconds;
        r.last_refresh_attempt_unix_seconds = report.last_refresh_attempt_unix_seconds;
        r.last_failure_reason = report.last_failure_reason.clone();
    }
    r
}

#[derive(Debug)]
pub struct ControlApiAuthProviderPayload {
    pub upstream: String,
    pub jwt: Option<ControlApiJwtProviderPayload>,
}

pub struct AuthProviderView {
    pub upstream: Seq<char>,
    pub jwt: Option<ProviderView>,
}

impl View for ControlApiAuthProviderPayload {
    type V = AuthProviderView;

    open spec fn view(&self) -> AuthProviderView {
        AuthProviderView {
            upstream: self.upstream@,
            jwt: match self.jwt {
                Some(jwt) => Some(jwt@),
                None => None,
            },
        }
    }
}

/// How an upstream's requests are authenticated.
pub open spec fn upstream_view(
    upstream: RuntimeUpstream,
    list: Seq<JwtJwksRuntimeSnapshot>,
) -> AuthProviderView {
    AuthProviderView {
        upstream: upstream.name@,
        jwt: match upstream.policy.upstream_auth.jwt {
            Some(jwt) => Some(provider_view(jwt, policy_report(jwt, list))),
            None => None,
        },
    }
}

/// How the upstreams' requests are authenticated, in the order of the upstreams.
pub open spec fn upstream_views(
    upstreams: Seq<RuntimeUpstream>,
    list: Seq<JwtJwksRuntimeSnapshot>,
) -> Seq<AuthProviderView> {
    upstreams.map_values(|upstream: RuntimeUpstream| upstream_view(upstream, list))
}

pub open spec fn payload_views(list: Seq<ControlApiAuthProviderPayload>) -> Seq<AuthProviderView> {
    list.map_values(|payload: ControlApiAuthProviderPayload| payload@)
}

/// The list is ordered by the upstreams' names.
pub open spec fn by_upstream(list: Seq<AuthProviderView>) -> bool {
    forall|i: int, j: int|
        0 <= i < j < list.len() ==> !lex_less(
            (#[trigger] list[j]).upstream,
            (#[trigger] list[i]).upstream,
        )
}

/// Puts a payload behind those whose name does not come after its own.
fn insert_by_upstream(
    list: &mut Vec<ControlApiAuthProviderPayload>,
    payload: ControlApiAuthProviderPayload,
)
    requires
        by_upstream(payload_views(old(list)@)),
    ensures
        by_upstream(payload_views(final(list)@)),
        payload_views(final(list)@).to_multiset() == payload_views(old(list)@).to_multiset().insert(
            payload@,
        ),
{
    let ghost before = payload_views(list@);
    let mut at: usize = list.len();
    while at > 0 && comes_before(payload.upstream.as_str(), list[at - 1].upstream.as_str())
        invariant
            at <= list.len(),
            before == payload_views(list@),
            forall|k: int|
                at <= k < before.len() ==> lex_less(payload@.upstream, (#[trigger] before[k]).upstream),
        decreases at,
    {
        assert(before[at - 1] == list@[at - 1]@);
        at = at - 1;
    }
    proof {
        if at > 0 {
            assert(before[at - 1] == list@[at - 1]@);
        }
    }
    let ghost item = payload@;
    list.insert(at, payload);
    proof {
        let after = payload_views(list@);
        assert(after =~= before.insert(at as int, item));
        vstd::seq_lib::to_multiset_insert(before, at as int, item);
        assert forall|k: int| 0 <= k < at implies !lex_less(item.upstream, (#[trigger] before[k]).upstream) by {
            if k < at - 1 {
                assert(!lex_less(before[at - 1].upstream, before[k].upstream));
                if lex_less(item.upstream, before[k].upstream) {
                    lemma_lex_total(before[k].upstream, before[at - 1].upstream);
                    if before[k].upstream != before[at - 1].upstream {
                        lemma_lex_transitive(
                            item.upstream,
                            before[k].upstream,
                            before[at - 1].upstream,
                        );
                    }
                }
            }
        }
        assert forall|i: int, j: int| 0 <= i < j < after.len() implies !lex_less(
            (#[trigger] after[j]).upstream,
            (#[trigger] after[i]).upstream,
        ) by {
            let a = if i < at { i } else { i - 1 };
            let b = if j < at { j } else { j - 1 };
            if i == at {
                assert(after[j] == before[b]);
                lemma_lex_total(item.upstream, before[b].upstream);
            } else if j == at {
                assert(after[i] == before[a]);
            } else {
                assert(after[i] == before[a] && after[j] == before[b]);
            }
        }
    }
}

/// A source of keys, as operators are shown it. Its address is not shown.
#[derive(Debug)]
pub struct ControlApiJwksSourcePayload {
    pub jwks_source_id: String,
    pub allowed_algorithms: Vec<String>,
    pub startup_behavior: &'static str,
    pub cache_state: &'static str,
    pub active_key_count: usize,
    pub age_seconds: Option<u64>,
    pub last_refresh_attempt_unix_seconds: Option<u64>,
    pub last_refresh_success_unix_seconds: Option<u64>,
    pub last_failure_reason: Option<String>,
    pub last_error: Option<String>,
}

pub open spec fn shows_source(
    payload: ControlApiJwksSourcePayload,
    report: RuntimeSnapshotView,
) -> bool {
    &&& payload.jwks_source_id@ == report.source_id
    &&& texts(payload.allowed_algorithms@) == report.allowed_algorithms
    &&& payload.startup_behavior@ == report.startup_behavior
    &&& payload.cache_state@ == report.state
    &&& payload.active_key_count == report.active_key_count
    &&& payload.age_seconds == report.age_seconds
    &&& payload.last_refresh_attempt_unix_seconds == report.last_refresh_attempt_unix_seconds
    &&& payload.last_refresh_success_unix_seconds == report.last_refresh_success_unix_seconds
    &&& opt(payload.last_failure_reason) == report.last_failure_reason
    &&& opt(payload.last_error) == report.last_error
}

fn source_payload(report: &JwtJwksRuntimeSnapshot) -> (r: ControlApiJwksSourcePayload)
    ensures
        shows_source(r, report@),
{
    ControlApiJwksSourcePayload {
        jwks_source_id: report.source_id.clone(),
        allowed_algorithms: clone_list(&report.allowed_algorithms),
        startup_behavior: report.startup_behavior,
        cache_state: report.state,
        active_key_count: report.active_key_count,
        age_seconds: report.age_seconds,
        last_refresh_attempt_unix_seconds: report.last_refresh_attempt_unix_seconds,
        last_refresh_success_unix_seconds: report.last_refresh_success_unix_seconds,
        last_failure_reason: report.last_failure_reason.clone(),
        last_error: report.last_error.clone(),
    }
}

/// How tokens are verified: each upstream's way, in the order of the upstreams' names, and every
/// source of keys.
#[derive(Debug)]
pub struct AuthAndJwksPayloads {
    pub providers: Vec<ControlApiAuthProviderPayload>,
    pub sources: Vec<ControlApiJwksSourcePayload>,
}

pub open spec fn shows_auth(
    payloads: AuthAndJwksPayloads,
    upstreams: Seq<RuntimeUpstream>,
    list: Seq<JwtJwksRuntimeSnapshot>,
) -> bool {
    &&& by_upstream(payload_views(payloads.providers@))
    &&& payload_views(payloads.providers@).to_multiset() == upstream_views(
        upstreams,
        list,
    ).to_multiset()
    &&& payloads.sources@.len() == list.len()
    &&& forall|i: int|
        0 <= i < list.len() ==> shows_source(#[trigger] payloads.sources@[i], list[i]@)
}

/// Gathers how tokens are verified, given the reports on the sources.
pub fn auth_and_jwks_payloads(config: &RuntimeConfig, list: &Vec<JwtJwksRuntimeSnapshot>) -> (r:
    AuthAndJwksPayloads)
    ensures
        shows_auth(r, config.upstreams@, list@),
{
    let mut providers: Vec<ControlApiAuthProviderPayload> = Vec::new();
    let mut i: usize = 0;
    let ghost all = upstream_views(config.upstreams@, list@);
    assert(payload_views(providers@) =~= all.take(0));
    while i < config.upstreams.len()
        invariant
            i <= config.upstreams.len(),
            all == upstream_views(config.upstreams@, list@),
            by_upstream(payload_views(providers@)),
            payload_views(providers@).to_multiset() == all.take(i as int).to_multiset(),
        decreases config.upstreams.len() - i,
    {
        let upstream = &config.upstreams[i];
        let jwt = match &upstream.policy.upstream_auth.jwt {
            Some(jwt) => Some(jwt_provider_payload(jwt, list)),
            None => None,
        };
        let payload = ControlApiAuthProviderPayload { upstream: upstream.name.clone(), jwt };
        assert(payload@ == all[i as int]);
        insert_by_upstream(&mut providers, payload);
        i = i + 1;
        assert(all.take(i as int) =~= all.take(i - 1).push(all[i - 1]));
        proof {
            vstd::seq_lib::to_multiset_build(all.take(i - 1), all[i - 1]);
        }
    }
    assert(all.take(i as int) =~= all);
    let mut sources: Vec<ControlApiJwksSourcePayload> = Vec::new();
    let mut k: usize = 0;
    while k < list.len()
        invariant
            k <= list.len(),
            sources@.len() == k,
            forall|n: int| 0 <= n < k ==> shows_source(#[trigger] sources@[n], list@[n]@),
        decreases list.len() - k,
    {
        sources.push(source_payload(&list[k]));
        k = k + 1;
    }
    AuthAndJwksPayloads { providers, sources }
}

/// How tokens are verified is shown from the reports on the sources that the policies name.
pub open spec fn shows_verification(
    payloads: AuthAndJwksPayloads,
    upstreams: Seq<RuntimeUpstream>,
    cache: Map<Seq<char>, EntryView>,
    now: Nanos,
    wall: WallTime,
) -> bool {
    exists|list: Seq<JwtJwksRuntimeSnapshot>| #[trigger]
        shows_auth(payloads, upstreams, list) && reports(
            list,
            merged_sources(policy_sources(upstreams)),
            cache,
            now,
            wall,
        )
}

/// Gathers how tokens are verified.
pub fn build_auth_and_jwks_payloads(
    config: &RuntimeConfig,
    cache: &JwtJwksSharedCache,
    now: Nanos,
    wall: WallTime,
) -> (r: AuthAndJwksPayloads)
    requires
        cache.wf(),
    ensures
        shows_verification(r, config.upstreams@, cache@, now, wall),
{
    let list = snapshot_runtime_jwks_sources(config, cache, now, wall);
    let r = auth_and_jwks_payloads(config, &list);
    assert(shows_auth(r, config.upstreams@, list@));
    r
}

} // verus!
