//! The search for a token's key through the sources that a policy allows.
use crate::admission::jwks_cache::{
    may_refresh_on_demand, refresh_started, registered, snapshot_in, EntryView, JwtJwksCacheState,
    JwtJwksSharedCache, SnapshotView,
};
use crate::admission::jwks_refresh::JwtJwksFetchFailureReason;
use crate::admission::jwks_source::{
    cooldown_of, opt_source, source_of, JwtJwksSourceConfig, SourceView,
};
use crate::admission::jwt::JwtValidationFailureReason;
use crate::admission::key_resolution::{
    matching_key, resolve_matching_asymmetric_key, JwtKeyResolution, JwtVerificationKey,
    JwtVerificationKeySource, KeySourceView, KeyView, ResolutionView, ResolvedJwtVerificationKey,
};
use crate::config::{JwtAlgorithm, Nanos, RuntimeJwtAuth, WallTime, SECOND};
use crate::text::opt_str;
use vstd::prelude::*;

verus! {

/// The cache after a refresh on demand was asked for, and the source to fetch where one is due.
pub open spec fn on_demand(
    cache: Map<Seq<char>, EntryView>,
    id: Seq<char>,
    now: Nanos,
    wall: WallTime,
) -> (Map<Seq<char>, EntryView>, Option<SourceView>) {
    if cache.contains_key(id) && may_refresh_on_demand(cache[id], now) {
        let entry = cache[id];
        let next = (now + cooldown_of(entry.source.refresh_interval)) as Nanos;
        (
            cache.insert(
                id,
                EntryView {
                    next_on_demand_refresh_at: Some(next),
                    ..refresh_started(entry, now, wall)
                },
            ),
            Some(entry.source),
        )
    } else {
        (cache, None)
    }
}

/// The outcome of a search: what was found, what the cache then holds, and the source that is to
/// be fetched on demand.
pub struct LookupView {
    pub resolution: ResolutionView,
    pub cache: Map<Seq<char>, EntryView>,
    pub refresh: Option<SourceView>,
}

/// The resolution by what a snapshot says.
pub open spec fn snapshot_resolution(
    snapshot: SnapshotView,
    algorithm: JwtAlgorithm,
    kid: Option<Seq<char>>,
    source: KeySourceView,
) -> ResolutionView {
    match snapshot.state {
        JwtJwksCacheState::NeverFetched => ResolutionView::SourceUnavailable { source },
        JwtJwksCacheState::EmptyUnusable => if snapshot.last_failure_reason == Some(
            JwtJwksFetchFailureReason::MalformedDocument,
        ) || snapshot.last_failure_reason == Some(
            JwtJwksFetchFailureReason::AmbiguousDuplicateKid,
        ) {
            ResolutionView::ConfigurationInvalid {
                source,
                reason: JwtValidationFailureReason::JwkKeyParseFailed,
            }
        } else {
            ResolutionView::SourceUnavailable { source }
        },
        _ => matching_key(snapshot.active_keys, algorithm, kid, source, snapshot.state),
    }
}

/// The search of a remote source: the source is made known to the cache, and a key id that its
/// usable keys lack asks for a refresh.
pub open spec fn remote_lookup(
    cache: Map<Seq<char>, EntryView>,
    source: SourceView,
    algorithm: JwtAlgorithm,
    kid: Option<Seq<char>>,
    now: Nanos,
    wall: WallTime,
) -> LookupView {
    let known = registered(cache, source);
    let from = KeySourceView::RemoteJwks { source_identity: source.source_identity };
    match snapshot_in(known, source.source_identity, now) {
        None => LookupView {
            resolution: ResolutionView::SourceUnavailable { source: from },
            cache: known,
            refresh: None,
        },
        Some(snapshot) => {
            let resolution = snapshot_resolution(snapshot, algorithm, kid, from);
            if crate::admission::jwks_cache::usable(snapshot.state) && resolution is KeyNotFound
                && kid is Some {
                let asked = on_demand(known, snapshot.source.source_identity, now, wall);
                LookupView { resolution, cache: asked.0, refresh: asked.1 }
            } else {
                LookupView { resolution, cache: known, refresh: None }
            }
        },
    }
}

/// A key was found, fresh or stale.
pub open spec fn has_key(r: ResolutionView) -> bool {
    r is Found || r is StaleButUsable
}

/// The source that a resolution names.
pub open spec fn resolution_source(r: ResolutionView) -> KeySourceView {
    match r {
        ResolutionView::Found { source, .. } => source,
        ResolutionView::StaleButUsable { source, .. } => source,
        ResolutionView::KeyNotFound { source } => source,
        ResolutionView::SourceUnavailable { source } => source,
        ResolutionView::ConfigurationInvalid { source, .. } => source,
    }
}

/// Two sources both hold a matching key: the source that is blamed is the first one found fresh,
/// where it is a remote one, else the first one found stale, else the static keys.
pub open spec fn ambiguous_source(first: ResolutionView, second: ResolutionView) -> KeySourceView {
    let found = if first is Found {
        Some(resolution_source(first))
    } else if second is Found {
        Some(resolution_source(second))
    } else {
        None
    };
    let stale = if first is StaleButUsable {
        Some(resolution_source(first))
    } else if second is StaleButUsable {
        Some(resolution_source(second))
    } else {
        None
    };
    match (found, stale) {
        (Some(KeySourceView::RemoteJwks { source_identity }), _) => KeySourceView::RemoteJwks {
            source_identity,
        },
        (_, Some(source)) => source,
        (_, None) => KeySourceView::StaticAsymmetricKeys,
    }
}

/// The outcome of a search through the static keys and a remote source, each where it is
/// configured. A key from both is ambiguous; an unavailable source outweighs an absent key; of two
/// such outcomes the remote source's counts.
pub open spec fn combined(
    fixed: Option<ResolutionView>,
    remote: Option<ResolutionView>,
) -> ResolutionView {
    match (fixed, remote) {
        (None, None) => ResolutionView::KeyNotFound { source: KeySourceView::StaticAsymmetricKeys },
        (Some(only), None) => only,
        (None, Some(only)) => only,
        (Some(first), Some(second)) => if first is ConfigurationInvalid {
            first
        } else if second is ConfigurationInvalid {
            second
        } else if has_key(first) && has_key(second) {
            ResolutionView::ConfigurationInvalid {
                source: ambiguous_source(first, second),
                reason: JwtValidationFailureReason::AmbiguousVerificationKey,
            }
        } else if has_key(first) {
            first
        } else if has_key(second) {
            second
        } else if first is SourceUnavailable && !(second is SourceUnavailable) {
            first
        } else {
            second
        },
    }
}

/// The static keys' answer, where there are any.
pub open spec fn fixed_resolution(
    jwt: RuntimeJwtAuth,
    algorithm: JwtAlgorithm,
    kid: Option<Seq<char>>,
) -> Option<ResolutionView> {
    if jwt.static_keys@.len() == 0 {
        None
    } else {
        Some(
            matching_key(
                jwt.static_keys@,
                algorithm,
                kid,
                KeySourceView::StaticAsymmetricKeys,
                JwtJwksCacheState::Fresh,
            ),
        )
    }
}

/// The search for a public key. Where the static keys are unusable the remote source is left alone.
pub open spec fn asymmetric_lookup(
    jwt: RuntimeJwtAuth,
    algorithm: JwtAlgorithm,
    kid: Option<Seq<char>>,
    cache: Map<Seq<char>, EntryView>,
    now: Nanos,
    wall: WallTime,
) -> LookupView {
    let fixed = fixed_resolution(jwt, algorithm, kid);
    let blocked = match fixed {
        Some(resolution) => resolution is ConfigurationInvalid,
        None => false,
    };
    match source_of(jwt) {
        Some(source) if !blocked => {
            let remote = remote_lookup(cache, source, algorithm, kid, now, wall);
            LookupView { resolution: combined(fixed, Some(remote.resolution)), ..remote }
        },
        _ => LookupView { resolution: combined(fixed, None), cache, refresh: None },
    }
}

/// The source that a policy would have been searched for an algorithm's key.
pub open spec fn expected_source(jwt: RuntimeJwtAuth, algorithm: JwtAlgorithm) -> KeySourceView {
    match (algorithm, source_of(jwt)) {
        (JwtAlgorithm::Hs256, _) => KeySourceView::StaticSecret,
        (_, Some(source)) => KeySourceView::RemoteJwks { source_identity: source.source_identity },
        (_, None) => KeySourceView::StaticAsymmetricKeys,
    }
}

/// The search for a token's key.
pub open spec fn lookup(
    jwt: RuntimeJwtAuth,
    algorithm: JwtAlgorithm,
    kid: Option<Seq<char>>,
    cache: Map<Seq<char>, EntryView>,
    now: Nanos,
    wall: WallTime,
) -> LookupView {
    if jwt.require_kid && kid is None {
        LookupView {
            resolution: ResolutionView::ConfigurationInvalid {
                source: expected_source(jwt, algorithm),
                reason: JwtValidationFailureReason::MissingKid,
            },
            cache,
            refresh: None,
        }
    } else if algorithm == JwtAlgorithm::Hs256 {
        LookupView {
            resolution: if jwt.secret@.len() == 0 {
                ResolutionView::KeyNotFound { source: KeySourceView::StaticSecret }
            } else {
                ResolutionView::Found {
                    source: KeySourceView::StaticSecret,
                    key: KeyView::Secret(jwt.secret@),
                }
            },
            cache,
            refresh: None,
        }
    } else {
        asymmetric_lookup(jwt, algorithm, kid, cache, now, wall)
    }
}

/// What a search found, and the source that is to be fetched on demand.
#[derive(Debug)]
pub struct JwtKeyLookup<'a> {
    pub resolution: JwtKeyResolution<'a>,
    pub refresh: Option<JwtJwksSourceConfig>,
}

/// The search for one token's key.
pub struct JwtKeyResolver<'a> {
    pub jwt: &'a RuntimeJwtAuth,
    pub algorithm: JwtAlgorithm,
    pub kid: Option<&'a str>,
}

impl<'a> JwtKeyResolver<'a> {
    pub fn new(jwt: &'a RuntimeJwtAuth, algorithm: JwtAlgorithm, kid: Option<&'a str>) -> (r: Self)
        ensures
            r.jwt == jwt,
            r.algorithm == algorithm,
            r.kid == kid,
    {
        JwtKeyResolver { jwt, algorithm, kid }
    }

    pub fn resolve(&self, cache: &mut JwtJwksSharedCache, now: Nanos, wall: WallTime) -> (r:
        JwtKeyLookup<'a>)
        requires
            old(cache).wf(),
            now + 30 * SECOND <= Nanos::MAX,
        ensures
            final(cache).wf(),
            (LookupView {
                resolution: r.resolution@,
                cache: final(cache)@,
                refresh: opt_source(r.refresh),
            }) == lookup(*self.jwt, self.algorithm, opt_str(self.kid), old(cache)@, now, wall),
    {
        if self.jwt.require_kid && self.kid.is_none() {
            let source = match self.algorithm {
                JwtAlgorithm::Hs256 => JwtVerificationKeySource::StaticSecret,
                JwtAlgorithm::Rs256 | JwtAlgorithm::Es256 => match JwtJwksSourceConfig::from_jwt(
                    self.jwt,
                ) {
                    Some(source) => JwtVerificationKeySource::RemoteJwks {
                        source_identity: source.source_identity,
                    },
                    None => JwtVerificationKeySource::StaticAsymmetricKeys,
                },
            };
            let resolution = JwtKeyResolution::ConfigurationInvalid {
                source,
                reason: JwtValidationFailureReason::MissingKid,
            };
            return JwtKeyLookup { resolution, refresh: None };
        }
        match self.algorithm {
            JwtAlgorithm::Hs256 => JwtKeyLookup {
                resolution: self.resolve_static_secret_source(),
                refresh: None,
            },
            JwtAlgorithm::Rs256 | JwtAlgorithm::Es256 => self.resolve_asymmetric_sources(
                cache,
                now,
                wall,
            ),
        }
    }

    fn resolve_static_secret_source(&self) -> (r: JwtKeyResolution<'a>)
        ensures
            r@ == if self.jwt.secret@.len() == 0 {
                ResolutionView::KeyNotFound { source: KeySourceView::StaticSecret }
            } else {
                ResolutionView::Found {
                    source: KeySourceView::StaticSecret,
                    key: KeyView::Secret(self.jwt.secret@),
                }
            },
    {
        if self.jwt.secret.as_str().is_empty() {
            return JwtKeyResolution::KeyNotFound { source: JwtVerificationKeySource::StaticSecret };
        }
        JwtKeyResolution::Found(
            ResolvedJwtVerificationKey {
                source: JwtVerificationKeySource::StaticSecret,
                key: JwtVerificationKey::Hs256Secret(self.jwt.secret.as_str()),
            },
        )
    }

    fn resolve_asymmetric_sources(
        &self,
        cache: &mut JwtJwksSharedCache,
        now: Nanos,
        wall: WallTime,
    ) -> (r: JwtKeyLookup<'a>)
        requires
            old(cache).wf(),
            now + 30 * SECOND <= Nanos::MAX,
        ensures
            final(cache).wf(),
            (LookupView {
                resolution: r.resolution@,
                cache: final(cache)@,
                refresh: opt_source(r.refresh),
            }) == asymmetric_lookup(
                *self.jwt,
                self.algorithm,
                opt_str(self.kid),
                old(cache)@,
                now,
                wall,
            ),
    {
        let mut fixed = None;
        if self.jwt.static_keys.len() > 0 {
            let resolution = self.resolve_static_asymmetric_source();
            if let JwtKeyResolution::ConfigurationInvalid { .. } = resolution {
                return JwtKeyLookup { resolution, refresh: None };
            }
            fixed = Some(resolution);
        }
        match JwtJwksSourceConfig::from_jwt(self.jwt) {
            Some(source) => {
                let remote = self.resolve_remote_jwks_source(&source, cache, now, wall);
                JwtKeyLookup {
                    resolution: combine_resolutions(fixed, Some(remote.resolution)),
                    refresh: remote.refresh,
                }
            },
            None => JwtKeyLookup { resolution: combine_resolutions(fixed, None), refresh: None },
        }
    }

    fn resolve_static_asymmetric_source(&self) -> (r: JwtKeyResolution<'a>)
        ensures
            r@ == matching_key(
                self.jwt.static_keys@,
                self.algorithm,
                opt_str(self.kid),
                KeySourceView::StaticAsymmetricKeys,
                JwtJwksCacheState::Fresh,
            ),
    {
        resolve_matching_asymmetric_key(
            &self.jwt.static_keys,
            self.algorithm,
            self.kid,
            JwtVerificationKeySource::StaticAsymmetricKeys,
            JwtJwksCacheState::Fresh,
        )
    }

    fn resolve_remote_jwks_source(
        &self,
        source_config: &JwtJwksSourceConfig,
        cache: &mut JwtJwksSharedCache,
        now: Nanos,
        wall: WallTime,
    ) -> (r: JwtKeyLookup<'a>)
        requires
            old(cache).wf(),
            now + 30 * SECOND <= Nanos::MAX,
        ensures
            final(cache).wf(),
            (LookupView {
                resolution: r.resolution@,
                cache: final(cache)@,
                refresh: opt_source(r.refresh),
            }) == remote_lookup(
                old(cache)@,
                source_config@,
                self.algorithm,
                opt_str(self.kid),
                now,
                wall,
            ),
    {
        cache.register_source(source_config.clone());
        let source = JwtVerificationKeySource::RemoteJwks {
            source_identity: source_config.source_identity.clone(),
        };
        let entry = match cache.snapshot(source_config.source_identity.as_str(), now) {
            Some(entry) => entry,
            None => {
                return JwtKeyLookup {
                    resolution: JwtKeyResolution::SourceUnavailable { source },
                    refresh: None,
                };
            },
        };
        match entry.state {
            JwtJwksCacheState::NeverFetched => JwtKeyLookup {
                resolution: JwtKeyResolution::SourceUnavailable { source },
                refresh: None,
            },
            JwtJwksCacheState::EmptyUnusable => {
                let resolution = match entry.last_failure_reason {
                    Some(
                        JwtJwksFetchFailureReason::MalformedDocument
                        | JwtJwksFetchFailureReason::AmbiguousDuplicateKid,
                    ) => JwtKeyResolution::ConfigurationInvalid {
                        source,
                        reason: JwtValidationFailureReason::JwkKeyParseFailed,
                    },
                    _ => JwtKeyResolution::SourceUnavailable { source },
                };
                JwtKeyLookup { resolution, refresh: None }
            },
            JwtJwksCacheState::Fresh
            | JwtJwksCacheState::Stale
            | JwtJwksCacheState::RefreshFailedRetained
            | JwtJwksCacheState::QuarantinedRetained => {
                let resolution = resolve_matching_asymmetric_key(
                    &entry.active_keys,
                    self.algorithm,
                    self.kid,
                    source,
                    entry.state,
                );
                let unknown_kid = match resolution {
                    JwtKeyResolution::KeyNotFound { .. } => self.kid.is_some(),
                    _ => false,
                };
                let refresh = if unknown_kid {
                    cache.schedule_on_demand_refresh(
                        entry.source.source_identity.as_str(),
                        now,
                        wall,
                    )
                } else {
                    None
                };
                JwtKeyLookup { resolution, refresh }
            },
        }
    }
}

fn is_remote(source: &JwtVerificationKeySource) -> (r: bool)
    ensures
        r == (source@ is RemoteJwks),
{
    match source {
        JwtVerificationKeySource::RemoteJwks { .. } => true,
        _ => false,
    }
}

/// The source to blame where two sources hold a matching key.
fn blame<'a>(first: JwtKeyResolution<'a>, second: JwtKeyResolution<'a>) -> (r:
    JwtVerificationKeySource)
    requires
        has_key(first@),
        has_key(second@),
    ensures
        r@ == ambiguous_source(first@, second@),
{
    match (first, second) {
        (JwtKeyResolution::Found(a), JwtKeyResolution::StaleButUsable(b)) => if is_remote(
            &a.source,
        ) {
            a.source
        } else {
            b.source
        },
        (JwtKeyResolution::StaleButUsable(a), JwtKeyResolution::Found(b)) => if is_remote(
            &b.source,
        ) {
            b.source
        } else {
            a.source
        },
        (JwtKeyResolution::StaleButUsable(a), _) => a.source,
        (JwtKeyResolution::Found(a), _) => if is_remote(&a.source) {
            a.source
        } else {
            JwtVerificationKeySource::StaticAsymmetricKeys
        },
        _ => JwtVerificationKeySource::StaticAsymmetricKeys,
    }
}

fn found_key<'a>(r: &JwtKeyResolution<'a>) -> (b: bool)
    ensures
        b == has_key(r@),
{
    match r {
        JwtKeyResolution::Found(_) | JwtKeyResolution::StaleButUsable(_) => true,
        _ => false,
    }
}

/// The outcome of a search through the static keys and a remote source.
pub fn combine_resolutions<'a>(
    fixed: Option<JwtKeyResolution<'a>>,
    remote: Option<JwtKeyResolution<'a>>,
) -> (r: JwtKeyResolution<'a>)
    ensures
        r@ == combined(
            match fixed {
                Some(f) => Some(f@),
                None => None,
            },
            match remote {
                Some(f) => Some(f@),
                None => None,
            },
        ),
{
    match (fixed, remote) {
        (None, None) => JwtKeyResolution::KeyNotFound {
            source: JwtVerificationKeySource::StaticAsymmetricKeys,
        },
        (Some(only), None) => only,
        (None, Some(only)) => only,
        (Some(first), Some(second)) => {
            if let JwtKeyResolution::ConfigurationInvalid { .. } = first {
                return first;
            }
            if let JwtKeyResolution::ConfigurationInvalid { .. } = second {
                return second;
            }
            if found_key(&first) && found_key(&second) {
                return JwtKeyResolution::ConfigurationInvalid {
                    source: blame(first, second),
                    reason: JwtValidationFailureReason::AmbiguousVerificationKey,
                };
            }
            if found_key(&first) {
                return first;
            }
            if found_key(&second) {
                return second;
            }
            match (first, second) {
                (first, JwtKeyResolution::SourceUnavailable { source }) => {
                    JwtKeyResolution::SourceUnavailable { source }
                },
                (JwtKeyResolution::SourceUnavailable { source }, _) => {
                    JwtKeyResolution::SourceUnavailable { source }
                },
                (_, second) => second,
            }
        },
    }
}

} // verus!
