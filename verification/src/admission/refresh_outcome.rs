//! What becomes of a source once its fetch has ended.
use crate::admission::jwks_cache::{
    jwt_jwks_cache_state_name, jwt_jwks_cache_state_usable, refresh_failed, refresh_succeeded,
    snapshot_in, state_label, usable, EntryView, JwtJwksCacheSnapshot, JwtJwksCacheState,
    JwtJwksSharedCache, SnapshotView,
};
use crate::admission::jwks_refresh::JwtJwksFetchFailure;
use crate::admission::jwks_source::JwtJwksSourceConfig;
use crate::config::{Nanos, RuntimeJwtVerificationKey, WallTime};
use crate::text::owned;
use vstd::prelude::*;

verus! {

/// How a replaced key set left its source.
#[derive(Debug)]
pub enum ReplacementNote {
    /// The source has a usable key set.
    Published,
    /// The replacement held no usable key, and the last good keys stay.
    Quarantined { detail: String },
    /// The source has no usable key, and its tokens are refused.
    Unusable { detail: String },
    /// A state that no replacement should lead to.
    Unexpected,
}

pub enum NoteView {
    Published,
    Quarantined { detail: Seq<char> },
    Unusable { detail: Seq<char> },
    Unexpected,
}

impl View for ReplacementNote {
    type V = NoteView;

    open spec fn view(&self) -> NoteView {
        match self {
            ReplacementNote::Published => NoteView::Published,
            ReplacementNote::Quarantined { detail } => NoteView::Quarantined { detail: detail@ },
            ReplacementNote::Unusable { detail } => NoteView::Unusable { detail: detail@ },
            ReplacementNote::Unexpected => NoteView::Unexpected,
        }
    }
}

/// The report on a replaced key set.
#[derive(Debug)]
pub struct ReplacementReport {
    pub state: &'static str,
    pub previous_active_keys: usize,
    pub active_keys: usize,
    pub last_success_wall: Option<WallTime>,
    pub note: ReplacementNote,
}

pub struct ReplacementView {
    pub state: Seq<char>,
    pub previous_active_keys: nat,
    pub active_keys: nat,
    pub last_success_wall: Option<WallTime>,
    pub note: NoteView,
}

impl View for ReplacementReport {
    type V = ReplacementView;

    open spec fn view(&self) -> ReplacementView {
        ReplacementView {
            state: self.state@,
            previous_active_keys: self.previous_active_keys as nat,
            active_keys: self.active_keys as nat,
            last_success_wall: self.last_success_wall,
            note: self.note@,
        }
    }
}

/// The report on a failed fetch.
#[derive(Debug)]
pub struct FailureReport {
    pub state: &'static str,
    pub active_keys: usize,
    pub last_success_wall: Option<WallTime>,
    pub failure_reason: &'static str,
    pub action: &'static str,
}

pub struct FailureReportView {
    pub state: Seq<char>,
    pub active_keys: nat,
    pub last_success_wall: Option<WallTime>,
    pub failure_reason: Seq<char>,
    pub action: Seq<char>,
}

impl View for FailureReport {
    type V = FailureReportView;

    open spec fn view(&self) -> FailureReportView {
        FailureReportView {
            state: self.state@,
            active_keys: self.active_keys as nat,
            last_success_wall: self.last_success_wall,
            failure_reason: self.failure_reason@,
            action: self.action@,
        }
    }
}

/// The end of a refresh: a report where the source is still known, or the failure with its report.
#[derive(Debug)]
pub enum RefreshOutcome {
    Replaced(Option<ReplacementReport>),
    Failed { failure: JwtJwksFetchFailure, report: FailureReport },
}

/// The number of usable keys that a snapshot shows.
pub open spec fn key_count(snapshot: Option<SnapshotView>) -> nat {
    match snapshot {
        Some(entry) => entry.active_keys.len(),
        None => 0,
    }
}

/// How a snapshot is noted after a replacement.
pub open spec fn note_on(snapshot: SnapshotView) -> NoteView {
    let detail = match snapshot.last_error {
        Some(error) => error,
        None => "replacement produced no usable keys"@,
    };
    match snapshot.state {
        JwtJwksCacheState::Fresh | JwtJwksCacheState::Stale => NoteView::Published,
        JwtJwksCacheState::QuarantinedRetained => NoteView::Quarantined { detail },
        JwtJwksCacheState::EmptyUnusable => NoteView::Unusable { detail },
        JwtJwksCacheState::NeverFetched
        | JwtJwksCacheState::RefreshFailedRetained => NoteView::Unexpected,
    }
}

/// The report on a replaced key set, from the source before and after.
pub open spec fn replacement_report(
    before: Option<SnapshotView>,
    after: SnapshotView,
) -> ReplacementView {
    ReplacementView {
        state: state_label(after.state),
        previous_active_keys: key_count(before),
        active_keys: after.active_keys.len(),
        last_success_wall: after.last_success_wall,
        note: note_on(after),
    }
}

/// The report on a failed fetch, from the source afterwards.
pub open spec fn failure_report(
    after: Option<SnapshotView>,
    failure: JwtJwksFetchFailure,
) -> FailureReportView {
    FailureReportView {
        state: match after {
            Some(entry) => state_label(entry.state),
            None => "missing"@,
        },
        active_keys: key_count(after),
        last_success_wall: match after {
            Some(entry) => entry.last_success_wall,
            None => None,
        },
        failure_reason: failure.reason.label(),
        action: match after {
            Some(entry) if usable(entry.state) => "retain_last_known_good"@,
            _ => "reject_tokens"@,
        },
    }
}

/// The cache after a fetch of the source `id` ended.
pub open spec fn cache_after_fetch(
    cache: Map<Seq<char>, EntryView>,
    id: Seq<char>,
    fetched: Result<Vec<RuntimeJwtVerificationKey>, JwtJwksFetchFailure>,
    now: Nanos,
    wall: WallTime,
) -> Map<Seq<char>, EntryView> {
    if cache.contains_key(id) {
        cache.insert(
            id,
            match fetched {
                Ok(keys) => refresh_succeeded(cache[id], now, wall, keys@),
                Err(failure) => refresh_failed(cache[id], now, wall, failure),
            },
        )
    } else {
        cache
    }
}

fn note_for(snapshot: JwtJwksCacheSnapshot) -> (r: ReplacementNote)
    ensures
        r@ == note_on(snapshot@),
{
    let detail = match snapshot.last_error {
        Some(error) => error,
        None => owned("replacement produced no usable keys"),
    };
    match snapshot.state {
        JwtJwksCacheState::Fresh | JwtJwksCacheState::Stale => ReplacementNote::Published,
        JwtJwksCacheState::QuarantinedRetained => ReplacementNote::Quarantined { detail },
        JwtJwksCacheState::EmptyUnusable => ReplacementNote::Unusable { detail },
        JwtJwksCacheState::NeverFetched
        | JwtJwksCacheState::RefreshFailedRetained => ReplacementNote::Unexpected,
    }
}

/// Ends the refresh of a source: the cache takes the fetched keys or the failure, and what it then
/// knows of the source is reported.
pub fn refresh_jwks_source_inflight(
    cache: &mut JwtJwksSharedCache,
    source: &JwtJwksSourceConfig,
    fetched: Result<Vec<RuntimeJwtVerificationKey>, JwtJwksFetchFailure>,
    now: Nanos,
    wall: WallTime,
) -> (r: RefreshOutcome)
    requires
        old(cache).wf(),
        (fetched matches Ok(keys) && keys@.len() > 0) && old(cache)@.contains_key(
            source.source_identity@,
        ) ==> now + old(cache)@[source.source_identity@].source.stale_if_error <= Nanos::MAX,
    ensures
        final(cache).wf(),
        final(cache)@ == cache_after_fetch(
            old(cache)@,
            source.source_identity@,
            fetched,
            now,
            wall,
        ),
        match (r, fetched) {
            (RefreshOutcome::Replaced(report), Ok(_)) => {
                match (report, snapshot_in(final(cache)@, source.source_identity@, now)) {
                    (Some(report), Some(after)) => report@ == replacement_report(
                        snapshot_in(old(cache)@, source.source_identity@, now),
                        after,
                    ),
                    (None, None) => true,
                    _ => false,
                }
            },
            (RefreshOutcome::Failed { failure, report }, Err(error)) => failure == error && report@
                == failure_report(
                snapshot_in(final(cache)@, source.source_identity@, now),
                error,
            ),
            _ => false,
        },
{
    let id = source.source_identity.as_str();
    let previous_active_keys: usize = match cache.snapshot(id, now) {
        Some(entry) => entry.active_keys.len(),
        None => 0,
    };
    match fetched {
        Ok(keys) => {
            cache.complete_refresh_success(id, now, wall, keys);
            match cache.snapshot(id, now) {
                None => RefreshOutcome::Replaced(None),
                Some(snapshot) => {
                    let state = jwt_jwks_cache_state_name(snapshot.state);
                    let active_keys: usize = snapshot.active_keys.len();
                    let last_success_wall = snapshot.last_success_wall;
                    RefreshOutcome::Replaced(
                        Some(
                            ReplacementReport {
                                state,
                                previous_active_keys,
                                active_keys,
                                last_success_wall,
                                note: note_for(snapshot),
                            },
                        ),
                    )
                },
            }
        },
        Err(failure) => {
            cache.complete_refresh_failure(id, now, wall, &failure);
            let failure_reason = failure.reason.as_str();
            let report = match cache.snapshot(id, now) {
                None => FailureReport {
                    state: "missing",
                    active_keys: 0,
                    last_success_wall: None,
                    failure_reason,
                    action: "reject_tokens",
                },
                Some(entry) => FailureReport {
                    state: jwt_jwks_cache_state_name(entry.state),
                    active_keys: entry.active_keys.len(),
                    last_success_wall: entry.last_success_wall,
                    failure_reason,
                    action: if jwt_jwks_cache_state_usable(entry.state) {
                        "retain_last_known_good"
                    } else {
                        "reject_tokens"
                    },
                },
            };
            RefreshOutcome::Failed { failure, report }
        },
    }
}

} // verus!
