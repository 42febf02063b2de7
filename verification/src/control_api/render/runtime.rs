//! The proxy's state, as operators are shown it.
use crate::admission::jwks_cache::JwtJwksSharedCache;
use crate::config::{Nanos, RuntimeConfig, WallTime};
use crate::control_api::reload::activate::RunningGeneration;
use crate::control_api::reload::generation::GenerationHistoryEntry;
use crate::control_api::render::backends::{
    shows_inventory, BackendLifecycleInventorySnapshot, BackendLifecycleInventorySummary,
    ControlApiBackendInventoryPayload,
};
use crate::control_api::render::observability::{
    shows_observability, ControlApiObservabilityPayload, GenerationChangeEvent, ObservabilityState,
};
use crate::control_api::render::providers::{
    build_auth_and_jwks_payloads, shows_verification, AuthAndJwksPayloads,
};
use crate::control_api::render::quota::{
    shows_quota, ControlApiQuotaPayload, QuotaBackendStatusSnapshot, QuotaRuntimeSnapshot,
};
use crate::control_api::render::redaction::{redacted_path, sanitize_path};
use crate::control_api::render::secrets::{
    build_secrets_payload, build_tls_upstreams, shows_secrets, shows_tls_upstreams,
    ControlApiSecretsPayload, ControlApiTlsUpstreamPayload, SecretProviderConfig, UpstreamTlsPolicy,
};
use crate::listener::QUICListener;
use crate::status::StatusCode;
use crate::text::{clone_list, decimal, opt, owned, texts, to_decimal};
use vstd::prelude::*;

verus! {

#[derive(Debug)]
pub struct WatchdogState {
    pub enabled: bool,
    pub degraded: bool,
    pub restart_requested: bool,
    pub restart_reason: String,
    pub restart_requested_at_ms: u64,
}

#[derive(Debug)]
pub struct ControlApiHealthPayload {
    pub status: &'static str,
    pub uptime_ms: u64,
    pub watchdog_enabled: bool,
    pub watchdog_degraded: bool,
    pub restart_requested: bool,
}

#[derive(Debug, Clone, Copy, PartialEq, Eq, Structural)]
pub struct ControlApiReadyPayload {
    pub ready: bool,
    pub healthy_backends: usize,
    pub total_backends: usize,
    pub restart_requested: bool,
}

/// The proxy takes traffic: no restart is due, and a backend is healthy or none is needed.
pub open spec fn is_ready(
    summary: BackendLifecycleInventorySummary,
    restart_requested: bool,
) -> bool {
    !restart_requested && (summary.total_backends == 0 || summary.healthy_backends > 0)
}

#[derive(Debug, Clone, Copy, PartialEq, Eq, Structural)]
pub struct AdaptiveAdmissionState {
    pub enabled: bool,
    pub current_limit: usize,
    pub inflight_percent: u8,
}

/// The counters that operators are shown.
#[derive(Debug, Clone, Copy, PartialEq, Eq, Structural)]
pub struct ControlApiMetricsPayload {
    pub requests_total: u64,
    pub requests_success: u64,
    pub requests_failure: u64,
    pub active_connections: u64,
    pub backend_timeouts: u64,
    pub backend_errors: u64,
}

/// A listener's certificates.
#[derive(Debug)]
pub struct ListenerTlsState {
    pub listener: String,
    pub default_cert_path: String,
    pub default_key_path: String,
    pub default_cert_not_after_unix_seconds: i64,
    pub sni_names: Vec<String>,
    pub client_auth_enabled: bool,
    pub require_client_cert: bool,
    pub generation: u64,
    pub loaded_at_unix_ms: u64,
    pub last_reload_status: String,
}

#[derive(Debug)]
pub struct ControlApiTlsListenerPayload {
    pub listener: String,
    pub default_cert: String,
    pub default_key: String,
    pub default_cert_not_after_unix_seconds: i64,
    pub sni_names: Vec<String>,
    pub client_auth_enabled: bool,
    pub require_client_cert: bool,
    pub generation: u64,
    pub last_loaded_at_unix_ms: u64,
    pub last_reload_status: String,
}

/// A listener is shown with the paths of its files redacted.
pub open spec fn shows_listener(
    payload: ControlApiTlsListenerPayload,
    state: ListenerTlsState,
) -> bool {
    &&& payload.listener@ == state.listener@
    &&& payload.default_cert@ == redacted_path(state.default_cert_path@)
    &&& payload.default_key@ == redacted_path(state.default_key_path@)
    &&& payload.default_cert_not_after_unix_seconds == state.default_cert_not_after_unix_seconds
    &&& texts(payload.sni_names@) == texts(state.sni_names@)
    &&& payload.client_auth_enabled == state.client_auth_enabled
    &&& payload.require_client_cert == state.require_client_cert
    &&& payload.generation == state.generation
    &&& payload.last_loaded_at_unix_ms == state.loaded_at_unix_ms
    &&& payload.last_reload_status@ == state.last_reload_status@
}

impl ControlApiTlsListenerPayload {
    pub fn from_state(state: &ListenerTlsState) -> (r: Self)
        ensures
            shows_listener(r, *state),
    {
        ControlApiTlsListenerPayload {
            listener: state.listener.clone(),
            default_cert: sanitize_path(state.default_cert_path.as_str()),
            default_key: sanitize_path(state.default_key_path.as_str()),
            default_cert_not_after_unix_seconds: state.default_cert_not_after_unix_seconds,
            sni_names: clone_list(&state.sni_names),
            client_auth_enabled: state.client_auth_enabled,
            require_client_cert: state.require_client_cert,
            generation: state.generation,
            last_loaded_at_unix_ms: state.loaded_at_unix_ms,
            last_reload_status: state.last_reload_status.clone(),
        }
    }
}

/// Something counted under a name.
#[derive(Debug)]
pub struct NamedCount {
    pub name: String,
    pub count: u64,
}

/// The counts are shown as they are.
pub open spec fn shows_counts(shown: Seq<NamedCount>, counts: Seq<NamedCount>) -> bool {
    shown.len() == counts.len() && forall|i: int|
        0 <= i < shown.len() ==> (#[trigger] shown[i]).name@ == counts[i].name@ && shown[i].count
            == counts[i].count
}

fn clone_counts(counts: &Vec<NamedCount>) -> (r: Vec<NamedCount>)
    ensures
        shows_counts(r@, counts@),
{
    let mut r: Vec<NamedCount> = Vec::new();
    let mut i: usize = 0;
    while i < counts.len()
        invariant
            i <= counts.len(),
            r@.len() == i,
            forall|k: int|
                0 <= k < i ==> (#[trigger] r@[k]).name@ == counts@[k].name@ && r@[k].count
                    == counts@[k].count,
        decreases counts.len() - i,
    {
        r.push(NamedCount { name: counts[i].name.clone(), count: counts[i].count });
        i = i + 1;
    }
    r
}

/// The proxy's state.
pub struct ControlApiRuntimeState<'a> {
    pub uptime_ms: u64,
    pub expected_workers: usize,
    pub watchdog: &'a WatchdogState,
    pub adaptive_admission: AdaptiveAdmissionState,
    pub quota: &'a QuotaRuntimeSnapshot,
    pub quota_status: &'a QuotaBackendStatusSnapshot,
    pub running: Option<&'a RunningGeneration>,
    pub events: Option<&'a Vec<GenerationChangeEvent>>,
    pub inventory: &'a BackendLifecycleInventorySnapshot,
    pub summary: BackendLifecycleInventorySummary,
    pub config: &'a RuntimeConfig,
    pub jwt_validation_failures: &'a Vec<NamedCount>,
    pub jwt_algorithm_rejections: &'a Vec<NamedCount>,
    pub unknown_kid_events: &'a Vec<NamedCount>,
    pub metrics: ControlApiMetricsPayload,
    pub listeners: &'a Vec<ListenerTlsState>,
    pub tls_policies: &'a Vec<UpstreamTlsPolicy>,
    pub secret_providers: &'a Vec<SecretProviderConfig>,
    pub default_secret_provider: &'a Option<String>,
}

impl<'a> ControlApiRuntimeState<'a> {
    /// What the observability payload is made of.
    pub open spec fn observed(self) -> ObservabilityState<'a> {
        ObservabilityState {
            current_generation: match self.running {
                Some(running) => Some(running.generation),
                None => None,
            },
            quota_enabled: self.quota.enabled,
            events: self.events,
            inventory: self.inventory,
            summary: self.summary,
            quota_status: self.quota_status,
        }
    }

    fn observability_state(&self) -> (r: ObservabilityState<'a>)
        ensures
            r == self.observed(),
    {
        ObservabilityState {
            current_generation: match self.running {
                Some(running) => Some(running.generation),
                None => None,
            },
            quota_enabled: self.quota.enabled,
            events: self.events,
            inventory: self.inventory,
            summary: self.summary,
            quota_status: self.quota_status,
        }
    }
}

#[derive(Debug)]
pub struct ControlApiRuntimeWatchdogPayload {
    pub enabled: bool,
    pub degraded: bool,
    pub restart_requested: bool,
    pub restart_reason: String,
    pub restart_requested_at_ms: u64,
}

#[derive(Debug)]
pub struct ControlApiRuntimeGenerationPayload {
    pub generation: u64,
    pub config_path: String,
}

#[derive(Debug)]
pub struct ControlApiRuntimePayload {
    pub uptime_ms: u64,
    pub expected_workers: usize,
    pub watchdog: ControlApiRuntimeWatchdogPayload,
    pub adaptive_admission: AdaptiveAdmissionState,
    pub quota: ControlApiQuotaPayload,
    pub observability: ControlApiObservabilityPayload,
    pub auth_and_jwks: AuthAndJwksPayloads,
    pub jwt_validation_failures: Vec<NamedCount>,
    pub jwt_algorithm_rejections: Vec<NamedCount>,
    pub unknown_kid_events: Vec<NamedCount>,
    pub backends: ControlApiBackendInventoryPayload,
    pub metrics: ControlApiMetricsPayload,
    pub tls_listeners: Vec<ControlApiTlsListenerPayload>,
    pub tls_upstreams: Vec<ControlApiTlsUpstreamPayload>,
    pub secrets: ControlApiSecretsPayload,
    pub extension_model_status: &'static str,
    pub extension_model_details: &'static str,
    pub runtime: Option<ControlApiRuntimeGenerationPayload>,
}

/// The watchdog is shown as it is.
pub open spec fn shows_watchdog(
    payload: ControlApiRuntimeWatchdogPayload,
    state: WatchdogState,
) -> bool {
    &&& payload.enabled == state.enabled
    &&& payload.degraded == state.degraded
    &&& payload.restart_requested == state.restart_requested
    &&& payload.restart_reason@ == state.restart_reason@
    &&& payload.restart_requested_at_ms == state.restart_requested_at_ms
}

/// Every listener is shown, in its order.
pub open spec fn shows_listeners(
    payloads: Seq<ControlApiTlsListenerPayload>,
    states: Seq<ListenerTlsState>,
) -> bool {
    payloads.len() == states.len() && forall|i: int|
        0 <= i < payloads.len() ==> shows_listener(#[trigger] payloads[i], states[i])
}

/// The running generation is shown where there is one.
pub open spec fn shows_generation(
    payload: Option<ControlApiRuntimeGenerationPayload>,
    running: Option<&RunningGeneration>,
) -> bool {
    match (payload, running) {
        (Some(payload), Some(running)) => payload.generation == running.generation
            && payload.config_path@ == running.config_path@,
        (None, None) => true,
        _ => false,
    }
}

/// The proxy's state is shown whole: every part as its own rule says.
pub open spec fn shows_runtime(
    payload: ControlApiRuntimePayload,
    state: ControlApiRuntimeState,
) -> bool {
    &&& payload.uptime_ms == state.uptime_ms
    &&& payload.expected_workers == state.expected_workers
    &&& shows_watchdog(payload.watchdog, *state.watchdog)
    &&& payload.adaptive_admission == state.adaptive_admission
    &&& shows_quota(payload.quota, *state.quota, *state.quota_status)
    &&& shows_observability(payload.observability, state.observed())
    &&& shows_counts(payload.jwt_validation_failures@, state.jwt_validation_failures@)
    &&& shows_counts(payload.jwt_algorithm_rejections@, state.jwt_algorithm_rejections@)
    &&& shows_counts(payload.unknown_kid_events@, state.unknown_kid_events@)
    &&& shows_inventory(
        payload.backends,
        *state.inventory,
        state.summary.healthy_backends,
        state.summary.total_backends,
    )
    &&& payload.metrics == state.metrics
    &&& shows_listeners(payload.tls_listeners@, state.listeners@)
    &&& shows_tls_upstreams(payload.tls_upstreams@, state.tls_policies@)
    &&& shows_secrets(
        payload.secrets,
        state.secret_providers@,
        opt(*state.default_secret_provider),
        state.tls_policies@,
    )
    &&& payload.extension_model_status@ == "non_goal"@
    &&& payload.extension_model_details@
        == "No plugin/middleware ABI is exposed in-process today; extension support remains a deliberate non-goal until a safe isolation model is designed."@
    &&& shows_generation(payload.runtime, state.running)
}

impl ControlApiRuntimePayload {
    pub fn from_state(
        state: &ControlApiRuntimeState<'_>,
        cache: &JwtJwksSharedCache,
        now: Nanos,
        wall: WallTime,
    ) -> (r: Self)
        requires
            cache.wf(),
        ensures
            shows_runtime(r, *state),
            shows_verification(r.auth_and_jwks, state.config.upstreams@, cache@, now, wall),
    {
        let mut tls_listeners: Vec<ControlApiTlsListenerPayload> = Vec::new();
        let mut i: usize = 0;
        while i < state.listeners.len()
            invariant
                i <= state.listeners.len(),
                tls_listeners@.len() == i,
                forall|k: int|
                    0 <= k < i ==> shows_listener(
                        #[trigger] tls_listeners@[k],
                        state.listeners@[k],
                    ),
            decreases state.listeners.len() - i,
        {
            tls_listeners.push(ControlApiTlsListenerPayload::from_state(&state.listeners[i]));
            i = i + 1;
        }
        let runtime = match state.running {
            Some(running) => Some(
                ControlApiRuntimeGenerationPayload {
                    generation: running.generation,
                    config_path: running.config_path.clone(),
                },
            ),
            None => None,
        };
        ControlApiRuntimePayload {
            uptime_ms: state.uptime_ms,
            expected_workers: state.expected_workers,
            watchdog: ControlApiRuntimeWatchdogPayload {
                enabled: state.watchdog.enabled,
                degraded: state.watchdog.degraded,
                restart_requested: state.watchdog.restart_requested,
                restart_reason: state.watchdog.restart_reason.clone(),
                restart_requested_at_ms: state.watchdog.restart_requested_at_ms,
            },
            adaptive_admission: state.adaptive_admission,
            quota: ControlApiQuotaPayload::from_snapshot(state.quota, state.quota_status),
            observability: ControlApiObservabilityPayload::from_runtime_state(
                &state.observability_state(),
            ),
            auth_and_jwks: build_auth_and_jwks_payloads(state.config, cache, now, wall),
            jwt_validation_failures: clone_counts(state.jwt_validation_failures),
            jwt_algorithm_rejections: clone_counts(state.jwt_algorithm_rejections),
            unknown_kid_events: clone_counts(state.unknown_kid_events),
            backends: ControlApiBackendInventoryPayload::from_inventory(
                state.inventory,
                state.summary.healthy_backends,
                state.summary.total_backends,
            ),
            metrics: state.metrics,
            tls_listeners,
            tls_upstreams: build_tls_upstreams(state.tls_policies),
            secrets: build_secrets_payload(
                state.secret_providers,
                state.default_secret_provider,
                state.tls_policies,
            ),
            extension_model_status: "non_goal",
            extension_model_details: "No plugin/middleware ABI is exposed in-process today; extension support remains a deliberate non-goal until a safe isolation model is designed.",
            runtime,
        }
    }
}

/// A generation that can be looked back at.
#[derive(Debug)]
pub struct RuntimeGenerationRecord {
    pub generation: u64,
    pub status: &'static str,
    pub rollback_candidate: bool,
    pub has_bundle: bool,
    pub note: Option<String>,
}

#[derive(Debug)]
pub struct ControlApiRetainedGenerationPayload {
    pub generation: u64,
    pub status: &'static str,
    pub rollback_candidate: bool,
    pub has_bundle: bool,
    pub note: Option<String>,
}

pub open spec fn shows_record(
    payload: ControlApiRetainedGenerationPayload,
    record: RuntimeGenerationRecord,
) -> bool {
    &&& payload.generation == record.generation
    &&& payload.status@ == record.status@
    &&& payload.rollback_candidate == record.rollback_candidate
    &&& payload.has_bundle == record.has_bundle
    &&& opt(payload.note) == opt(record.note)
}

impl ControlApiRetainedGenerationPayload {
    pub fn from_record(record: &RuntimeGenerationRecord) -> (r: Self)
        ensures
            shows_record(r, *record),
    {
        ControlApiRetainedGenerationPayload {
            generation: record.generation,
            status: record.status,
            rollback_candidate: record.rollback_candidate,
            has_bundle: record.has_bundle,
            note: record.note.clone(),
        }
    }
}

/// The entries of a history that are about one generation, in their order.
pub open spec fn entries_about(
    history: Seq<GenerationHistoryEntry>,
    generation: u64,
) -> Seq<GenerationHistoryEntry>
    decreases history.len(),
{
    if history.len() == 0 {
        Seq::empty()
    } else {
        let rest = entries_about(history.drop_first(), generation);
        if history[0].generation == generation {
            seq![history[0]] + rest
        } else {
            rest
        }
    }
}

fn keep_entries_about(history: Vec<GenerationHistoryEntry>, generation: u64) -> (r: Vec<
    GenerationHistoryEntry,
>)
    ensures
        r@ == entries_about(history@, generation),
{
    let mut rest = history;
    let mut r: Vec<GenerationHistoryEntry> = Vec::new();
    assert(r@ + entries_about(rest@, generation) =~= entries_about(history@, generation));
    while rest.len() > 0
        invariant
            r@ + entries_about(rest@, generation) == entries_about(history@, generation),
        decreases rest.len(),
    {
        let ghost before = rest@;
        let ghost kept = r@;
        let entry = rest.remove(0);
        assert(rest@ =~= before.drop_first());
        if entry.generation == generation {
            r.push(entry);
            assert(r@ + entries_about(rest@, generation) =~= kept + (seq![before[0]]
                + entries_about(rest@, generation)));
        }
    }
    assert(r@ + entries_about(rest@, generation) =~= r@);
    r
}

/// The history of the runtime.
#[derive(Debug)]
pub struct ControlApiRuntimeHistoryPayload {
    pub active_generation: u64,
    pub observability: ControlApiObservabilityPayload,
    pub retained_generations: Vec<ControlApiRetainedGenerationPayload>,
    pub entries: Vec<GenerationHistoryEntry>,
}

/// The history of one generation.
#[derive(Debug)]
pub struct ControlApiRuntimeHistoryGenerationPayload {
    pub generation: u64,
    pub observability: ControlApiObservabilityPayload,
    pub retained_generation: ControlApiRetainedGenerationPayload,
    pub entries: Vec<GenerationHistoryEntry>,
}

/// The answer about a generation that the runtime does not know.
#[derive(Debug)]
pub struct UnknownGeneration {
    pub status: StatusCode,
    pub error: String,
}

impl QUICListener {
    pub fn render_control_api_health(uptime_ms: u64, watchdog: &WatchdogState) -> (r:
        ControlApiHealthPayload)
        ensures
            r.status@ == "ok"@,
            r.uptime_ms == uptime_ms,
            r.watchdog_enabled == watchdog.enabled,
            r.watchdog_degraded == watchdog.degraded,
            r.restart_requested == watchdog.restart_requested,
    {
        ControlApiHealthPayload {
            status: "ok",
            uptime_ms,
            watchdog_enabled: watchdog.enabled,
            watchdog_degraded: watchdog.degraded,
            restart_requested: watchdog.restart_requested,
        }
    }

    pub fn render_control_api_ready(
        summary: BackendLifecycleInventorySummary,
        restart_requested: bool,
    ) -> (r: (StatusCode, ControlApiReadyPayload))
        ensures
            r.0 == if is_ready(summary, restart_requested) {
                StatusCode::Success
            } else {
                StatusCode::ServiceUnavailable
            },
            r.1 == (ControlApiReadyPayload {
                ready: is_ready(summary, restart_requested),
                healthy_backends: summary.healthy_backends,
                total_backends: summary.total_backends,
                restart_requested,
            }),
    {
        let ready = !restart_requested && (summary.total_backends == 0 || summary.healthy_backends
            > 0);
        let payload = ControlApiReadyPayload {
            ready,
            healthy_backends: summary.healthy_backends,
            total_backends: summary.total_backends,
            restart_requested,
        };
        let status = if ready {
            StatusCode::Success
        } else {
            StatusCode::ServiceUnavailable
        };
        (status, payload)
    }

    pub fn render_control_api_runtime_history(
        active_generation: u64,
        observed: &ObservabilityState<'_>,
        retained: &Vec<RuntimeGenerationRecord>,
        entries: Vec<GenerationHistoryEntry>,
    ) -> (r: ControlApiRuntimeHistoryPayload)
        ensures
            r.active_generation == active_generation,
            shows_observability(r.observability, *observed),
            r.retained_generations@.len() == retained@.len(),
            forall|i: int|
                0 <= i < retained@.len() ==> shows_record(
                    #[trigger] r.retained_generations@[i],
                    retained@[i],
                ),
            r.entries == entries,
    {
        let mut retained_generations: Vec<ControlApiRetainedGenerationPayload> = Vec::new();
        let mut i: usize = 0;
        while i < retained.len()
            invariant
                i <= retained.len(),
                retained_generations@.len() == i,
                forall|k: int|
                    0 <= k < i ==> shows_record(
                        #[trigger] retained_generations@[k],
                        retained@[k],
                    ),
            decreases retained.len() - i,
        {
            retained_generations.push(
                ControlApiRetainedGenerationPayload::from_record(&retained[i]),
            );
            i = i + 1;
        }
        ControlApiRuntimeHistoryPayload {
            active_generation,
            observability: ControlApiObservabilityPayload::from_runtime_state(observed),
            retained_generations,
            entries,
        }
    }

    pub fn render_control_api_runtime_history_generation(
        generation: u64,
        observed: &ObservabilityState<'_>,
        record: Option<&RuntimeGenerationRecord>,
        history: Vec<GenerationHistoryEntry>,
    ) -> (r: Result<ControlApiRuntimeHistoryGenerationPayload, UnknownGeneration>)
        ensures
            match (r, record) {
                (Ok(payload), Some(record)) => {
                    &&& payload.generation == generation
                    &&& shows_observability(payload.observability, *observed)
                    &&& shows_record(payload.retained_generation, *record)
                    &&& payload.entries@ == entries_about(history@, generation)
                },
                (Err(answer), None) => answer.status == StatusCode::NotFound && answer.error@
                    == "generation "@ + decimal(generation as nat)
                    + " not found in runtime history"@,
                _ => false,
            },
    {
        let record = match record {
            Some(record) => record,
            None => {
                let mut error = owned("generation ");
                error.append(to_decimal(generation).as_str());
                error.append(" not found in runtime history");
                return Err(UnknownGeneration { status: StatusCode::NotFound, error });
            },
        };
        Ok(
            ControlApiRuntimeHistoryGenerationPayload {
                generation,
                observability: ControlApiObservabilityPayload::from_runtime_state(observed),
                retained_generation: ControlApiRetainedGenerationPayload::from_record(record),
                entries: keep_entries_about(history, generation),
            },
        )
    }
}

} // verus!
