//! What operators observe the proxy by.
use crate::control_api::audit::admin_audit_schema_version;
use crate::control_api::reload::generation::{
    GenerationHistoryEntry, GenerationOperation, GenerationStatus,
};
use crate::control_api::render::backends::{
    sums_up_backends, BackendLifecycleInventorySnapshot, BackendLifecycleInventorySummary,
    ControlApiBackendHealthSummaryPayload,
};
use crate::control_api::render::quota::{
    sums_up_status, ControlApiQuotaBackendHealthSummaryPayload, QuotaBackendStatusSnapshot,
};
use crate::text::opt;
use vstd::prelude::*;

verus! {

/// How many recent operations are shown.
pub const RECENT_ADMIN_ACTION_LIMIT: usize = 5;

/// A change of the running generation.
#[derive(Debug)]
pub struct GenerationChangeEvent {
    pub kind: &'static str,
    pub entry: GenerationHistoryEntry,
    pub emitted_at_ms: u64,
}

#[derive(Debug)]
pub struct ControlApiRecentAdminActionPayload {
    pub kind: &'static str,
    pub operation: GenerationOperation,
    pub generation: u64,
    pub status: GenerationStatus,
    pub config_version: Option<u32>,
    pub requested_by: Option<String>,
    pub trigger_source: Option<String>,
    pub requested_at_ms: u64,
    pub completed_at_ms: Option<u64>,
    pub event_emitted_at_ms: u64,
    pub summary: String,
}

pub open spec fn shows_event(
    payload: ControlApiRecentAdminActionPayload,
    event: GenerationChangeEvent,
) -> bool {
    &&& payload.kind@ == event.kind@
    &&& payload.operation == event.entry.operation
    &&& payload.generation == event.entry.generation
    &&& payload.status == event.entry.status
    &&& payload.config_version == event.entry.config_version
    &&& opt(payload.requested_by) == opt(event.entry.requested_by)
    &&& opt(payload.trigger_source) == opt(event.entry.trigger_source)
    &&& payload.requested_at_ms == event.entry.requested_at_ms
    &&& payload.completed_at_ms == event.entry.completed_at_ms
    &&& payload.event_emitted_at_ms == event.emitted_at_ms
    &&& payload.summary@ == event.entry.summary@
}

impl ControlApiRecentAdminActionPayload {
    pub fn from_event(event: &GenerationChangeEvent) -> (r: Self)
        ensures
            shows_event(r, *event),
    {
        ControlApiRecentAdminActionPayload {
            kind: event.kind,
            operation: event.entry.operation,
            generation: event.entry.generation,
            status: event.entry.status,
            config_version: event.entry.config_version,
            requested_by: event.entry.requested_by.clone(),
            trigger_source: event.entry.trigger_source.clone(),
            requested_at_ms: event.entry.requested_at_ms,
            completed_at_ms: event.entry.completed_at_ms,
            event_emitted_at_ms: event.emitted_at_ms,
            summary: event.entry.summary.clone(),
        }
    }
}

#[derive(Debug)]
pub struct ControlApiObservabilityDocumentationPayload {
    pub observability_contract: &'static str,
    pub control_plane_operations: &'static str,
    pub metrics_and_alerts_operations: &'static str,
    pub distributed_quota_operations: &'static str,
}

/// The documents that operators are pointed to.
pub open spec fn points_to_documents(payload: ControlApiObservabilityDocumentationPayload) -> bool {
    &&& payload.observability_contract@ == "docs/architecture/observability-contract.md"@
    &&& payload.control_plane_operations@ == "docs/operations/control-plane.md"@
    &&& payload.metrics_and_alerts_operations@ == "docs/operations/metrics-and-alerts.md"@
    &&& payload.distributed_quota_operations@ == "docs/operations/distributed-quota.md"@
}

#[derive(Debug)]
pub struct ControlApiObservabilityDashboardPayload {
    pub dashboard_id: &'static str,
    pub definition_path: &'static str,
    pub focus: &'static str,
}

pub struct DashboardView {
    pub dashboard_id: Seq<char>,
    pub definition_path: Seq<char>,
    pub focus: Seq<char>,
}

impl View for ControlApiObservabilityDashboardPayload {
    type V = DashboardView;

    open spec fn view(&self) -> DashboardView {
        DashboardView {
            dashboard_id: self.dashboard_id@,
            definition_path: self.definition_path@,
            focus: self.focus@,
        }
    }
}

pub open spec fn dashboard_views(
    list: Seq<ControlApiObservabilityDashboardPayload>,
) -> Seq<DashboardView> {
    list.map_values(|dashboard: ControlApiObservabilityDashboardPayload| dashboard@)
}

pub open spec fn dashboard_view(id: Seq<char>, path: Seq<char>, focus: Seq<char>) -> DashboardView {
    DashboardView { dashboard_id: id, definition_path: path, focus }
}

/// The dashboards that come with the proxy.
pub open spec fn shipped_dashboards() -> Seq<DashboardView> {
    seq![
        dashboard_view(
            "edge_traffic"@,
            "deploy/observability/grafana/edge-traffic.json"@,
            "edge traffic, status mix, and latency"@,
        ),
        dashboard_view(
            "admission_overload"@,
            "deploy/observability/grafana/admission-overload.json"@,
            "admission, overload, quota, and auth outcomes"@,
        ),
        dashboard_view(
            "backend_health"@,
            "deploy/observability/grafana/backend-health.json"@,
            "backend health, dns refresh, and client rotations"@,
        ),
        dashboard_view(
            "retries_hedges"@,
            "deploy/observability/grafana/retries-hedges.json"@,
            "retry amplification and hedge effectiveness"@,
        ),
        dashboard_view(
            "tls_certificates"@,
            "deploy/observability/grafana/tls-certificates.json"@,
            "tls handshake failures and certificate expiry"@,
        ),
        dashboard_view(
            "control_plane"@,
            "deploy/observability/grafana/control-plane.json"@,
            "runtime activity, watchdog state, and control-plane health"@,
        ),
    ]
}

fn dashboard(id: &'static str, path: &'static str, focus: &'static str) -> (r:
    ControlApiObservabilityDashboardPayload)
    ensures
        r@ == dashboard_view(id@, path@, focus@),
{
    ControlApiObservabilityDashboardPayload { dashboard_id: id, definition_path: path, focus }
}

fn dashboards() -> (r: Vec<ControlApiObservabilityDashboardPayload>)
    ensures
        dashboard_views(r@) == shipped_dashboards(),
{
    let mut r: Vec<ControlApiObservabilityDashboardPayload> = Vec::new();
    r.push(
        dashboard(
            "edge_traffic",
            "deploy/observability/grafana/edge-traffic.json",
            "edge traffic, status mix, and latency",
        ),
    );
    r.push(
        dashboard(
            "admission_overload",
            "deploy/observability/grafana/admission-overload.json",
            "admission, overload, quota, and auth outcomes",
        ),
    );
    r.push(
        dashboard(
            "backend_health",
            "deploy/observability/grafana/backend-health.json",
            "backend health, dns refresh, and client rotations",
        ),
    );
    r.push(
        dashboard(
            "retries_hedges",
            "deploy/observability/grafana/retries-hedges.json",
            "retry amplification and hedge effectiveness",
        ),
    );
    r.push(
        dashboard(
            "tls_certificates",
            "deploy/observability/grafana/tls-certificates.json",
            "tls handshake failures and certificate expiry",
        ),
    );
    r.push(
        dashboard(
            "control_plane",
            "deploy/observability/grafana/control-plane.json",
            "runtime activity, watchdog state, and control-plane health",
        ),
    );
    assert(dashboard_views(r@) =~= shipped_dashboards());
    r
}

/// What the observability payload is made of. The events are absent where there is no runtime.
pub struct ObservabilityState<'a> {
    pub current_generation: Option<u64>,
    pub quota_enabled: bool,
    pub events: Option<&'a Vec<GenerationChangeEvent>>,
    pub inventory: &'a BackendLifecycleInventorySnapshot,
    pub summary: BackendLifecycleInventorySummary,
    pub quota_status: &'a QuotaBackendStatusSnapshot,
}

#[derive(Debug)]
pub struct ControlApiObservabilityPayload {
    pub contract_version: &'static str,
    pub audit_schema_version: &'static str,
    pub current_generation: Option<u64>,
    pub documentation: ControlApiObservabilityDocumentationPayload,
    pub dashboard_packages: Vec<ControlApiObservabilityDashboardPayload>,
    pub backend_health_summary: ControlApiBackendHealthSummaryPayload,
    pub quota_backend_health_summary: ControlApiQuotaBackendHealthSummaryPayload,
    pub recent_admin_actions: Vec<ControlApiRecentAdminActionPayload>,
}

/// The first few of the events are shown, in their order.
pub open spec fn shows_recent(
    shown: Seq<ControlApiRecentAdminActionPayload>,
    events: Seq<GenerationChangeEvent>,
) -> bool {
    &&& shown.len() == if events.len() < RECENT_ADMIN_ACTION_LIMIT {
        events.len() as int
    } else {
        RECENT_ADMIN_ACTION_LIMIT as int
    }
    &&& forall|i: int| 0 <= i < shown.len() ==> shows_event(#[trigger] shown[i], events[i])
}

/// The events, none where there is no runtime.
pub open spec fn known_events(events: Option<&Vec<GenerationChangeEvent>>) -> Seq<
    GenerationChangeEvent,
> {
    match events {
        Some(events) => events@,
        None => Seq::empty(),
    }
}

pub open spec fn shows_observability(
    payload: ControlApiObservabilityPayload,
    state: ObservabilityState,
) -> bool {
    &&& payload.contract_version@ == "v1"@
    &&& payload.audit_schema_version@ == "v1"@
    &&& payload.current_generation == state.current_generation
    &&& points_to_documents(payload.documentation)
    &&& dashboard_views(payload.dashboard_packages@) == shipped_dashboards()
    &&& sums_up_backends(payload.backend_health_summary, *state.inventory, state.summary)
    &&& sums_up_status(
        payload.quota_backend_health_summary,
        state.quota_enabled,
        *state.quota_status,
    )
    &&& shows_recent(payload.recent_admin_actions@, known_events(state.events))
}

fn recent_actions(events: Option<&Vec<GenerationChangeEvent>>) -> (r: Vec<
    ControlApiRecentAdminActionPayload,
>)
    ensures
        shows_recent(r@, known_events(events)),
{
    let mut r: Vec<ControlApiRecentAdminActionPayload> = Vec::new();
    if let Some(events) = events {
        let mut i: usize = 0;
        while i < events.len() && i < RECENT_ADMIN_ACTION_LIMIT
            invariant
                i <= events.len(),
                i <= RECENT_ADMIN_ACTION_LIMIT,
                r@.len() == i,
                forall|k: int| 0 <= k < i ==> shows_event(#[trigger] r@[k], events@[k]),
            decreases events.len() - i,
        {
            r.push(ControlApiRecentAdminActionPayload::from_event(&events[i]));
            i = i + 1;
        }
    }
    r
}

impl ControlApiObservabilityPayload {
    pub fn from_runtime_state(state: &ObservabilityState<'_>) -> (r: Self)
        ensures
            shows_observability(r, *state),
    {
        ControlApiObservabilityPayload {
            contract_version: "v1",
            audit_schema_version: admin_audit_schema_version(),
            current_generation: state.current_generation,
            documentation: ControlApiObservabilityDocumentationPayload {
                observability_contract: "docs/architecture/observability-contract.md",
                control_plane_operations: "docs/operations/control-plane.md",
                metrics_and_alerts_operations: "docs/operations/metrics-and-alerts.md",
                distributed_quota_operations: "docs/operations/distributed-quota.md",
            },
            dashboard_packages: dashboards(),
            backend_health_summary: ControlApiBackendHealthSummaryPayload::from_inventory(
                state.inventory,
                state.summary,
            ),
            quota_backend_health_summary: ControlApiQuotaBackendHealthSummaryPayload::from_snapshot(
                state.quota_enabled,
                state.quota_status,
            ),
            recent_admin_actions: recent_actions(state.events),
        }
    }
}

} // verus!
