//! The quotas, as operators are shown them.
use crate::text::{clone_list, opt, texts};
use vstd::prelude::*;

verus! {

/// A recent failure of the quotas' backend.
#[derive(Debug)]
pub struct QuotaBackendErrorSnapshot {
    pub observed_at_unix_ms: Option<u64>,
    pub policy_name: Option<String>,
    pub reason: String,
    pub detail: Option<String>,
}

/// The state of the quotas' backend.
#[derive(Debug)]
pub struct QuotaBackendStatusSnapshot {
    pub backend_mode: String,
    pub availability: String,
    pub degraded: bool,
    pub health_reason: Option<String>,
    pub last_observed_at_unix_ms: Option<u64>,
    pub recent_errors: Vec<QuotaBackendErrorSnapshot>,
}

#[derive(Debug)]
pub struct QuotaSelectorIntrospectionSnapshot {
    pub route: bool,
    pub tenant: Option<String>,
    pub token: Option<String>,
    pub client: Option<String>,
}

#[derive(Debug, Clone, Copy, PartialEq, Eq, Structural)]
pub struct QuotaWindowIntrospectionSnapshot {
    pub requests: u64,
    pub window_secs: u64,
}

#[derive(Debug)]
pub struct QuotaPolicyIntrospectionSnapshot {
    pub name: String,
    pub route_allowlist: Vec<String>,
    pub selector: QuotaSelectorIntrospectionSnapshot,
    pub burst: Option<QuotaWindowIntrospectionSnapshot>,
    pub sustained: Option<QuotaWindowIntrospectionSnapshot>,
}

/// The quotas as they are configured.
#[derive(Debug)]
pub struct QuotaRuntimeSnapshot {
    pub enabled: bool,
    pub enforcement: &'static str,
    pub backend_failure_policy: &'static str,
    pub policies: Vec<QuotaPolicyIntrospectionSnapshot>,
}

#[derive(Debug)]
pub struct ControlApiQuotaBackendErrorPayload {
    pub observed_at_unix_ms: Option<u64>,
    pub policy_name: Option<String>,
    pub reason: String,
    pub detail: Option<String>,
}

/// The failure is shown as it is.
pub open spec fn shows_error(
    payload: ControlApiQuotaBackendErrorPayload,
    snapshot: QuotaBackendErrorSnapshot,
) -> bool {
    &&& payload.observed_at_unix_ms == snapshot.observed_at_unix_ms
    &&& opt(payload.policy_name) == opt(snapshot.policy_name)
    &&& payload.reason@ == snapshot.reason@
    &&& opt(payload.detail) == opt(snapshot.detail)
}

impl ControlApiQuotaBackendErrorPayload {
    pub fn from_snapshot(snapshot: &QuotaBackendErrorSnapshot) -> (r: Self)
        ensures
            shows_error(r, *snapshot),
    {
        ControlApiQuotaBackendErrorPayload {
            observed_at_unix_ms: snapshot.observed_at_unix_ms,
            policy_name: snapshot.policy_name.clone(),
            reason: snapshot.reason.clone(),
            detail: snapshot.detail.clone(),
        }
    }
}

#[derive(Debug)]
pub struct ControlApiQuotaBackendStatusPayload {
    pub availability: String,
    pub degraded: bool,
    pub health_reason: Option<String>,
    pub last_observed_at_unix_ms: Option<u64>,
    pub recent_errors: Vec<ControlApiQuotaBackendErrorPayload>,
}

/// The backend's state is shown as it is, every failure in its order.
pub open spec fn shows_status(
    payload: ControlApiQuotaBackendStatusPayload,
    snapshot: QuotaBackendStatusSnapshot,
) -> bool {
    &&& payload.availability@ == snapshot.availability@
    &&& payload.degraded == snapshot.degraded
    &&& opt(payload.health_reason) == opt(snapshot.health_reason)
    &&& payload.last_observed_at_unix_ms == snapshot.last_observed_at_unix_ms
    &&& payload.recent_errors@.len() == snapshot.recent_errors@.len()
    &&& forall|i: int|
        0 <= i < payload.recent_errors@.len() ==> shows_error(
            #[trigger] payload.recent_errors@[i],
            snapshot.recent_errors@[i],
        )
}

impl ControlApiQuotaBackendStatusPayload {
    pub fn from_snapshot(snapshot: &QuotaBackendStatusSnapshot) -> (r: Self)
        ensures
            shows_status(r, *snapshot),
    {
        let mut recent_errors: Vec<ControlApiQuotaBackendErrorPayload> = Vec::new();
        let mut i: usize = 0;
        while i < snapshot.recent_errors.len()
            invariant
                i <= snapshot.recent_errors.len(),
                recent_errors@.len() == i,
                forall|k: int|
                    0 <= k < i ==> shows_error(
                        #[trigger] recent_errors@[k],
                        snapshot.recent_errors@[k],
                    ),
            decreases snapshot.recent_errors.len() - i,
        {
            recent_errors.push(
                ControlApiQuotaBackendErrorPayload::from_snapshot(&snapshot.recent_errors[i]),
            );
            i = i + 1;
        }
        ControlApiQuotaBackendStatusPayload {
            availability: snapshot.availability.clone(),
            degraded: snapshot.degraded,
            health_reason: snapshot.health_reason.clone(),
            last_observed_at_unix_ms: snapshot.last_observed_at_unix_ms,
            recent_errors,
        }
    }
}

#[derive(Debug)]
pub struct ControlApiQuotaSelectorPayload {
    pub route: bool,
    pub tenant: Option<String>,
    pub token: Option<String>,
    pub client: Option<String>,
}

pub open spec fn shows_selector(
    payload: ControlApiQuotaSelectorPayload,
    snapshot: QuotaSelectorIntrospectionSnapshot,
) -> bool {
    &&& payload.route == snapshot.route
    &&& opt(payload.tenant) == opt(snapshot.tenant)
    &&& opt(payload.token) == opt(snapshot.token)
    &&& opt(payload.client) == opt(snapshot.client)
}

impl ControlApiQuotaSelectorPayload {
    pub fn from_snapshot(snapshot: &QuotaSelectorIntrospectionSnapshot) -> (r: Self)
        ensures
            shows_selector(r, *snapshot),
    {
        ControlApiQuotaSelectorPayload {
            route: snapshot.route,
            tenant: snapshot.tenant.clone(),
            token: snapshot.token.clone(),
            client: snapshot.client.clone(),
        }
    }
}

#[derive(Debug, Clone, Copy, PartialEq, Eq, Structural)]
pub struct ControlApiQuotaWindowPayload {
    pub requests: u64,
    pub window_secs: u64,
}

pub open spec fn window_payload(
    window: Option<QuotaWindowIntrospectionSnapshot>,
) -> Option<ControlApiQuotaWindowPayload> {
    match window {
        Some(window) => Some(
            ControlApiQuotaWindowPayload {
                requests: window.requests,
                window_secs: window.window_secs,
            },
        ),
        None => None,
    }
}

impl ControlApiQuotaWindowPayload {
    pub fn from_snapshot(snapshot: &QuotaWindowIntrospectionSnapshot) -> (r: Self)
        ensures
            window_payload(Some(*snapshot)) == Some(r),
    {
        ControlApiQuotaWindowPayload {
            requests: snapshot.requests,
            window_secs: snapshot.window_secs,
        }
    }
}

#[derive(Debug)]
pub struct ControlApiQuotaPolicyPayload {
    pub name: String,
    pub route_allowlist: Vec<String>,
    pub selector: ControlApiQuotaSelectorPayload,
    pub burst: Option<ControlApiQuotaWindowPayload>,
    pub sustained: Option<ControlApiQuotaWindowPayload>,
}

pub open spec fn shows_policy(
    payload: ControlApiQuotaPolicyPayload,
    snapshot: QuotaPolicyIntrospectionSnapshot,
) -> bool {
    &&& payload.name@ == snapshot.name@
    &&& texts(payload.route_allowlist@) == texts(snapshot.route_allowlist@)
    &&& shows_selector(payload.selector, snapshot.selector)
    &&& payload.burst == window_payload(snapshot.burst)
    &&& payload.sustained == window_payload(snapshot.sustained)
}

impl ControlApiQuotaPolicyPayload {
    pub fn from_snapshot(snapshot: &QuotaPolicyIntrospectionSnapshot) -> (r: Self)
        ensures
            shows_policy(r, *snapshot),
    {
        let burst = match &snapshot.burst {
            Some(window) => Some(ControlApiQuotaWindowPayload::from_snapshot(window)),
            None => None,
        };
        let sustained = match &snapshot.sustained {
            Some(window) => Some(ControlApiQuotaWindowPayload::from_snapshot(window)),
            None => None,
        };
        ControlApiQuotaPolicyPayload {
            name: snapshot.name.clone(),
            route_allowlist: clone_list(&snapshot.route_allowlist),
            selector: ControlApiQuotaSelectorPayload::from_snapshot(&snapshot.selector),
            burst,
            sustained,
        }
    }
}

#[derive(Debug)]
pub struct ControlApiQuotaPayload {
    pub enabled: bool,
    pub enforcement: &'static str,
    pub backend_failure_policy: &'static str,
    pub active_backend: String,
    pub backend_status: ControlApiQuotaBackendStatusPayload,
    pub policies: Vec<ControlApiQuotaPolicyPayload>,
}

/// The quotas are shown as they are configured, with their backend's state.
pub open spec fn shows_quota(
    payload: ControlApiQuotaPayload,
    runtime: QuotaRuntimeSnapshot,
    status: QuotaBackendStatusSnapshot,
) -> bool {
    &&& payload.enabled == runtime.enabled
    &&& payload.enforcement@ == runtime.enforcement@
    &&& payload.backend_failure_policy@ == runtime.backend_failure_policy@
    &&& payload.active_backend@ == status.backend_mode@
    &&& shows_status(payload.backend_status, status)
    &&& payload.policies@.len() == runtime.policies@.len()
    &&& forall|i: int|
        0 <= i < payload.policies@.len() ==> shows_policy(
            #[trigger] payload.policies@[i],
            runtime.policies@[i],
        )
}

impl ControlApiQuotaPayload {
    pub fn from_snapshot(runtime: &QuotaRuntimeSnapshot, status: &QuotaBackendStatusSnapshot) -> (r:
        Self)
        ensures
            shows_quota(r, *runtime, *status),
    {
        let mut policies: Vec<ControlApiQuotaPolicyPayload> = Vec::new();
        let mut i: usize = 0;
        while i < runtime.policies.len()
            invariant
                i <= runtime.policies.len(),
                policies@.len() == i,
                forall|k: int|
                    0 <= k < i ==> shows_policy(#[trigger] policies@[k], runtime.policies@[k]),
            decreases runtime.policies.len() - i,
        {
            policies.push(ControlApiQuotaPolicyPayload::from_snapshot(&runtime.policies[i]));
            i = i + 1;
        }
        ControlApiQuotaPayload {
            enabled: runtime.enabled,
            enforcement: runtime.enforcement,
            backend_failure_policy: runtime.backend_failure_policy,
            active_backend: status.backend_mode.clone(),
            backend_status: ControlApiQuotaBackendStatusPayload::from_snapshot(status),
            policies,
        }
    }
}

#[derive(Debug)]
pub struct ControlApiQuotaBackendHealthSummaryPayload {
    pub enabled: bool,
    pub active_backend: String,
    pub availability: String,
    pub degraded: bool,
    pub health_reason: Option<String>,
    pub last_observed_at_unix_ms: Option<u64>,
    pub recent_error_count: usize,
}

pub open spec fn sums_up_status(
    payload: ControlApiQuotaBackendHealthSummaryPayload,
    enabled: bool,
    snapshot: QuotaBackendStatusSnapshot,
) -> bool {
    &&& payload.enabled == enabled
    &&& payload.active_backend@ == snapshot.backend_mode@
    &&& payload.availability@ == snapshot.availability@
    &&& payload.degraded == snapshot.degraded
    &&& opt(payload.health_reason) == opt(snapshot.health_reason)
    &&& payload.last_observed_at_unix_ms == snapshot.last_observed_at_unix_ms
    &&& payload.recent_error_count == snapshot.recent_errors@.len()
}

impl ControlApiQuotaBackendHealthSummaryPayload {
    pub fn from_snapshot(enabled: bool, snapshot: &QuotaBackendStatusSnapshot) -> (r: Self)
        ensures
            sums_up_status(r, enabled, *snapshot),
    {
        ControlApiQuotaBackendHealthSummaryPayload {
            enabled,
            active_backend: snapshot.backend_mode.clone(),
            availability: snapshot.availability.clone(),
            degraded: snapshot.degraded,
            health_reason: snapshot.health_reason.clone(),
            last_observed_at_unix_ms: snapshot.last_observed_at_unix_ms,
            recent_error_count: snapshot.recent_errors.len(),
        }
    }
}

} // verus!
