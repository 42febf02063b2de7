//! The backends, as operators are shown them.
use crate::admission::jwks_cache::{opt_unix_seconds, optional_unix_seconds};
use crate::config::WallTime;
use crate::text::{clone_list, opt_str, texts};
use vstd::prelude::*;

verus! {

/// Why a backend is considered unhealthy.
#[derive(Debug, Clone, Copy, PartialEq, Eq, Structural)]
pub enum HealthFailureReason {
    HttpStatus5xx,
    Timeout,
    Transport,
    Tls,
    CircuitOpen,
}

pub open spec fn reason_label(reason: HealthFailureReason) -> Seq<char> {
    match reason {
        HealthFailureReason::HttpStatus5xx => "5xx"@,
        HealthFailureReason::Timeout => "timeout"@,
        HealthFailureReason::Transport => "transport"@,
        HealthFailureReason::Tls => "tls"@,
        HealthFailureReason::CircuitOpen => "circuit_open"@,
    }
}

pub fn health_failure_reason_label(reason: HealthFailureReason) -> (r: &'static str)
    ensures
        r@ == reason_label(reason),
{
    match reason {
        HealthFailureReason::HttpStatus5xx => "5xx",
        HealthFailureReason::Timeout => "timeout",
        HealthFailureReason::Transport => "transport",
        HealthFailureReason::Tls => "tls",
        HealthFailureReason::CircuitOpen => "circuit_open",
    }
}

#[derive(Debug, Clone, Copy, PartialEq, Eq, Structural)]
pub enum BackendHealthState {
    Unknown,
    Healthy,
    Unhealthy { reason: Option<HealthFailureReason> },
}

#[derive(Debug, Clone, Copy, PartialEq, Eq, Structural)]
pub enum BackendMembershipState {
    Active,
    Suppressed,
    Removed,
}

/// A backend's place in a pool. The latency is the bit pattern of the number of milliseconds.
#[derive(Debug)]
pub struct BackendPoolPlacementSnapshot {
    pub upstream_name: String,
    pub backend_index: usize,
    pub healthy: bool,
    pub active_requests: usize,
    pub ewma_latency_ms_bits: Option<u64>,
    pub membership_epoch: u64,
}

/// A backend, where its name leads, and how it is.
#[derive(Debug)]
pub struct BackendLifecycleSnapshot {
    pub backend_addr: String,
    pub authority_host: String,
    pub authority_port: u16,
    pub resolved_addrs: Vec<String>,
    pub last_refresh_success_at: Option<WallTime>,
    pub refresh_generation: u64,
    pub health: BackendHealthState,
    pub membership: BackendMembershipState,
    pub placements: Vec<BackendPoolPlacementSnapshot>,
}

#[derive(Debug)]
pub struct BackendLifecycleInventorySnapshot {
    pub backends: Vec<BackendLifecycleSnapshot>,
}

/// How many backends are placed in pools, and how many of those are healthy.
#[derive(Debug, Clone, Copy, PartialEq, Eq, Structural)]
pub struct BackendLifecycleInventorySummary {
    pub healthy_backends: usize,
    pub total_backends: usize,
}

#[derive(Debug)]
pub struct ControlApiBackendPlacementPayload {
    pub upstream: String,
    pub backend_index: usize,
    pub healthy: bool,
    pub active_requests: usize,
    pub ewma_latency_ms_bits: Option<u64>,
    pub membership_epoch: u64,
}

pub open spec fn shows_placement(
    payload: ControlApiBackendPlacementPayload,
    snapshot: BackendPoolPlacementSnapshot,
) -> bool {
    &&& payload.upstream@ == snapshot.upstream_name@
    &&& payload.backend_index == snapshot.backend_index
    &&& payload.healthy == snapshot.healthy
    &&& payload.active_requests == snapshot.active_requests
    &&& payload.ewma_latency_ms_bits == snapshot.ewma_latency_ms_bits
    &&& payload.membership_epoch == snapshot.membership_epoch
}

impl ControlApiBackendPlacementPayload {
    pub fn from_snapshot(snapshot: &BackendPoolPlacementSnapshot) -> (r: Self)
        ensures
            shows_placement(r, *snapshot),
    {
        ControlApiBackendPlacementPayload {
            upstream: snapshot.upstream_name.clone(),
            backend_index: snapshot.backend_index,
            healthy: snapshot.healthy,
            active_requests: snapshot.active_requests,
            ewma_latency_ms_bits: snapshot.ewma_latency_ms_bits,
            membership_epoch: snapshot.membership_epoch,
        }
    }
}

#[derive(Debug)]
pub struct ControlApiBackendLifecyclePayload {
    pub backend: String,
    pub health: &'static str,
    pub health_reason: Option<&'static str>,
    pub membership: &'static str,
    pub authority_host: String,
    pub authority_port: u16,
    pub resolved_addrs: Vec<String>,
    pub resolution_generation: u64,
    pub last_refresh_success_at_unix_seconds: Option<u64>,
    pub placements: Vec<ControlApiBackendPlacementPayload>,
}

pub open spec fn health_label(health: BackendHealthState) -> Seq<char> {
    match health {
        BackendHealthState::Unknown => "unknown"@,
        BackendHealthState::Healthy => "healthy"@,
        BackendHealthState::Unhealthy { .. } => "unhealthy"@,
    }
}

/// The reason is shown of an unhealthy backend alone, where one is known.
pub open spec fn shown_reason(health: BackendHealthState) -> Option<Seq<char>> {
    match health {
        BackendHealthState::Unhealthy { reason: Some(reason) } => Some(reason_label(reason)),
        _ => None,
    }
}

pub open spec fn membership_label(membership: BackendMembershipState) -> Seq<char> {
    match membership {
        BackendMembershipState::Active => "active"@,
        BackendMembershipState::Suppressed => "suppressed"@,
        BackendMembershipState::Removed => "removed"@,
    }
}

pub open spec fn shows_backend(
    payload: ControlApiBackendLifecyclePayload,
    snapshot: BackendLifecycleSnapshot,
) -> bool {
    &&& payload.backend@ == snapshot.backend_addr@
    &&& payload.health@ == health_label(snapshot.health)
    &&& opt_str(payload.health_reason) == shown_reason(snapshot.health)
    &&& payload.membership@ == membership_label(snapshot.membership)
    &&& payload.authority_host@ == snapshot.authority_host@
    &&& payload.authority_port == snapshot.authority_port
    &&& texts(payload.resolved_addrs@) == texts(snapshot.resolved_addrs@)
    &&& payload.resolution_generation == snapshot.refresh_generation
    &&& payload.last_refresh_success_at_unix_seconds == opt_unix_seconds(
        snapshot.last_refresh_success_at,
    )
    &&& payload.placements@.len() == snapshot.placements@.len()
    &&& forall|i: int|
        0 <= i < payload.placements@.len() ==> shows_placement(
            #[trigger] payload.placements@[i],
            snapshot.placements@[i],
        )
}

impl ControlApiBackendLifecyclePayload {
    pub fn from_snapshot(snapshot: &BackendLifecycleSnapshot) -> (r: Self)
        ensures
            shows_backend(r, *snapshot),
    {
        let mut placements: Vec<ControlApiBackendPlacementPayload> = Vec::new();
        let mut i: usize = 0;
        while i < snapshot.placements.len()
            invariant
                i <= snapshot.placements.len(),
                placements@.len() == i,
                forall|k: int|
                    0 <= k < i ==> shows_placement(
                        #[trigger] placements@[k],
                        snapshot.placements@[k],
                    ),
            decreases snapshot.placements.len() - i,
        {
            placements.push(
                ControlApiBackendPlacementPayload::from_snapshot(&snapshot.placements[i]),
            );
            i = i + 1;
        }
        let health = match snapshot.health {
            BackendHealthState::Unknown => "unknown",
            BackendHealthState::Healthy => "healthy",
            BackendHealthState::Unhealthy { .. } => "unhealthy",
        };
        let health_reason = match snapshot.health {
            BackendHealthState::Unhealthy { reason: Some(reason) } => Some(
                health_failure_reason_label(reason),
            ),
            _ => None,
        };
        let membership = match snapshot.membership {
            BackendMembershipState::Active => "active",
            BackendMembershipState::Suppressed => "suppressed",
            BackendMembershipState::Removed => "removed",
        };
        ControlApiBackendLifecyclePayload {
            backend: snapshot.backend_addr.clone(),
            health,
            health_reason,
            membership,
            authority_host: snapshot.authority_host.clone(),
            authority_port: snapshot.authority_port,
            resolved_addrs: clone_list(&snapshot.resolved_addrs),
            resolution_generation: snapshot.refresh_generation,
            last_refresh_success_at_unix_seconds: optional_unix_seconds(
                snapshot.last_refresh_success_at,
            ),
            placements,
        }
    }
}

#[derive(Debug)]
pub struct ControlApiBackendInventoryPayload {
    pub healthy: usize,
    pub total: usize,
    pub lifecycle: Vec<ControlApiBackendLifecyclePayload>,
}

/// Every backend is shown, in its order.
pub open spec fn shows_inventory(
    payload: ControlApiBackendInventoryPayload,
    inventory: BackendLifecycleInventorySnapshot,
    healthy: usize,
    total: usize,
) -> bool {
    &&& payload.healthy == healthy
    &&& payload.total == total
    &&& payload.lifecycle@.len() == inventory.backends@.len()
    &&& forall|i: int|
        0 <= i < payload.lifecycle@.len() ==> shows_backend(
            #[trigger] payload.lifecycle@[i],
            inventory.backends@[i],
        )
}

impl ControlApiBackendInventoryPayload {
    pub fn from_inventory(
        inventory: &BackendLifecycleInventorySnapshot,
        healthy: usize,
        total: usize,
    ) -> (r: Self)
        ensures
            shows_inventory(r, *inventory, healthy, total),
    {
        let mut lifecycle: Vec<ControlApiBackendLifecyclePayload> = Vec::new();
        let mut i: usize = 0;
        while i < inventory.backends.len()
            invariant
                i <= inventory.backends.len(),
                lifecycle@.len() == i,
                forall|k: int|
                    0 <= k < i ==> shows_backend(#[trigger] lifecycle@[k], inventory.backends@[k]),
            decreases inventory.backends.len() - i,
        {
            lifecycle.push(ControlApiBackendLifecyclePayload::from_snapshot(&inventory.backends[i]));
            i = i + 1;
        }
        ControlApiBackendInventoryPayload { healthy, total, lifecycle }
    }
}

/// How many backends of a list are so.
pub open spec fn count(
    backends: Seq<BackendLifecycleSnapshot>,
    so: spec_fn(BackendLifecycleSnapshot) -> bool,
) -> nat
    decreases backends.len(),
{
    if backends.len() == 0 {
        0
    } else {
        count(backends.drop_last(), so) + if so(backends.last()) {
            1nat
        } else {
            0
        }
    }
}

pub open spec fn is_unhealthy() -> spec_fn(BackendLifecycleSnapshot) -> bool {
    |backend: BackendLifecycleSnapshot| backend.health is Unhealthy
}

pub open spec fn is_unknown() -> spec_fn(BackendLifecycleSnapshot) -> bool {
    |backend: BackendLifecycleSnapshot| backend.health is Unknown
}

pub open spec fn is_member(membership: BackendMembershipState) -> spec_fn(
    BackendLifecycleSnapshot,
) -> bool {
    |backend: BackendLifecycleSnapshot| backend.membership == membership
}

#[derive(Debug)]
pub struct ControlApiBackendHealthSummaryPayload {
    pub availability: &'static str,
    pub placed_total: usize,
    pub healthy: usize,
    pub unhealthy: usize,
    pub unknown: usize,
    pub active_membership: usize,
    pub suppressed_membership: usize,
    pub removed_membership: usize,
}

/// How the backends are on the whole.
pub open spec fn availability_label(total: usize, unhealthy: nat, unknown: nat) -> Seq<char> {
    if total == 0 {
        "empty"@
    } else if unhealthy == 0 && unknown == 0 {
        "healthy"@
    } else {
        "degraded"@
    }
}

pub open spec fn sums_up_backends(
    payload: ControlApiBackendHealthSummaryPayload,
    inventory: BackendLifecycleInventorySnapshot,
    summary: BackendLifecycleInventorySummary,
) -> bool {
    let backends = inventory.backends@;
    &&& payload.placed_total == summary.total_backends
    &&& payload.healthy == summary.healthy_backends
    &&& payload.unhealthy == count(backends, is_unhealthy())
    &&& payload.unknown == count(backends, is_unknown())
    &&& payload.active_membership == count(backends, is_member(BackendMembershipState::Active))
    &&& payload.suppressed_membership == count(
        backends,
        is_member(BackendMembershipState::Suppressed),
    )
    &&& payload.removed_membership == count(backends, is_member(BackendMembershipState::Removed))
    &&& payload.availability@ == availability_label(
        summary.total_backends,
        count(backends, is_unhealthy()),
        count(backends, is_unknown()),
    )
}

impl ControlApiBackendHealthSummaryPayload {
    pub fn from_inventory(
        inventory: &BackendLifecycleInventorySnapshot,
        summary: BackendLifecycleInventorySummary,
    ) -> (r: Self)
        ensures
            sums_up_backends(r, *inventory, summary),
    {
        let mut unhealthy: usize = 0;
        let mut unknown: usize = 0;
        let mut active_membership: usize = 0;
        let mut suppressed_membership: usize = 0;
        let mut removed_membership: usize = 0;
        let ghost all = inventory.backends@;
        let mut i: usize = 0;
        while i < inventory.backends.len()
            invariant
                i <= inventory.backends.len(),
                all == inventory.backends@,
                unhealthy <= i,
                unknown <= i,
                active_membership <= i,
                suppressed_membership <= i,
                removed_membership <= i,
                unhealthy == count(all.take(i as int), is_unhealthy()),
                unknown == count(all.take(i as int), is_unknown()),
                active_membership == count(
                    all.take(i as int),
                    is_member(BackendMembershipState::Active),
                ),
                suppressed_membership == count(
                    all.take(i as int),
                    is_member(BackendMembershipState::Suppressed),
                ),
                removed_membership == count(
                    all.take(i as int),
                    is_member(BackendMembershipState::Removed),
                ),
            decreases inventory.backends.len() - i,
        {
            assert(all.take(i + 1).drop_last() =~= all.take(i as int));
            match inventory.backends[i].health {
                BackendHealthState::Healthy => {},
                BackendHealthState::Unhealthy { .. } => {
                    unhealthy = unhealthy + 1;
                },
                BackendHealthState::Unknown => {
                    unknown = unknown + 1;
                },
            }
            match inventory.backends[i].membership {
                BackendMembershipState::Active => {
                    active_membership = active_membership + 1;
                },
                BackendMembershipState::Suppressed => {
                    suppressed_membership = suppressed_membership + 1;
                },
                BackendMembershipState::Removed => {
                    removed_membership = removed_membership + 1;
                },
            }
            i = i + 1;
        }
        assert(all.take(i as int) =~= all);
        let availability = if summary.total_backends == 0 {
            "empty"
        } else if unhealthy == 0 && unknown == 0 {
            "healthy"
        } else {
            "degraded"
        };
        ControlApiBackendHealthSummaryPayload {
            availability,
            placed_total: summary.total_backends,
            healthy: summary.healthy_backends,
            unhealthy,
            unknown,
            active_membership,
            suppressed_membership,
            removed_membership,
        }
    }
}

/// Every backend has exactly one membership.
pub proof fn law_memberships_add_up(backends: Seq<BackendLifecycleSnapshot>)
    ensures
        count(backends, is_member(BackendMembershipState::Active)) + count(
            backends,
            is_member(BackendMembershipState::Suppressed),
        ) + count(backends, is_member(BackendMembershipState::Removed)) == backends.len(),
        count(backends, is_unhealthy()) + count(backends, is_unknown()) <= backends.len(),
    decreases backends.len(),
{
    if backends.len() > 0 {
        law_memberships_add_up(backends.drop_last());
    }
}

} // verus!
