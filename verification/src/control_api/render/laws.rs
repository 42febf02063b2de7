//! What operators are shown, whatever the state.
use crate::admission::jwks_cache::{state_at, state_label, EntryView};
use crate::admission::jwks_report::{reports, JwtJwksRuntimeSnapshot, RuntimeSnapshotView};
use crate::admission::jwks_source::{
    endpoint_of, identity_of, merged_sources, policy_sources, SourceView,
};
use crate::admission::jwt::algorithm_label;
use crate::config::{Nanos, RuntimeJwtAuth, RuntimeUpstream, WallTime};
use crate::control_api::reload::generation::GenerationHistoryEntry;
use crate::control_api::render::backends::{
    count, is_member, is_unhealthy, is_unknown, shows_backend, shows_inventory, sums_up_backends,
    BackendHealthState, BackendLifecycleInventorySnapshot, BackendLifecycleInventorySummary,
    BackendLifecycleSnapshot, BackendMembershipState, ControlApiBackendHealthSummaryPayload,
    ControlApiBackendInventoryPayload, ControlApiBackendLifecyclePayload, HealthFailureReason,
};
use crate::control_api::render::observability::{
    known_events, shows_observability, ControlApiObservabilityPayload, ObservabilityState,
};
use crate::control_api::render::providers::{
    payload_views, policy_report, provider_view, report_named, shows_auth,
    shows_verification, upstream_view, upstream_views, AuthAndJwksPayloads,
};
use crate::control_api::render::quota::{
    shows_quota, ControlApiQuotaPayload, QuotaBackendStatusSnapshot, QuotaRuntimeSnapshot,
};
use crate::control_api::render::redaction::{file_name, is_present, last_part, redacted_path};
use crate::control_api::render::runtime::{
    entries_about, is_ready, shows_listener, shows_record, shows_runtime,
    ControlApiRetainedGenerationPayload, ControlApiRuntimePayload, ControlApiRuntimeState,
    ControlApiTlsListenerPayload, ListenerTlsState, RuntimeGenerationRecord,
};
use crate::control_api::render::secrets::{
    all_material, certificate_view, key_view, material_views, pushed, shows_provider,
    shows_upstream_tls, ControlApiSecretProviderPayload, ControlApiTlsUpstreamPayload, MaterialView,
    SecretProviderConfig, UpstreamTlsPolicy,
};
use crate::text::{lemma_lex_total, lex_less, opt, opt_str, split_on, texts};
use crate::text_laws::{
    all_white, has_firm_ends, law_a_text_is_cut_at_its_separators,
    law_trimming_cuts_the_white_ends,
};
use vstd::prelude::*;

verus! {

/// The proxy is ready exactly where no restart is asked for and some backend is healthy, or there
/// is none to be.
pub proof fn law_ready_with_a_healthy_backend(
    summary: BackendLifecycleInventorySummary,
    restart: bool,
)
    ensures
        restart ==> !is_ready(summary, restart),
        !restart && summary.total_backends == 0 ==> is_ready(summary, restart),
        !restart && summary.healthy_backends > 0 ==> is_ready(summary, restart),
        summary.total_backends > 0 && summary.healthy_backends == 0 ==> !is_ready(summary, restart),
{
}

/// The history of a generation is made of the entries about it, all of them and in their order: it
/// is that of the part before and then that of the part after, and a single entry is shown exactly
/// where it is about the generation.
pub proof fn law_a_history_keeps_what_is_about_its_generation(
    before: Seq<GenerationHistoryEntry>,
    after: Seq<GenerationHistoryEntry>,
    entry: GenerationHistoryEntry,
    generation: u64,
)
    ensures
        entries_about(before + after, generation) == entries_about(before, generation)
            + entries_about(after, generation),
        entries_about(seq![entry], generation) == if entry.generation == generation {
            seq![entry]
        } else {
            Seq::empty()
        },
        entries_about(Seq::empty(), generation).len() == 0,
    decreases before.len(),
{
    let one = seq![entry];
    assert(one.drop_first() =~= Seq::<GenerationHistoryEntry>::empty());
    assert(entries_about(one.drop_first(), generation) =~= Seq::<GenerationHistoryEntry>::empty());
    assert(entries_about(one, generation) =~= if entry.generation == generation {
        seq![entry]
    } else {
        Seq::empty()
    });
    if before.len() == 0 {
        assert(before + after =~= after);
        assert(entries_about(before, generation) + entries_about(after, generation)
            =~= entries_about(after, generation));
    } else {
        let rest = before.drop_first();
        law_a_history_keeps_what_is_about_its_generation(rest, after, entry, generation);
        assert((before + after).drop_first() =~= rest + after);
        assert((before + after)[0] == before[0]);
        assert(entries_about(before + after, generation) =~= entries_about(before, generation)
            + entries_about(after, generation));
    }
}

/// A count is that of the backends of its kind: none of an empty list, and one more for each of the
/// kind that is added.
pub proof fn law_each_backend_is_counted_once(
    backends: Seq<BackendLifecycleSnapshot>,
    backend: BackendLifecycleSnapshot,
    membership: BackendMembershipState,
)
    ensures
        ({
            let more = backends.push(backend);
            let one = |so: bool|
                if so {
                    1int
                } else {
                    0int
                };
            &&& count(more, is_unhealthy()) == count(backends, is_unhealthy()) + one(
                backend.health is Unhealthy,
            )
            &&& count(more, is_unknown()) == count(backends, is_unknown()) + one(
                backend.health is Unknown,
            )
            &&& count(more, is_member(membership)) == count(backends, is_member(membership)) + one(
                backend.membership == membership,
            )
        }),
        count(Seq::empty(), is_unhealthy()) == 0,
        count(Seq::empty(), is_unknown()) == 0,
        count(Seq::empty(), is_member(membership)) == 0,
{
    assert(backends.push(backend).drop_last() =~= backends);
}

proof fn lemma_none_counted(
    backends: Seq<BackendLifecycleSnapshot>,
    so: spec_fn(BackendLifecycleSnapshot) -> bool,
)
    ensures
        count(backends, so) == 0 <==> forall|i: int|
            0 <= i < backends.len() ==> !so(#[trigger] backends[i]),
    decreases backends.len(),
{
    if backends.len() > 0 {
        let before = backends.drop_last();
        let last = backends.len() - 1;
        lemma_none_counted(before, so);
        if count(backends, so) == 0 {
            assert forall|i: int| 0 <= i < backends.len() implies !so(#[trigger] backends[i]) by {
                if i < last {
                    assert(before[i] == backends[i]);
                }
            }
        }
        if forall|i: int| 0 <= i < backends.len() ==> !so(#[trigger] backends[i]) {
            assert(!so(backends[last]));
            assert forall|i: int| 0 <= i < before.len() implies !so(#[trigger] before[i]) by {
                assert(before[i] == backends[i]);
            }
        }
    }
}

/// The summary of the backends has the inventory's own totals, and says that they are healthy
/// exactly where there are some and each of them is known to be.
pub proof fn law_backends_are_healthy_where_all_are(
    payload: ControlApiBackendHealthSummaryPayload,
    inventory: BackendLifecycleInventorySnapshot,
    summary: BackendLifecycleInventorySummary,
)
    requires
        sums_up_backends(payload, inventory, summary),
    ensures
        payload.placed_total == summary.total_backends,
        payload.healthy == summary.healthy_backends,
        payload.active_membership + payload.suppressed_membership + payload.removed_membership
            == inventory.backends@.len(),
        payload.unhealthy > 0 <==> exists|i: int|
            0 <= i < inventory.backends@.len() && (#[trigger] inventory.backends@[i]).health
                is Unhealthy,
        payload.unknown > 0 <==> exists|i: int|
            0 <= i < inventory.backends@.len() && (#[trigger] inventory.backends@[i]).health
                is Unknown,
        payload.removed_membership > 0 <==> exists|i: int|
            0 <= i < inventory.backends@.len() && (#[trigger] inventory.backends@[i]).membership
                == BackendMembershipState::Removed,
        payload.suppressed_membership > 0 <==> exists|i: int|
            0 <= i < inventory.backends@.len() && (#[trigger] inventory.backends@[i]).membership
                == BackendMembershipState::Suppressed,
        summary.total_backends == 0 ==> payload.availability@ == "empty"@,
        summary.total_backends > 0 && (forall|i: int|
            0 <= i < inventory.backends@.len() ==> (#[trigger] inventory.backends@[i]).health
                is Healthy) ==> payload.availability@ == "healthy"@,
        summary.total_backends > 0 && (exists|i: int|
            0 <= i < inventory.backends@.len() && !((#[trigger] inventory.backends@[i]).health
                is Healthy)) ==> payload.availability@ == "degraded"@,
{
    let backends = inventory.backends@;
    crate::control_api::render::backends::law_memberships_add_up(backends);
    lemma_none_counted(backends, is_unhealthy());
    lemma_none_counted(backends, is_unknown());
    lemma_none_counted(backends, is_member(BackendMembershipState::Removed));
    lemma_none_counted(backends, is_member(BackendMembershipState::Suppressed));
    if forall|i: int| 0 <= i < backends.len() ==> (#[trigger] backends[i]).health is Healthy {
        assert forall|i: int| 0 <= i < backends.len() implies !is_unhealthy()(
            #[trigger] backends[i],
        ) by {}
        assert forall|i: int| 0 <= i < backends.len() implies !is_unknown()(
            #[trigger] backends[i],
        ) by {}
    }
    if exists|i: int| 0 <= i < backends.len() && !((#[trigger] backends[i]).health is Healthy) {
        let i = choose|i: int|
            0 <= i < backends.len() && !((#[trigger] backends[i]).health is Healthy);
        assert(is_unhealthy()(backends[i]) || is_unknown()(backends[i]));
    }
    assert forall|i: int| 0 <= i < backends.len() implies is_unhealthy()(#[trigger] backends[i])
        == (backends[i].health is Unhealthy) by {}
    assert forall|i: int| 0 <= i < backends.len() implies is_unknown()(#[trigger] backends[i]) == (
    backends[i].health is Unknown) by {}
    assert forall|i: int| 0 <= i < backends.len() implies is_member(
        BackendMembershipState::Removed,
    )(#[trigger] backends[i]) == (backends[i].membership == BackendMembershipState::Removed) by {}
    assert forall|i: int| 0 <= i < backends.len() implies is_member(
        BackendMembershipState::Suppressed,
    )(#[trigger] backends[i]) == (backends[i].membership
        == BackendMembershipState::Suppressed) by {}
}

/// A backend is shown as it is: its address, its health and why it lacks it, its membership, what
/// it resolves to, and where it is placed.
pub proof fn law_a_backend_is_shown_as_it_is(
    payload: ControlApiBackendLifecyclePayload,
    snapshot: BackendLifecycleSnapshot,
    i: int,
)
    requires
        shows_backend(payload, snapshot),
    ensures
        payload.backend@ == snapshot.backend_addr@,
        payload.health@ == match snapshot.health {
            BackendHealthState::Unknown => "unknown"@,
            BackendHealthState::Healthy => "healthy"@,
            BackendHealthState::Unhealthy { .. } => "unhealthy"@,
        },
        opt_str(payload.health_reason) == match snapshot.health {
            BackendHealthState::Unhealthy { reason: Some(reason) } => Some(
                match reason {
                    HealthFailureReason::HttpStatus5xx => "5xx"@,
                    HealthFailureReason::Timeout => "timeout"@,
                    HealthFailureReason::Transport => "transport"@,
                    HealthFailureReason::Tls => "tls"@,
                    HealthFailureReason::CircuitOpen => "circuit_open"@,
                },
            ),
            _ => None,
        },
        payload.membership@ == match snapshot.membership {
            BackendMembershipState::Active => "active"@,
            BackendMembershipState::Suppressed => "suppressed"@,
            BackendMembershipState::Removed => "removed"@,
        },
        payload.authority_host@ == snapshot.authority_host@,
        payload.authority_port == snapshot.authority_port,
        texts(payload.resolved_addrs@) == texts(snapshot.resolved_addrs@),
        payload.resolution_generation == snapshot.refresh_generation,
        payload.last_refresh_success_at_unix_seconds == match snapshot.last_refresh_success_at {
            Some(WallTime::SinceEpoch { secs }) => Some(secs),
            _ => None,
        },
        payload.placements@.len() == snapshot.placements@.len(),
        0 <= i < payload.placements@.len() ==> {
            let shown = payload.placements@[i];
            let placed = snapshot.placements@[i];
            &&& shown.upstream@ == placed.upstream_name@
            &&& shown.backend_index == placed.backend_index
            &&& shown.healthy == placed.healthy
            &&& shown.active_requests == placed.active_requests
            &&& shown.ewma_latency_ms_bits == placed.ewma_latency_ms_bits
            &&& shown.membership_epoch == placed.membership_epoch
        },
{
}

/// The inventory shows every backend, each in its place, and how many of them are healthy and how
/// many there are.
pub proof fn law_the_inventory_shows_every_backend(
    payload: ControlApiBackendInventoryPayload,
    inventory: BackendLifecycleInventorySnapshot,
    healthy: usize,
    total: usize,
    i: int,
)
    requires
        shows_inventory(payload, inventory, healthy, total),
    ensures
        payload.healthy == healthy,
        payload.total == total,
        payload.lifecycle@.len() == inventory.backends@.len(),
        0 <= i < payload.lifecycle@.len() ==> payload.lifecycle@[i].backend@
            == inventory.backends@[i].backend_addr@ && shows_backend(
            payload.lifecycle@[i],
            inventory.backends@[i],
        ),
{
}

/// The state of the proxy is shown as it is, each part under its own name, for the generation that
/// runs.
pub proof fn law_the_runtime_is_shown_as_it_is(
    payload: ControlApiRuntimePayload,
    state: ControlApiRuntimeState,
    i: int,
)
    requires
        shows_runtime(payload, state),
    ensures
        payload.uptime_ms == state.uptime_ms,
        payload.expected_workers == state.expected_workers,
        payload.watchdog.enabled == state.watchdog.enabled,
        payload.watchdog.degraded == state.watchdog.degraded,
        payload.watchdog.restart_requested == state.watchdog.restart_requested,
        payload.watchdog.restart_reason@ == state.watchdog.restart_reason@,
        payload.watchdog.restart_requested_at_ms == state.watchdog.restart_requested_at_ms,
        payload.adaptive_admission == state.adaptive_admission,
        payload.metrics == state.metrics,
        payload.quota.enabled == state.quota.enabled,
        payload.backends.healthy == state.summary.healthy_backends,
        payload.backends.total == state.summary.total_backends,
        payload.backends.lifecycle@.len() == state.inventory.backends@.len(),
        payload.observability.recent_admin_actions@.len() <= 5,
        payload.observability.quota_backend_health_summary.enabled == state.quota.enabled,
        payload.observability.backend_health_summary.placed_total == state.summary.total_backends,
        payload.tls_listeners@.len() == state.listeners@.len(),
        0 <= i < payload.tls_listeners@.len() ==> shows_listener(
            payload.tls_listeners@[i],
            state.listeners@[i],
        ),
        payload.tls_upstreams@.len() == state.tls_policies@.len(),
        0 <= i < payload.tls_upstreams@.len() ==> shows_upstream_tls(
            payload.tls_upstreams@[i],
            state.tls_policies@[i],
        ),
        payload.secrets.providers@.len() == state.secret_providers@.len(),
        0 <= i < payload.secrets.providers@.len() ==> payload.secrets.providers@[i].provider@
            == state.secret_providers@[i].provider@ && (
        payload.secrets.providers@[i].default_provider <==> opt(*state.default_secret_provider)
            == Some(state.secret_providers@[i].provider@)),
        payload.secrets.material@.len() == all_material(state.tls_policies@).len(),
        0 <= i < payload.secrets.material@.len() ==> payload.secrets.material@[i]@ == all_material(
            state.tls_policies@,
        )[i],
        payload.jwt_validation_failures@.len() == state.jwt_validation_failures@.len(),
        0 <= i < payload.jwt_validation_failures@.len() ==> payload.jwt_validation_failures@[i].name@
            == state.jwt_validation_failures@[i].name@ && payload.jwt_validation_failures@[i].count
            == state.jwt_validation_failures@[i].count,
        payload.jwt_algorithm_rejections@.len() == state.jwt_algorithm_rejections@.len(),
        0 <= i < payload.jwt_algorithm_rejections@.len()
            ==> payload.jwt_algorithm_rejections@[i].name@
            == state.jwt_algorithm_rejections@[i].name@
            && payload.jwt_algorithm_rejections@[i].count
            == state.jwt_algorithm_rejections@[i].count,
        payload.unknown_kid_events@.len() == state.unknown_kid_events@.len(),
        0 <= i < payload.unknown_kid_events@.len() ==> payload.unknown_kid_events@[i].name@
            == state.unknown_kid_events@[i].name@ && payload.unknown_kid_events@[i].count
            == state.unknown_kid_events@[i].count,
        state.running matches Some(running) ==> {
            &&& payload.observability.current_generation == Some(running.generation)
            &&& payload.runtime matches Some(shown) && shown.generation == running.generation
                && shown.config_path@ == running.config_path@
        },
        state.running is None ==> payload.runtime is None
            && payload.observability.current_generation is None,
{
    let shown = material_views(payload.secrets.material@);
    assert(shown.len() == payload.secrets.material@.len());
    if 0 <= i < payload.secrets.material@.len() {
        assert(shown[i] == payload.secrets.material@[i]@);
    }
    if 0 <= i < payload.secrets.providers@.len() {
        assert(shows_provider(
            payload.secrets.providers@[i],
            state.secret_providers@[i],
            opt(*state.default_secret_provider),
        ));
    }
}

/// A listener's certificates are shown by where they come from, without the directory, how long
/// they are good for, and when and in which generation they were loaded.
pub proof fn law_a_listener_is_shown_without_its_directories(
    payload: ControlApiTlsListenerPayload,
    state: ListenerTlsState,
)
    requires
        shows_listener(payload, state),
    ensures
        payload.listener@ == state.listener@,
        payload.default_cert@ == redacted_path(state.default_cert_path@),
        payload.default_key@ == redacted_path(state.default_key_path@),
        payload.default_cert_not_after_unix_seconds == state.default_cert_not_after_unix_seconds,
        texts(payload.sni_names@) == texts(state.sni_names@),
        payload.client_auth_enabled == state.client_auth_enabled,
        payload.require_client_cert == state.require_client_cert,
        payload.generation == state.generation,
        payload.last_loaded_at_unix_ms == state.loaded_at_unix_ms,
        payload.last_reload_status@ == state.last_reload_status@,
{
}

/// Of a path the last part is shown, behind dots for the directory that it stands in; of a blank
/// one, that it is blank.
pub proof fn law_a_path_shows_its_last_part(
    left: Seq<char>,
    directory: Seq<char>,
    name: Seq<char>,
    right: Seq<char>,
)
    requires
        all_white(left),
        all_white(right),
        has_firm_ends(directory),
        has_firm_ends(name),
        name.len() > 0,
        !name.contains('/'),
        name != "."@,
        name != ".."@,
    ensures
        redacted_path(left + (directory.push('/') + name) + right) == ".../"@ + name,
        redacted_path(left + name + right) == ".../"@ + name,
        redacted_path(left) == "<empty>"@,
{
    let path = directory.push('/') + name;
    assert(path[path.len() - 1] == name[name.len() - 1]);
    if directory.len() > 0 {
        assert(path[0] == directory[0]);
    } else {
        assert(path[0] == '/');
    }
    law_trimming_cuts_the_white_ends(left, path, right);
    law_trimming_cuts_the_white_ends(left, name, right);
    law_trimming_cuts_the_white_ends(left, Seq::empty(), Seq::empty());
    assert(left + Seq::<char>::empty() + Seq::<char>::empty() =~= left);
    law_a_text_is_cut_at_its_separators(name, name, '/');
    lemma_last_piece(directory, name);
    let parts = split_on(path, '/');
    assert(last_part(parts) == Some(name));
    let single = split_on(name, '/');
    assert(single.last() == name);
    assert(last_part(single) == Some(name));
}

proof fn lemma_last_piece(directory: Seq<char>, name: Seq<char>)
    requires
        !name.contains('/'),
    ensures
        split_on(directory.push('/') + name, '/').len() > 0,
        split_on(directory.push('/') + name, '/').last() == name,
    decreases directory.len(),
{
    law_a_text_is_cut_at_its_separators(name, name, '/');
    if directory.contains('/') {
        let n = crate::text::span(directory, crate::text::is_char('/')) as int;
        crate::text::lemma_span(directory, crate::text::is_char('/'));
        let piece = directory.take(n);
        if n >= directory.len() {
            let k = choose|k: int| 0 <= k < directory.len() && directory[k] == '/';
            assert(!crate::text::is_char('/')(directory[k]));
            assert(false);
        }
        assert(crate::text::is_char('/')(directory[n]));
        let rest = directory.skip(n + 1);
        assert(!piece.contains('/')) by {
            if piece.contains('/') {
                let k = choose|k: int| 0 <= k < piece.len() && piece[k] == '/';
                assert(!crate::text::is_char('/')(directory[k]));
            }
        }
        lemma_last_piece(rest, name);
        let tail = rest.push('/') + name;
        law_a_text_is_cut_at_its_separators(piece, tail, '/');
        assert(piece.push('/') + tail =~= directory.push('/') + name);
        let inner = split_on(tail, '/');
        let all = seq![piece] + inner;
        assert(all.last() == inner.last());
    } else {
        law_a_text_is_cut_at_its_separators(directory, name, '/');
        let all = seq![directory] + split_on(name, '/');
        assert(all.last() == name);
    }
}

/// Something is configured exactly where its text is more than white space.
pub proof fn law_blank_is_not_configured(left: Seq<char>, core: Seq<char>, right: Seq<char>)
    requires
        all_white(left),
        all_white(right),
        has_firm_ends(core),
    ensures
        is_present(Some(left + core + right)) <==> core.len() > 0,
        !is_present(None),
{
    law_trimming_cuts_the_white_ends(left, core, right);
}

/// Of an upstream's certificates only their origin and times are shown, and whether they are
/// checked as configured; the key has no expiry of its own.
pub proof fn law_an_upstreams_material_is_shown_by_origin(
    payload: ControlApiTlsUpstreamPayload,
    policy: UpstreamTlsPolicy,
)
    requires
        shows_upstream_tls(payload, policy),
    ensures
        payload.upstream@ == policy.name@,
        payload.verify_certificates == policy.verify_certificates,
        payload.strict_sni == policy.strict_sni,
        payload.custom_ca_file_configured == is_present(opt(policy.ca_file)),
        payload.custom_ca_dir_configured == is_present(opt(policy.ca_dir)),
        payload.client_certificate is Some <==> policy.client_certificate is Some,
        payload.client_key is Some <==> policy.client_key is Some,
        payload.client_certificate matches Some(shown) ==> (
        policy.client_certificate matches Some(metadata) && {
            &&& shown@.scope == "upstream."@ + policy.name@ + ".tls.client_certificate"@
            &&& shown@.source_kind == metadata.source_kind@
            &&& shown@.last_loaded_at_unix_ms == metadata.loaded_at_unix_ms
            &&& shown@.last_reload_status == "loaded"@
            &&& shown@.expiry_not_after_unix_seconds
                == policy.client_certificate_not_after_unix_seconds
        }),
        payload.client_key matches Some(shown) ==> (policy.client_key matches Some(metadata) && {
            &&& shown@.scope == "upstream."@ + policy.name@ + ".tls.client_key"@
            &&& shown@.source_kind == metadata.source_kind@
            &&& shown@.last_loaded_at_unix_ms == metadata.loaded_at_unix_ms
            &&& shown@.last_reload_status == "loaded"@
            &&& shown@.expiry_not_after_unix_seconds is None
        }),
{
}

/// A provider of secrets is shown by name, and as the default exactly where it is.
pub proof fn law_the_default_provider_is_marked(
    payload: ControlApiSecretProviderPayload,
    config: SecretProviderConfig,
    default_provider: Option<Seq<char>>,
)
    requires
        shows_provider(payload, config, default_provider),
    ensures
        payload.provider@ == config.provider@,
        payload.default_provider <==> default_provider == Some(config.provider@),
        payload.base_dir_configured <==> is_present(opt(config.base_dir)),
{
}

/// The material of all upstreams is listed upstream by upstream, the certificate before the key,
/// and what an upstream lacks is left out.
pub proof fn law_all_material_is_listed(
    policies: Seq<UpstreamTlsPolicy>,
    policy: UpstreamTlsPolicy,
)
    ensures
        all_material(Seq::empty()).len() == 0,
        all_material(policies.push(policy)) == all_material(policies) + match (
            certificate_view(policy),
            key_view(policy),
        ) {
            (Some(certificate), Some(key)) => seq![certificate, key],
            (Some(certificate), None) => seq![certificate],
            (None, Some(key)) => seq![key],
            (None, None) => Seq::<MaterialView>::empty(),
        },
        certificate_view(policy) is Some <==> policy.client_certificate is Some,
        key_view(policy) is Some <==> policy.client_key is Some,
{
    assert(policies.push(policy).drop_last() =~= policies);
    let before = all_material(policies);
    let middle = pushed(before, certificate_view(policy));
    assert(all_material(policies.push(policy)) =~= before + match (
        certificate_view(policy),
        key_view(policy),
    ) {
        (Some(certificate), Some(key)) => seq![certificate, key],
        (Some(certificate), None) => seq![certificate],
        (None, Some(key)) => seq![key],
        (None, None) => Seq::<MaterialView>::empty(),
    });
}

/// A retained generation is shown as it is kept.
pub proof fn law_a_retained_generation_is_shown_as_kept(
    payload: ControlApiRetainedGenerationPayload,
    record: RuntimeGenerationRecord,
)
    requires
        shows_record(payload, record),
    ensures
        payload.generation == record.generation,
        payload.status@ == record.status@,
        payload.rollback_candidate == record.rollback_candidate,
        payload.has_bundle == record.has_bundle,
        opt(payload.note) == opt(record.note),
{
}

/// The quotas are shown with how they are enforced and what becomes of a failing backend, each
/// policy with its selector and its windows, and the backend with its state and its last errors.
pub proof fn law_the_quotas_are_shown_as_they_are(
    payload: ControlApiQuotaPayload,
    runtime: QuotaRuntimeSnapshot,
    status: QuotaBackendStatusSnapshot,
    i: int,
)
    requires
        shows_quota(payload, runtime, status),
    ensures
        payload.enabled == runtime.enabled,
        payload.enforcement@ == runtime.enforcement@,
        payload.backend_failure_policy@ == runtime.backend_failure_policy@,
        payload.active_backend@ == status.backend_mode@,
        payload.backend_status.availability@ == status.availability@,
        payload.backend_status.degraded == status.degraded,
        opt(payload.backend_status.health_reason) == opt(status.health_reason),
        payload.backend_status.last_observed_at_unix_ms == status.last_observed_at_unix_ms,
        payload.backend_status.recent_errors@.len() == status.recent_errors@.len(),
        0 <= i < status.recent_errors@.len() ==> {
            let shown = payload.backend_status.recent_errors@[i];
            let kept = status.recent_errors@[i];
            &&& shown.observed_at_unix_ms == kept.observed_at_unix_ms
            &&& opt(shown.policy_name) == opt(kept.policy_name)
            &&& shown.reason@ == kept.reason@
            &&& opt(shown.detail) == opt(kept.detail)
        },
        payload.policies@.len() == runtime.policies@.len(),
        0 <= i < runtime.policies@.len() ==> {
            let shown = payload.policies@[i];
            let kept = runtime.policies@[i];
            &&& shown.name@ == kept.name@
            &&& texts(shown.route_allowlist@) == texts(kept.route_allowlist@)
            &&& shown.selector.route == kept.selector.route
            &&& opt(shown.selector.tenant) == opt(kept.selector.tenant)
            &&& opt(shown.selector.token) == opt(kept.selector.token)
            &&& opt(shown.selector.client) == opt(kept.selector.client)
            &&& shown.burst is Some <==> kept.burst is Some
            &&& shown.burst matches Some(window) ==> window.requests == kept.burst->0.requests
                && window.window_secs == kept.burst->0.window_secs
            &&& shown.sustained is Some <==> kept.sustained is Some
            &&& shown.sustained matches Some(window) ==> window.requests
                == kept.sustained->0.requests && window.window_secs
                == kept.sustained->0.window_secs
        },
{
}

/// The first five events are shown as the recent actions of operators, in their order, or all of
/// them where there are fewer; and where there are none, none.
pub proof fn law_recent_actions_are_the_first_events(
    payload: ControlApiObservabilityPayload,
    state: ObservabilityState,
    i: int,
)
    requires
        shows_observability(payload, state),
    ensures
        payload.current_generation == state.current_generation,
        payload.recent_admin_actions@.len() == if known_events(state.events).len() < 5 {
            known_events(state.events).len() as int
        } else {
            5
        },
        state.events is None ==> payload.recent_admin_actions@.len() == 0,
        state.events matches Some(events) ==> (0 <= i < payload.recent_admin_actions@.len() ==> {
            let shown = payload.recent_admin_actions@[i];
            let event = events@[i];
            &&& shown.kind@ == event.kind@
            &&& shown.operation == event.entry.operation
            &&& shown.generation == event.entry.generation
            &&& shown.status == event.entry.status
            &&& shown.config_version == event.entry.config_version
            &&& opt(shown.requested_by) == opt(event.entry.requested_by)
            &&& opt(shown.trigger_source) == opt(event.entry.trigger_source)
            &&& shown.requested_at_ms == event.entry.requested_at_ms
            &&& shown.completed_at_ms == event.entry.completed_at_ms
            &&& shown.event_emitted_at_ms == event.emitted_at_ms
            &&& shown.summary@ == event.entry.summary@
        }),
        payload.quota_backend_health_summary.active_backend@ == state.quota_status.backend_mode@,
        payload.quota_backend_health_summary.availability@ == state.quota_status.availability@,
        payload.quota_backend_health_summary.degraded == state.quota_status.degraded,
        opt(payload.quota_backend_health_summary.health_reason) == opt(
            state.quota_status.health_reason,
        ),
        payload.quota_backend_health_summary.last_observed_at_unix_ms
            == state.quota_status.last_observed_at_unix_ms,
        payload.quota_backend_health_summary.enabled == state.quota_enabled,
        payload.quota_backend_health_summary.recent_error_count
            == state.quota_status.recent_errors@.len(),
{
}

/// A policy on tokens is shown by where its keys come from, which algorithms it allows, whom it
/// expects, and how its remote source stands.
pub proof fn law_a_token_policy_is_shown_by_its_keys(
    jwt: RuntimeJwtAuth,
    source: Option<RuntimeSnapshotView>,
    i: int,
)
    ensures
        ({
            let shown = provider_view(jwt, source);
            let secret = jwt.secret@.len() > 0;
            let fixed = jwt.static_keys@.len() > 0;
            let remote = jwt.jwks_url is Some;
            &&& secret && !fixed && !remote ==> shown.provider_mode == "hs256_only"@
            &&& secret && (fixed || remote) ==> shown.provider_mode == "hybrid"@
            &&& !secret && fixed && remote ==> shown.provider_mode == "hybrid_asymmetric"@
            &&& !secret && fixed && !remote ==> shown.provider_mode == "static_asymmetric"@
            &&& !secret && !fixed && remote ==> shown.provider_mode == "remote_jwks"@
            &&& !secret && !fixed && !remote ==> shown.provider_mode == "unconfigured"@
            &&& shown.require_kid == jwt.require_kid
            &&& shown.static_key_count == jwt.static_keys@.len()
            &&& shown.jwks_configured == remote
            &&& shown.allowed_algorithms.len() == jwt.allowed_algorithms@.len()
            &&& 0 <= i < jwt.allowed_algorithms@.len() ==> shown.allowed_algorithms[i]
                == algorithm_label(jwt.allowed_algorithms@[i])
            &&& jwt.issuer is None ==> shown.issuers == texts(jwt.issuers@)
            &&& jwt.issuer matches Some(issuer) ==> shown.issuers == seq![issuer@] + texts(
                jwt.issuers@,
            )
            &&& jwt.audience is None ==> shown.audiences == texts(jwt.audiences@)
            &&& jwt.audience matches Some(audience) ==> shown.audiences == seq![audience@] + texts(
                jwt.audiences@,
            )
            &&& source is None ==> !shown.jwks_active && shown.jwks_cache_state is None
                && shown.serving_from_stale_cache is None && shown.usable_key_count is None
            &&& source matches Some(source) ==> {
                &&& shown.jwks_cache_state == Some(source.state)
                &&& shown.usable_key_count == Some(source.active_key_count)
                &&& shown.serving_from_stale_cache == Some(
                    source.state == "stale"@ || source.state == "refresh_failed_retained"@
                        || source.state == "quarantined_retained"@,
                )
                &&& shown.jwks_active <==> source.active_key_count > 0 && source.state
                    != "never_fetched"@ && source.state != "empty_unusable"@
                &&& shown.last_refresh_success_unix_seconds
                    == source.last_refresh_success_unix_seconds
                &&& shown.last_refresh_attempt_unix_seconds
                    == source.last_refresh_attempt_unix_seconds
                &&& shown.last_failure_reason == source.last_failure_reason
            }
        }),
{
}

/// The report that goes with a policy is the first one on its own source, and none where the policy
/// has no remote source or there is no report on it.
pub proof fn law_a_policy_has_its_own_sources_report(
    jwt: RuntimeJwtAuth,
    list: Seq<JwtJwksRuntimeSnapshot>,
    i: int,
)
    requires
        jwt.jwks_url matches Some(url) ==> forall|j: int|
            0 <= j < i && j < list.len() ==> (#[trigger] list[j]).source_id@ != identity_of(url@),
    ensures
        jwt.jwks_url is None ==> policy_report(jwt, list) is None,
        jwt.jwks_url matches Some(url) ==> {
            &&& 0 <= i < list.len() && list[i].source_id@ == identity_of(url@) ==> policy_report(
                jwt,
                list,
            ) == Some(list[i]@)
            &&& i >= list.len() ==> policy_report(jwt, list) is None
        },
{
    if let Some(url) = jwt.jwks_url {
        lemma_report_named(list, identity_of(url@), i);
    }
}

proof fn lemma_report_named(list: Seq<JwtJwksRuntimeSnapshot>, id: Seq<char>, i: int)
    requires
        forall|j: int| 0 <= j < i && j < list.len() ==> (#[trigger] list[j]).source_id@ != id,
    ensures
        0 <= i < list.len() && list[i].source_id@ == id ==> report_named(list, id) == Some(list[i]@),
        i >= list.len() ==> report_named(list, id) is None,
    decreases list.len(),
{
    if list.len() > 0 && i > 0 {
        let rest = list.drop_first();
        assert(list[0].source_id@ != id);
        assert forall|j: int| 0 <= j < i - 1 && j < rest.len() implies (
        #[trigger] rest[j]).source_id@ != id by {
            assert(rest[j] == list[j + 1]);
        }
        lemma_report_named(rest, id, i - 1);
        if i < list.len() {
            assert(rest[i - 1] == list[i]);
        }
    }
}

/// An upstream is shown under its own name, with its own policy on tokens and that policy's source.
pub proof fn law_an_upstream_is_shown_with_its_policy(
    upstream: RuntimeUpstream,
    list: Seq<JwtJwksRuntimeSnapshot>,
)
    ensures
        upstream_view(upstream, list).upstream == upstream.name@,
        upstream_view(upstream, list).jwt is Some <==> upstream.policy.upstream_auth.jwt is Some,
        upstream.policy.upstream_auth.jwt matches Some(jwt) ==> upstream_view(upstream, list).jwt
            == Some(provider_view(jwt, policy_report(jwt, list))),
{
}

/// Every upstream is shown once among the policies on tokens, in the order of names, and every
/// report on a source in its place.
pub proof fn law_every_upstream_and_source_is_shown(
    payloads: AuthAndJwksPayloads,
    upstreams: Seq<RuntimeUpstream>,
    list: Seq<JwtJwksRuntimeSnapshot>,
    i: int,
)
    requires
        shows_auth(payloads, upstreams, list),
    ensures
        payloads.providers@.len() == upstreams.len(),
        0 <= i < upstreams.len() ==> exists|k: int|
            0 <= k < payloads.providers@.len() && (#[trigger] payloads.providers@[k])@
                == upstream_view(upstreams[i], list),
        0 <= i < payloads.providers@.len() - 1 ==> !lex_less(
            payloads.providers@[i + 1]@.upstream,
            payloads.providers@[i]@.upstream,
        ),
        payloads.sources@.len() == list.len(),
        0 <= i < list.len() ==> {
            let shown = payloads.sources@[i];
            let report = list[i]@;
            &&& shown.jwks_source_id@ == report.source_id
            &&& texts(shown.allowed_algorithms@) == report.allowed_algorithms
            &&& shown.startup_behavior@ == report.startup_behavior
            &&& shown.cache_state@ == report.state
            &&& shown.active_key_count == report.active_key_count
            &&& shown.age_seconds == report.age_seconds
            &&& shown.last_refresh_attempt_unix_seconds
                == report.last_refresh_attempt_unix_seconds
            &&& shown.last_refresh_success_unix_seconds
                == report.last_refresh_success_unix_seconds
            &&& opt(shown.last_failure_reason) == report.last_failure_reason
            &&& opt(shown.last_error) == report.last_error
        },
{
    let shown = payload_views(payloads.providers@);
    let wanted = upstream_views(upstreams, list);
    shown.to_multiset_ensures();
    wanted.to_multiset_ensures();
    assert(shown.len() == wanted.len());
    if 0 <= i < upstreams.len() {
        let one = upstream_view(upstreams[i], list);
        assert(wanted[i] == one);
        assert(wanted.contains(one));
        assert(wanted.to_multiset().count(one) > 0);
        assert(shown.contains(one));
        let k = choose|k: int| 0 <= k < shown.len() && shown[k] == one;
        assert(payloads.providers@[k]@ == one);
    }
    if 0 <= i < payloads.providers@.len() - 1 {
        assert(shown[i] == payloads.providers@[i]@);
        assert(shown[i + 1] == payloads.providers@[i + 1]@);
    }
}

/// The reports on the sources of a configuration are one for each source, in the order of their
/// identities.
pub proof fn law_there_is_one_report_for_each_source(
    list: Seq<JwtJwksRuntimeSnapshot>,
    sources: Map<Seq<char>, SourceView>,
    cache: Map<Seq<char>, EntryView>,
    now: Nanos,
    wall: WallTime,
    id: Seq<char>,
)
    requires
        reports(list, sources, cache, now, wall),
    ensures
        sources.contains_key(id) <==> exists|i: int|
            0 <= i < list.len() && (#[trigger] list[i]).source_id@ == id,
        forall|i: int, j: int|
            0 <= i < j < list.len() ==> (#[trigger] list[i]).source_id@ != (
            #[trigger] list[j]).source_id@,
        forall|i: int|
            0 <= i < list.len() && (#[trigger] list[i]).source_id@ == id ==> {
                &&& list[i]@.endpoint == endpoint_of(sources[id].jwks_url)
                &&& cache.contains_key(id) ==> list[i]@.state == state_label(
                    state_at(cache[id], now),
                )
                &&& !cache.contains_key(id) ==> list[i]@.state == "never_fetched"@
            },
{
    assert forall|i: int, j: int| 0 <= i < j < list.len() implies (#[trigger] list[i]).source_id@
        != (#[trigger] list[j]).source_id@ by {
        lemma_lex_total(list[i].source_id@, list[j].source_id@);
    }
}

/// Parts of a path that name nothing are passed over, and a path that ends in its parent directory
/// shows no name.
pub proof fn law_empty_parts_of_a_path_name_nothing(parts: Seq<Seq<char>>, part: Seq<char>)
    ensures
        part.len() == 0 || part == "."@ ==> last_part(parts.push(part)) == last_part(parts),
        part.len() > 0 && part != "."@ ==> last_part(parts.push(part)) == Some(part),
        last_part(Seq::empty()) is None,
        forall|path: Seq<char>|
            #![trigger file_name(path)]
            file_name(path) == match last_part(split_on(path, '/')) {
                Some(name) => if name == ".."@ {
                    None
                } else {
                    Some(name)
                },
                None => None,
            },
{
    assert(parts.push(part).drop_last() =~= parts);
}

/// What is shown of the policies on tokens is one for each upstream.
pub proof fn law_every_upstreams_policy_is_shown(
    payloads: AuthAndJwksPayloads,
    upstreams: Seq<RuntimeUpstream>,
    cache: Map<Seq<char>, EntryView>,
    now: Nanos,
    wall: WallTime,
    i: int,
)
    requires
        shows_verification(payloads, upstreams, cache, now, wall),
    ensures
        payloads.providers@.len() == upstreams.len(),
        0 <= i < upstreams.len() ==> exists|k: int|
            0 <= k < payloads.providers@.len() && (#[trigger] payloads.providers@[k])@.upstream
                == upstreams[i].name@,
{
    let list = choose|list: Seq<JwtJwksRuntimeSnapshot>| #[trigger]
        shows_auth(payloads, upstreams, list) && reports(
            list,
            merged_sources(policy_sources(upstreams)),
            cache,
            now,
            wall,
        );
    law_every_upstream_and_source_is_shown(payloads, upstreams, list, i);
    if 0 <= i < upstreams.len() {
        let k = choose|k: int|
            0 <= k < payloads.providers@.len() && (#[trigger] payloads.providers@[k])@
                == upstream_view(upstreams[i], list);
        assert(payloads.providers@[k]@.upstream == upstreams[i].name@);
    }
}

} // verus!
