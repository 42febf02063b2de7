//! Whether a running proxy can take a new generation on.
use crate::listener::QUICListener;
use crate::text::{as_deref, decimal, list_contains, opt, owned, same_option, same_text, texts, to_decimal};
use vstd::prelude::*;

verus! {

/// Why a generation cannot be taken on.
#[derive(Debug)]
pub enum TransitionRejection {
    /// A running listener is not in the new generation.
    ListenerBindChanged { label: String },
    /// Something that the new generation needs could not be had.
    ResourcePreflightFailed { component: &'static str, label: String, error: String },
    ResourceMessage(String),
    /// A setting changed that takes effect at a start only.
    RestartRequired { field_path: &'static str },
}

pub enum RejectionView {
    ListenerBindChanged { label: Seq<char> },
    ResourcePreflightFailed { component: Seq<char>, label: Seq<char>, error: Seq<char> },
    ResourceMessage(Seq<char>),
    RestartRequired { field_path: Seq<char> },
}

impl View for TransitionRejection {
    type V = RejectionView;

    open spec fn view(&self) -> RejectionView {
        match self {
            TransitionRejection::ListenerBindChanged { label } => {
                RejectionView::ListenerBindChanged { label: label@ }
            },
            TransitionRejection::ResourcePreflightFailed { component, label, error } => {
                RejectionView::ResourcePreflightFailed {
                    component: component@,
                    label: label@,
                    error: error@,
                }
            },
            TransitionRejection::ResourceMessage(message) => RejectionView::ResourceMessage(
                message@,
            ),
            TransitionRejection::RestartRequired { field_path } => RejectionView::RestartRequired {
                field_path: field_path@,
            },
        }
    }
}

/// The view of an optional rejection.
pub open spec fn opt_rejection(rejection: Option<TransitionRejection>) -> Option<RejectionView> {
    match rejection {
        Some(rejection) => Some(rejection@),
        None => None,
    }
}

/// The first of `current` that is not among `next`.
pub open spec fn first_removed(current: Seq<Seq<char>>, next: Seq<Seq<char>>) -> Option<Seq<char>>
    decreases current.len(),
{
    if current.len() == 0 {
        None
    } else if !next.contains(current[0]) {
        Some(current[0])
    } else {
        first_removed(current.drop_first(), next)
    }
}

/// Those of `next` that are not among `current`, in their order.
pub open spec fn added(current: Seq<Seq<char>>, next: Seq<Seq<char>>) -> Seq<Seq<char>>
    decreases next.len(),
{
    if next.len() == 0 {
        Seq::empty()
    } else {
        let sofar = added(current, next.drop_last());
        if current.contains(next.last()) {
            sofar
        } else {
            sofar.push(next.last())
        }
    }
}

/// What trying a new listener's sockets yielded: the QUIC socket, and then the bootstrap TLS one.
#[derive(Debug)]
pub struct ListenerPreflight {
    pub label: String,
    pub quic: Result<(), String>,
    pub bootstrap: Result<(), String>,
}

/// What is wrong with a new listener.
pub open spec fn preflight_rejection(preflight: ListenerPreflight) -> Option<RejectionView> {
    match (preflight.quic, preflight.bootstrap) {
        (Err(error), _) => Some(
            RejectionView::ResourcePreflightFailed {
                component: "QUIC listener"@,
                label: preflight.label@,
                error: error@,
            },
        ),
        (Ok(_), Err(error)) => Some(
            RejectionView::ResourcePreflightFailed {
                component: "bootstrap TLS listener"@,
                label: preflight.label@,
                error: error@,
            },
        ),
        (Ok(_), Ok(_)) => None,
    }
}

/// What is wrong with the first new listener that anything is wrong with.
pub open spec fn first_rejection(preflights: Seq<ListenerPreflight>) -> Option<RejectionView>
    decreases preflights.len(),
{
    if preflights.len() == 0 {
        None
    } else if preflight_rejection(preflights[0]) is Some {
        preflight_rejection(preflights[0])
    } else {
        first_rejection(preflights.drop_first())
    }
}

/// What is wrong with the listeners of a new generation: first one that would go, then one that
/// cannot come.
pub open spec fn listener_rejection(
    current: Seq<Seq<char>>,
    next: Seq<Seq<char>>,
    preflights: Seq<ListenerPreflight>,
) -> Option<RejectionView> {
    match first_removed(current, next) {
        Some(label) => Some(RejectionView::ListenerBindChanged { label }),
        None => first_rejection(preflights),
    }
}

/// Where an endpoint of the proxy's own listens.
#[derive(Debug)]
pub struct EndpointSettings {
    pub enabled: bool,
    pub address: String,
    pub port: u16,
}

/// An address and a port as they are written.
pub open spec fn bind_text(endpoint: EndpointSettings) -> Seq<char> {
    endpoint.address@ + ":"@ + decimal(endpoint.port as nat)
}

/// The endpoint must be bound anew: it was off, or elsewhere.
pub open spec fn rebinds(current: EndpointSettings, next: EndpointSettings) -> bool {
    !current.enabled || current.address@ != next.address@ || current.port != next.port
}

/// Where an endpoint must be bound anew, where it must.
pub fn endpoint_to_probe(current: &EndpointSettings, next: &EndpointSettings) -> (r: Option<String>)
    ensures
        opt(r) == if next.enabled && rebinds(*current, *next) {
            Some(bind_text(*next))
        } else {
            None
        },
{
    if !next.enabled {
        return None;
    }
    if current.enabled && same_text(current.address.as_str(), next.address.as_str())
        && current.port == next.port {
        return None;
    }
    Some(bind_address(next))
}

fn bind_address(endpoint: &EndpointSettings) -> (r: String)
    ensures
        r@ == bind_text(*endpoint),
{
    let mut bind = endpoint.address.clone();
    bind.append(":");
    bind.append(to_decimal(endpoint.port as u64).as_str());
    bind
}

/// What the interface needs in a new generation: a listener to take its TLS material from, that
/// material, a TLS configuration made of it, and its endpoint.
#[derive(Debug)]
pub struct ControlApiPreflight {
    pub primary_listener: Option<String>,
    pub tls_config_present: bool,
    pub tls_build: Result<(), String>,
    pub endpoint_probe: Result<(), String>,
}

/// What is wrong with the interface in a new generation.
pub open spec fn control_api_rejection(
    current: EndpointSettings,
    next: EndpointSettings,
    preflight: ControlApiPreflight,
) -> Option<RejectionView> {
    if !next.enabled {
        None
    } else {
        match preflight.primary_listener {
            None => Some(
                RejectionView::ResourceMessage(
                    "runtime reload rejected: no effective listeners configured for control API TLS"@,
                ),
            ),
            Some(label) => if !preflight.tls_config_present {
                Some(
                    RejectionView::ResourceMessage(
                        "runtime reload rejected: control API TLS config missing for listener '"@
                            + label@ + "'"@,
                    ),
                )
            } else {
                match (preflight.tls_build, preflight.endpoint_probe) {
                    (Err(error), _) => Some(
                        RejectionView::ResourcePreflightFailed {
                            component: "control API TLS"@,
                            label: label@,
                            error: error@,
                        },
                    ),
                    (Ok(_), Err(error)) if rebinds(current, next) => Some(
                        RejectionView::ResourcePreflightFailed {
                            component: "control API endpoint"@,
                            label: bind_text(next),
                            error: error@,
                        },
                    ),
                    _ => None,
                }
            },
        }
    }
}

/// What the metrics endpoint needs in a new generation.
#[derive(Debug)]
pub struct MetricsPreflight {
    pub allow_non_loopback: bool,
    pub primary_listener: Option<String>,
    pub tls_build: Result<(), String>,
    pub endpoint_probe: Result<(), String>,
}

/// What is wrong with the metrics endpoint in a new generation.
pub open spec fn metrics_rejection(
    current: EndpointSettings,
    next: EndpointSettings,
    preflight: MetricsPreflight,
) -> Option<RejectionView> {
    if !next.enabled {
        None
    } else if rebinds(current, next) && preflight.endpoint_probe is Err {
        Some(
            RejectionView::ResourcePreflightFailed {
                component: "metrics endpoint"@,
                label: bind_text(next),
                error: preflight.endpoint_probe->Err_0@,
            },
        )
    } else if !preflight.allow_non_loopback {
        None
    } else {
        match (preflight.primary_listener, preflight.tls_build) {
            (None, _) => Some(
                RejectionView::ResourceMessage(
                    "runtime reload rejected: no effective listeners configured for metrics TLS"@,
                ),
            ),
            (Some(label), Err(error)) => Some(
                RejectionView::ResourcePreflightFailed {
                    component: "metrics TLS"@,
                    label: label@,
                    error: error@,
                },
            ),
            (Some(_), Ok(_)) => None,
        }
    }
}

/// The settings that take effect at a start only.
#[derive(Debug)]
pub struct StartupSettings {
    pub log_file_enabled: bool,
    pub log_file_path: String,
    pub log_format: String,
    pub tracing_enabled: bool,
    pub tracing_service_name: String,
    pub tracing_otlp_endpoint: Option<String>,
    pub control_plane_threads: usize,
}

/// A list, and behind it an item where it belongs there.
pub open spec fn pushed_if(list: Seq<Seq<char>>, item: Seq<char>, wanted: bool) -> Seq<Seq<char>> {
    if wanted {
        list.push(item)
    } else {
        list
    }
}

/// The settings that changed, of those that take effect at a start only. Whether the sample ratio
/// did is told apart.
pub open spec fn startup_changes(
    current: StartupSettings,
    next: StartupSettings,
    sample_ratio_changed: bool,
) -> Seq<Seq<char>> {
    let s = Seq::<Seq<char>>::empty();
    let s = pushed_if(s, "log.file.enabled"@, current.log_file_enabled != next.log_file_enabled);
    let s = pushed_if(s, "log.file.path"@, current.log_file_path@ != next.log_file_path@);
    let s = pushed_if(s, "log.format"@, current.log_format@ != next.log_format@);
    let s = pushed_if(
        s,
        "observability.tracing.enabled"@,
        current.tracing_enabled != next.tracing_enabled,
    );
    let s = pushed_if(
        s,
        "observability.tracing.service_name"@,
        current.tracing_service_name@ != next.tracing_service_name@,
    );
    let s = pushed_if(
        s,
        "observability.tracing.otlp_endpoint"@,
        opt(current.tracing_otlp_endpoint) != opt(next.tracing_otlp_endpoint),
    );
    let s = pushed_if(s, "observability.tracing.sample_ratio"@, sample_ratio_changed);
    pushed_if(
        s,
        "performance.control_plane_threads"@,
        current.control_plane_threads != next.control_plane_threads,
    )
}

/// What a list of rejections says.
pub open spec fn rejection_views(list: Seq<TransitionRejection>) -> Seq<RejectionView> {
    list.map_values(|rejection: TransitionRejection| rejection@)
}

/// One rejection for each setting that needs a restart.
pub open spec fn restart_rejections(paths: Seq<Seq<char>>) -> Seq<RejectionView> {
    paths.map_values(|path: Seq<char>| RejectionView::RestartRequired { field_path: path })
}

/// What is wrong with a new generation: the first of what is wrong with its listeners, the
/// interface and the metrics endpoint, or else every setting that needs a restart.
pub open spec fn compatibility_rejections(
    listeners: Option<RejectionView>,
    control_api: Option<RejectionView>,
    metrics: Option<RejectionView>,
    startup: Seq<RejectionView>,
) -> Seq<RejectionView> {
    match (listeners, control_api, metrics) {
        (Some(rejection), _, _) => seq![rejection],
        (None, Some(rejection), _) => seq![rejection],
        (None, None, Some(rejection)) => seq![rejection],
        (None, None, None) => startup,
    }
}

fn note_change(
    list: &mut Vec<TransitionRejection>,
    field_path: &'static str,
    changed: bool,
    Ghost(paths): Ghost<Seq<Seq<char>>>,
)
    requires
        rejection_views(old(list)@) == restart_rejections(paths),
    ensures
        rejection_views(final(list)@) == restart_rejections(
            pushed_if(paths, field_path@, changed),
        ),
{
    if changed {
        let rejection = TransitionRejection::RestartRequired { field_path };
        list.push(rejection);
        assert(rejection_views(list@) =~= rejection_views(old(list)@).push(rejection@));
        assert(restart_rejections(paths.push(field_path@)) =~= restart_rejections(paths).push(
            rejection@,
        ));
    }
}

pub(crate) fn preflight_failed(component: &'static str, label: &str, error: &str) -> (r: TransitionRejection)
    ensures
        r@ == (RejectionView::ResourcePreflightFailed {
            component: component@,
            label: label@,
            error: error@,
        }),
{
    TransitionRejection::ResourcePreflightFailed {
        component,
        label: owned(label),
        error: owned(error),
    }
}

/// How many workers share a listener's address: at least one.
pub fn effective_worker_count(worker_threads: usize) -> (r: usize)
    ensures
        r == if worker_threads < 1 {
            1
        } else {
            worker_threads as int
        },
{
    if worker_threads < 1 { 1 } else { worker_threads }
}

impl QUICListener {
    /// The listeners that a new generation adds, whose sockets are to be tried.
    pub fn added_listeners(current: &Vec<String>, next: &Vec<String>) -> (r: Vec<String>)
        ensures
            texts(r@) == added(texts(current@), texts(next@)),
    {
        let mut r: Vec<String> = Vec::new();
        let mut i: usize = 0;
        let ghost all = texts(next@);
        assert(texts(r@) =~= added(texts(current@), all.take(0)));
        while i < next.len()
            invariant
                i <= next.len(),
                all == texts(next@),
                texts(r@) == added(texts(current@), all.take(i as int)),
            decreases next.len() - i,
        {
            assert(all.take(i + 1).drop_last() =~= all.take(i as int));
            assert(all[i as int] == next@[i as int]@);
            let ghost before = r@;
            if !list_contains(current, next[i].as_str()) {
                r.push(next[i].clone());
                assert(texts(r@) =~= texts(before).push(next@[i as int]@));
            }
            i = i + 1;
        }
        assert(all.take(i as int) =~= all);
        r
    }

    /// Judges the listeners of a new generation by what trying the added ones yielded.
    pub fn validate_runtime_reload_compatibility(
        current: &Vec<String>,
        next: &Vec<String>,
        preflights: &Vec<ListenerPreflight>,
    ) -> (r: Option<TransitionRejection>)
        ensures
            opt_rejection(r) == listener_rejection(texts(current@), texts(next@), preflights@),
    {
        let ghost labels = texts(current@);
        let mut i: usize = 0;
        assert(labels.skip(0) =~= labels);
        while i < current.len()
            invariant
                i <= current.len(),
                labels == texts(current@),
                first_removed(labels, texts(next@)) == first_removed(
                    labels.skip(i as int),
                    texts(next@),
                ),
            decreases current.len() - i,
        {
            assert(labels.skip(i as int)[0] == current@[i as int]@);
            if !list_contains(next, current[i].as_str()) {
                return Some(TransitionRejection::ListenerBindChanged { label: current[i].clone() });
            }
            assert(labels.skip(i as int).drop_first() =~= labels.skip(i + 1));
            i = i + 1;
        }
        let mut k: usize = 0;
        assert(preflights@.skip(0) =~= preflights@);
        while k < preflights.len()
            invariant
                k <= preflights.len(),
                first_removed(texts(current@), texts(next@)) is None,
                first_rejection(preflights@) == first_rejection(preflights@.skip(k as int)),
            decreases preflights.len() - k,
        {
            assert(preflights@.skip(k as int)[0] == preflights@[k as int]);
            if let Err(error) = &preflights[k].quic {
                return Some(
                    preflight_failed(
                        "QUIC listener",
                        preflights[k].label.as_str(),
                        error.as_str(),
                    ),
                );
            }
            if let Err(error) = &preflights[k].bootstrap {
                return Some(
                    preflight_failed(
                        "bootstrap TLS listener",
                        preflights[k].label.as_str(),
                        error.as_str(),
                    ),
                );
            }
            assert(preflights@.skip(k as int).drop_first() =~= preflights@.skip(k + 1));
            k = k + 1;
        }
        None
    }

    pub fn validate_control_api_reload_compatibility(
        current: &EndpointSettings,
        next: &EndpointSettings,
        preflight: &ControlApiPreflight,
    ) -> (r: Option<TransitionRejection>)
        ensures
            opt_rejection(r) == control_api_rejection(*current, *next, *preflight),
    {
        if !next.enabled {
            return None;
        }
        let label = match &preflight.primary_listener {
            Some(label) => label.as_str(),
            None => {
                return Some(
                    TransitionRejection::ResourceMessage(
                        owned(
                            "runtime reload rejected: no effective listeners configured for control API TLS",
                        ),
                    ),
                );
            },
        };
        if !preflight.tls_config_present {
            let mut message = owned(
                "runtime reload rejected: control API TLS config missing for listener '",
            );
            message.append(label);
            message.append("'");
            return Some(TransitionRejection::ResourceMessage(message));
        }
        if let Err(error) = &preflight.tls_build {
            return Some(preflight_failed("control API TLS", label, error.as_str()));
        }
        if let Some(bind) = endpoint_to_probe(current, next) {
            if let Err(error) = &preflight.endpoint_probe {
                return Some(
                    preflight_failed("control API endpoint", bind.as_str(), error.as_str()),
                );
            }
        }
        None
    }

    pub fn validate_metrics_reload_compatibility(
        current: &EndpointSettings,
        next: &EndpointSettings,
        preflight: &MetricsPreflight,
    ) -> (r: Option<TransitionRejection>)
        ensures
            opt_rejection(r) == metrics_rejection(*current, *next, *preflight),
    {
        if !next.enabled {
            return None;
        }
        if let Some(bind) = endpoint_to_probe(current, next) {
            if let Err(error) = &preflight.endpoint_probe {
                return Some(preflight_failed("metrics endpoint", bind.as_str(), error.as_str()));
            }
        }
        if !preflight.allow_non_loopback {
            return None;
        }
        let label = match &preflight.primary_listener {
            Some(label) => label.as_str(),
            None => {
                return Some(
                    TransitionRejection::ResourceMessage(
                        owned(
                            "runtime reload rejected: no effective listeners configured for metrics TLS",
                        ),
                    ),
                );
            },
        };
        if let Err(error) = &preflight.tls_build {
            return Some(preflight_failed("metrics TLS", label, error.as_str()));
        }
        None
    }

    pub fn validate_startup_owned_reload_compatibility(
        current: &StartupSettings,
        next: &StartupSettings,
        sample_ratio_changed: bool,
    ) -> (r: Vec<TransitionRejection>)
        ensures
            rejection_views(r@) == restart_rejections(
                startup_changes(*current, *next, sample_ratio_changed),
            ),
    {
        let mut list: Vec<TransitionRejection> = Vec::new();
        let ghost s0 = Seq::<Seq<char>>::empty();
        assert(rejection_views(list@) =~= restart_rejections(s0));
        let changed = current.log_file_enabled != next.log_file_enabled;
        note_change(&mut list, "log.file.enabled", changed, Ghost(s0));
        let ghost s1 = pushed_if(s0, "log.file.enabled"@, changed);
        let changed = !same_text(current.log_file_path.as_str(), next.log_file_path.as_str());
        note_change(&mut list, "log.file.path", changed, Ghost(s1));
        let ghost s2 = pushed_if(s1, "log.file.path"@, changed);
        let changed = !same_text(current.log_format.as_str(), next.log_format.as_str());
        note_change(&mut list, "log.format", changed, Ghost(s2));
        let ghost s3 = pushed_if(s2, "log.format"@, changed);
        let changed = current.tracing_enabled != next.tracing_enabled;
        note_change(&mut list, "observability.tracing.enabled", changed, Ghost(s3));
        let ghost s4 = pushed_if(s3, "observability.tracing.enabled"@, changed);
        let changed = !same_text(
            current.tracing_service_name.as_str(),
            next.tracing_service_name.as_str(),
        );
        note_change(&mut list, "observability.tracing.service_name", changed, Ghost(s4));
        let ghost s5 = pushed_if(s4, "observability.tracing.service_name"@, changed);
        let changed = !same_option(
            as_deref(&current.tracing_otlp_endpoint),
            as_deref(&next.tracing_otlp_endpoint),
        );
        note_change(&mut list, "observability.tracing.otlp_endpoint", changed, Ghost(s5));
        let ghost s6 = pushed_if(s5, "observability.tracing.otlp_endpoint"@, changed);
        note_change(
            &mut list,
            "observability.tracing.sample_ratio",
            sample_ratio_changed,
            Ghost(s6),
        );
        let ghost s7 = pushed_if(s6, "observability.tracing.sample_ratio"@, sample_ratio_changed);
        let changed = current.control_plane_threads != next.control_plane_threads;
        note_change(&mut list, "performance.control_plane_threads", changed, Ghost(s7));
        list
    }

    /// Puts the judgements together.
    pub fn evaluate_runtime_reload_compatibility(
        listeners: Option<TransitionRejection>,
        control_api: Option<TransitionRejection>,
        metrics: Option<TransitionRejection>,
        startup: Vec<TransitionRejection>,
    ) -> (r: Result<(), Vec<TransitionRejection>>)
        ensures
            ({
                let rejections = compatibility_rejections(
                    opt_rejection(listeners),
                    opt_rejection(control_api),
                    opt_rejection(metrics),
                    rejection_views(startup@),
                );
                match r {
                    Ok(_) => rejections.len() == 0,
                    Err(list) => rejections.len() > 0 && rejection_views(list@) == rejections,
                }
            }),
    {
        let first = match listeners {
            Some(rejection) => Some(rejection),
            None => match control_api {
                Some(rejection) => Some(rejection),
                None => metrics,
            },
        };
        if let Some(rejection) = first {
            let mut list: Vec<TransitionRejection> = Vec::new();
            list.push(rejection);
            assert(rejection_views(list@) =~= seq![rejection@]);
            return Err(list);
        }
        assert(rejection_views(startup@).len() == startup@.len());
        if startup.len() == 0 {
            return Ok(());
        }
        Err(startup)
    }
}

} // verus!
