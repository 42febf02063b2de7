//! What is tried before a new generation is taken on, in which order, and where it ends.
use crate::control_api::reload::compatibility::{
    added, bind_text, compatibility_rejections, control_api_rejection, endpoint_to_probe,
    first_rejection, first_removed, listener_rejection, metrics_rejection, preflight_failed,
    rebinds, rejection_views, restart_rejections, startup_changes, ControlApiPreflight,
    EndpointSettings, ListenerPreflight, MetricsPreflight, RejectionView, StartupSettings,
    TransitionRejection,
};
use crate::listener::QUICListener;
use crate::text::{opt, owned, texts};
use vstd::prelude::*;

verus! {

/// What a probe tries.
#[derive(Debug, Clone, Copy, PartialEq, Eq, Structural)]
pub enum ProbeKind {
    QuicListener,
    BootstrapListener,
    ControlApiTls,
    ControlApiEndpoint,
    MetricsEndpoint,
    MetricsTls,
}

impl ProbeKind {
    /// What a failed probe blames.
    pub open spec fn component(self) -> Seq<char> {
        match self {
            ProbeKind::QuicListener => "QUIC listener"@,
            ProbeKind::BootstrapListener => "bootstrap TLS listener"@,
            ProbeKind::ControlApiTls => "control API TLS"@,
            ProbeKind::ControlApiEndpoint => "control API endpoint"@,
            ProbeKind::MetricsEndpoint => "metrics endpoint"@,
            ProbeKind::MetricsTls => "metrics TLS"@,
        }
    }

    pub fn component_name(self) -> (r: &'static str)
        ensures
            r@ == self.component(),
    {
        match self {
            ProbeKind::QuicListener => "QUIC listener",
            ProbeKind::BootstrapListener => "bootstrap TLS listener",
            ProbeKind::ControlApiTls => "control API TLS",
            ProbeKind::ControlApiEndpoint => "control API endpoint",
            ProbeKind::MetricsEndpoint => "metrics endpoint",
            ProbeKind::MetricsTls => "metrics TLS",
        }
    }
}

/// A probe: what it tries, and the listener or the address that it tries it on.
#[derive(Debug)]
pub struct ReloadProbe {
    pub kind: ProbeKind,
    pub label: String,
}

pub struct ProbeView {
    pub kind: ProbeKind,
    pub label: Seq<char>,
}

impl View for ReloadProbe {
    type V = ProbeView;

    open spec fn view(&self) -> ProbeView {
        ProbeView { kind: self.kind, label: self.label@ }
    }
}

impl ProbeView {
    /// The rejection that a failed probe leads to.
    pub open spec fn failure(self, error: Seq<char>) -> RejectionView {
        RejectionView::ResourcePreflightFailed {
            component: self.kind.component(),
            label: self.label,
            error,
        }
    }
}

/// One item of what is gone through: a probe, or a rejection that no probe is needed for.
#[derive(Debug)]
enum Item {
    Probe(ReloadProbe),
    Reject(TransitionRejection),
}

pub enum ItemView {
    Probe(ProbeView),
    Reject(RejectionView),
}

impl View for Item {
    type V = ItemView;

    closed spec fn view(&self) -> ItemView {
        match self {
            Item::Probe(probe) => ItemView::Probe(probe@),
            Item::Reject(rejection) => ItemView::Reject(rejection@),
        }
    }
}

closed spec fn item_views(items: Seq<Item>) -> Seq<ItemView> {
    items.map_values(|item: Item| item@)
}

/// A running generation and the one that is to follow it, as far as they are compared. The primary
/// listener is the next generation's, and `primary_tls_config` tells whether it has TLS material.
pub struct ReloadTransition<'a> {
    pub current_listeners: &'a Vec<String>,
    pub next_listeners: &'a Vec<String>,
    pub current_control_api: &'a EndpointSettings,
    pub next_control_api: &'a EndpointSettings,
    pub current_metrics: &'a EndpointSettings,
    pub next_metrics: &'a EndpointSettings,
    pub metrics_allow_non_loopback: bool,
    pub primary_listener: &'a Option<String>,
    pub primary_tls_config: bool,
    pub current_startup: &'a StartupSettings,
    pub next_startup: &'a StartupSettings,
    pub sample_ratio_changed: bool,
}

/// The sockets of some listeners: of each its QUIC socket, and then its bootstrap TLS one.
pub open spec fn socket_items(labels: Seq<Seq<char>>) -> Seq<ItemView> {
    Seq::new(
        labels.len() * 2,
        |i: int|
            ItemView::Probe(
                ProbeView {
                    kind: if i % 2 == 0 {
                        ProbeKind::QuicListener
                    } else {
                        ProbeKind::BootstrapListener
                    },
                    label: labels[i / 2],
                },
            ),
    )
}

/// What is gone through for the listeners: one that would go is refused outright, and those that
/// come are tried.
pub open spec fn listener_items(current: Seq<Seq<char>>, next: Seq<Seq<char>>) -> Seq<ItemView> {
    match first_removed(current, next) {
        Some(label) => seq![ItemView::Reject(RejectionView::ListenerBindChanged { label })],
        None => socket_items(added(current, next)),
    }
}

/// The probe of an endpoint, where it must be bound anew.
pub open spec fn endpoint_items(
    kind: ProbeKind,
    current: EndpointSettings,
    next: EndpointSettings,
) -> Seq<ItemView> {
    if next.enabled && rebinds(current, next) {
        seq![ItemView::Probe(ProbeView { kind, label: bind_text(next) })]
    } else {
        seq![]
    }
}

/// What is gone through for the interface: its TLS configuration, and then its endpoint.
pub open spec fn control_api_items(
    current: EndpointSettings,
    next: EndpointSettings,
    primary: Option<Seq<char>>,
    tls_config: bool,
) -> Seq<ItemView> {
    if !next.enabled {
        seq![]
    } else {
        match primary {
            None => seq![
                ItemView::Reject(
                    RejectionView::ResourceMessage(
                        "runtime reload rejected: no effective listeners configured for control API TLS"@,
                    ),
                ),
            ],
            Some(label) => if !tls_config {
                seq![
                    ItemView::Reject(
                        RejectionView::ResourceMessage(
                            "runtime reload rejected: control API TLS config missing for listener '"@
                                + label + "'"@,
                        ),
                    ),
                ]
            } else {
                seq![ItemView::Probe(ProbeView { kind: ProbeKind::ControlApiTls, label })]
                    + endpoint_items(ProbeKind::ControlApiEndpoint, current, next)
            },
        }
    }
}

/// What is gone through for the TLS configuration of the metrics endpoint, which it needs where it
/// may listen beyond the loopback.
pub open spec fn metrics_tls_items(
    next: EndpointSettings,
    allow_non_loopback: bool,
    primary: Option<Seq<char>>,
) -> Seq<ItemView> {
    if !next.enabled || !allow_non_loopback {
        seq![]
    } else {
        match primary {
            None => seq![
                ItemView::Reject(
                    RejectionView::ResourceMessage(
                        "runtime reload rejected: no effective listeners configured for metrics TLS"@,
                    ),
                ),
            ],
            Some(label) => seq![ItemView::Probe(ProbeView { kind: ProbeKind::MetricsTls, label })],
        }
    }
}

/// What is gone through for the metrics endpoint: the endpoint, and then its TLS configuration.
pub open spec fn metrics_items(
    current: EndpointSettings,
    next: EndpointSettings,
    allow_non_loopback: bool,
    primary: Option<Seq<char>>,
) -> Seq<ItemView> {
    endpoint_items(ProbeKind::MetricsEndpoint, current, next) + metrics_tls_items(
        next,
        allow_non_loopback,
        primary,
    )
}

/// Everything that is gone through: the listeners, the interface, the metrics endpoint.
pub open spec fn reload_items(transition: ReloadTransition) -> Seq<ItemView> {
    listener_items(
        texts(transition.current_listeners@),
        texts(transition.next_listeners@),
    ) + control_api_items(
        *transition.current_control_api,
        *transition.next_control_api,
        opt(*transition.primary_listener),
        transition.primary_tls_config,
    ) + metrics_items(
        *transition.current_metrics,
        *transition.next_metrics,
        transition.metrics_allow_non_loopback,
        opt(*transition.primary_listener),
    )
}

/// The next probe, or the verdict on a generation.
#[derive(Debug)]
pub enum ReloadStep {
    Probe(ReloadProbe),
    Verdict(Result<(), Vec<TransitionRejection>>),
}

pub enum StepView {
    Probe(ProbeView),
    Accepted,
    Refused(Seq<RejectionView>),
}

impl View for ReloadStep {
    type V = StepView;

    open spec fn view(&self) -> StepView {
        match self {
            ReloadStep::Probe(probe) => StepView::Probe(probe@),
            ReloadStep::Verdict(Ok(_)) => StepView::Accepted,
            ReloadStep::Verdict(Err(list)) => StepView::Refused(rejection_views(list@)),
        }
    }
}

/// Where going through some items stops, given the results of the probes made so far: at a
/// rejection, at a probe that failed, or at the first probe that was not made yet. It does not stop
/// where every item is a probe that succeeded.
pub open spec fn first_stop(items: Seq<ItemView>, results: Seq<Result<(), String>>) -> Option<
    StepView,
>
    decreases items.len(),
{
    if items.len() == 0 {
        None
    } else {
        match items[0] {
            ItemView::Reject(rejection) => Some(StepView::Refused(seq![rejection])),
            ItemView::Probe(probe) => if results.len() == 0 {
                Some(StepView::Probe(probe))
            } else {
                match results[0] {
                    Err(error) => Some(StepView::Refused(seq![probe.failure(error@)])),
                    Ok(_) => first_stop(items.drop_first(), results.drop_first()),
                }
            },
        }
    }
}

/// The verdict that some rejections make.
pub open spec fn verdict_of(rejections: Seq<RejectionView>) -> StepView {
    if rejections.len() == 0 {
        StepView::Accepted
    } else {
        StepView::Refused(rejections)
    }
}

/// The settings of a transition that need a restart.
pub open spec fn restarts_needed(transition: ReloadTransition) -> Seq<RejectionView> {
    restart_rejections(
        startup_changes(
            *transition.current_startup,
            *transition.next_startup,
            transition.sample_ratio_changed,
        ),
    )
}

/// The next step, given the results so far: the probes are made one by one up to the first that
/// fails, and where none is in the way, the settings that need a restart decide.
pub open spec fn reload_step(
    transition: ReloadTransition,
    results: Seq<Result<(), String>>,
) -> StepView {
    match first_stop(reload_items(transition), results) {
        Some(step) => step,
        None => verdict_of(restarts_needed(transition)),
    }
}

fn push_probe(items: &mut Vec<Item>, kind: ProbeKind, label: &str)
    ensures
        item_views(final(items)@) == item_views(old(items)@).push(
            ItemView::Probe(ProbeView { kind, label: label@ }),
        ),
{
    let item = Item::Probe(ReloadProbe { kind, label: owned(label) });
    items.push(item);
    assert(item_views(items@) =~= item_views(old(items)@).push(item@));
}

fn push_rejection(items: &mut Vec<Item>, rejection: TransitionRejection)
    ensures
        item_views(final(items)@) == item_views(old(items)@).push(ItemView::Reject(rejection@)),
{
    let item = Item::Reject(rejection);
    items.push(item);
    assert(item_views(items@) =~= item_views(old(items)@).push(item@));
}

fn push_listeners(items: &mut Vec<Item>, current: &Vec<String>, next: &Vec<String>)
    ensures
        item_views(final(items)@) == item_views(old(items)@) + listener_items(
            texts(current@),
            texts(next@),
        ),
{
    let ghost before = item_views(items@);
    let untried: Vec<ListenerPreflight> = Vec::new();
    if let Some(rejection) = QUICListener::validate_runtime_reload_compatibility(
        current,
        next,
        &untried,
    ) {
        push_rejection(items, rejection);
        assert(item_views(items@) =~= before + listener_items(texts(current@), texts(next@)));
        return;
    }
    let labels = QUICListener::added_listeners(current, next);
    let ghost all = texts(labels@);
    let mut i: usize = 0;
    assert(before + socket_items(all.take(0)) =~= before);
    while i < labels.len()
        invariant
            i <= labels.len(),
            all == texts(labels@),
            item_views(items@) == before + socket_items(all.take(i as int)),
        decreases labels.len() - i,
    {
        push_probe(items, ProbeKind::QuicListener, labels[i].as_str());
        push_probe(items, ProbeKind::BootstrapListener, labels[i].as_str());
        i = i + 1;
        assert(all[i - 1] == labels@[i - 1]@);
        assert(item_views(items@) =~= before + socket_items(all.take(i as int)));
    }
    assert(all.take(i as int) =~= all);
}

fn push_endpoint(
    items: &mut Vec<Item>,
    kind: ProbeKind,
    current: &EndpointSettings,
    next: &EndpointSettings,
)
    ensures
        item_views(final(items)@) == item_views(old(items)@) + endpoint_items(
            kind,
            *current,
            *next,
        ),
{
    if let Some(bind) = endpoint_to_probe(current, next) {
        push_probe(items, kind, bind.as_str());
    }
    assert(item_views(items@) =~= item_views(old(items)@) + endpoint_items(kind, *current, *next));
}

fn push_control_api(
    items: &mut Vec<Item>,
    current: &EndpointSettings,
    next: &EndpointSettings,
    primary: &Option<String>,
    tls_config: bool,
)
    ensures
        item_views(final(items)@) == item_views(old(items)@) + control_api_items(
            *current,
            *next,
            opt(*primary),
            tls_config,
        ),
{
    let ghost before = item_views(items@);
    let ghost wanted = control_api_items(*current, *next, opt(*primary), tls_config);
    if !next.enabled {
        assert(before + wanted =~= before);
        return;
    }
    match primary {
        None => {
            let message = owned(
                "runtime reload rejected: no effective listeners configured for control API TLS",
            );
            push_rejection(items, TransitionRejection::ResourceMessage(message));
        },
        Some(label) => if !tls_config {
            let mut message = owned(
                "runtime reload rejected: control API TLS config missing for listener '",
            );
            message.append(label.as_str());
            message.append("'");
            push_rejection(items, TransitionRejection::ResourceMessage(message));
        } else {
            push_probe(items, ProbeKind::ControlApiTls, label.as_str());
            push_endpoint(items, ProbeKind::ControlApiEndpoint, current, next);
        },
    }
    assert(item_views(items@) =~= before + wanted);
}

fn push_metrics(
    items: &mut Vec<Item>,
    current: &EndpointSettings,
    next: &EndpointSettings,
    allow_non_loopback: bool,
    primary: &Option<String>,
)
    ensures
        item_views(final(items)@) == item_views(old(items)@) + metrics_items(
            *current,
            *next,
            allow_non_loopback,
            opt(*primary),
        ),
{
    let ghost before = item_views(items@);
    push_endpoint(items, ProbeKind::MetricsEndpoint, current, next);
    if next.enabled && allow_non_loopback {
        match primary {
            None => {
                let message = owned(
                    "runtime reload rejected: no effective listeners configured for metrics TLS",
                );
                push_rejection(items, TransitionRejection::ResourceMessage(message));
            },
            Some(label) => {
                push_probe(items, ProbeKind::MetricsTls, label.as_str());
            },
        }
    }
    assert(item_views(items@) =~= before + metrics_items(
        *current,
        *next,
        allow_non_loopback,
        opt(*primary),
    ));
}

fn refuse(rejection: TransitionRejection) -> (r: ReloadStep)
    ensures
        r@ == StepView::Refused(seq![rejection@]),
{
    let mut list: Vec<TransitionRejection> = Vec::new();
    list.push(rejection);
    assert(rejection_views(list@) =~= seq![rejection@]);
    ReloadStep::Verdict(Err(list))
}

/// Goes through items with the results so far.
fn find_stop(items: Vec<Item>, results: &Vec<Result<(), String>>) -> (r: Option<ReloadStep>)
    ensures
        (match r {
            Some(step) => Some(step@),
            None => None,
        }) == first_stop(item_views(items@), results@),
{
    let ghost all = item_views(items@);
    let mut rest = items;
    let mut i: usize = 0;
    assert(results@.skip(0) =~= results@);
    while rest.len() > 0
        invariant
            i <= results.len(),
            all == item_views(items@),
            first_stop(all, results@) == first_stop(item_views(rest@), results@.skip(i as int)),
        decreases rest.len(),
    {
        let ghost before = item_views(rest@);
        let item = rest.remove(0);
        assert(before.len() > 0 && before[0] == item@);
        assert(before.drop_first() =~= item_views(rest@));
        match item {
            Item::Reject(rejection) => {
                return Some(refuse(rejection));
            },
            Item::Probe(probe) => {
                if i == results.len() {
                    return Some(ReloadStep::Probe(probe));
                }
                assert(results@.skip(i as int)[0] == results@[i as int]);
                if let Err(error) = &results[i] {
                    return Some(
                        refuse(
                            preflight_failed(
                                probe.kind.component_name(),
                                probe.label.as_str(),
                                error.as_str(),
                            ),
                        ),
                    );
                }
                assert(results@.skip(i as int).drop_first() =~= results@.skip(i + 1));
            },
        }
        i = i + 1;
    }
    None
}

/// Decides what is tried next of a new generation, or whether it is taken on. `results` are those of
/// the probes so far, in the order in which they were asked for.
pub fn next_reload_step(
    transition: &ReloadTransition<'_>,
    results: &Vec<Result<(), String>>,
) -> (r: ReloadStep)
    ensures
        r@ == reload_step(*transition, results@),
{
    let mut items: Vec<Item> = Vec::new();
    assert(item_views(items@) =~= Seq::<ItemView>::empty());
    push_listeners(&mut items, transition.current_listeners, transition.next_listeners);
    push_control_api(
        &mut items,
        transition.current_control_api,
        transition.next_control_api,
        transition.primary_listener,
        transition.primary_tls_config,
    );
    push_metrics(
        &mut items,
        transition.current_metrics,
        transition.next_metrics,
        transition.metrics_allow_non_loopback,
        transition.primary_listener,
    );
    assert(item_views(items@) =~= reload_items(*transition));
    if let Some(step) = find_stop(items, results) {
        return step;
    }
    let startup = QUICListener::validate_startup_owned_reload_compatibility(
        transition.current_startup,
        transition.next_startup,
        transition.sample_ratio_changed,
    );
    assert(rejection_views(startup@).len() == startup@.len());
    if startup.len() == 0 {
        ReloadStep::Verdict(Ok(()))
    } else {
        ReloadStep::Verdict(Err(startup))
    }
}

/// What trying some listeners' sockets yielded, in the order of the probes.
pub open spec fn listener_results(preflights: Seq<ListenerPreflight>) -> Seq<Result<(), String>> {
    Seq::new(
        preflights.len() * 2,
        |i: int|
            if i % 2 == 0 {
                preflights[i / 2].quic
            } else {
                preflights[i / 2].bootstrap
            },
    )
}

/// The result of an endpoint's probe, where it is made.
pub open spec fn endpoint_results(
    current: EndpointSettings,
    next: EndpointSettings,
    probed: Result<(), String>,
) -> Seq<Result<(), String>> {
    if next.enabled && rebinds(current, next) {
        seq![probed]
    } else {
        seq![]
    }
}

/// What trying the interface yielded, in the order of the probes.
pub open spec fn control_api_results(
    current: EndpointSettings,
    next: EndpointSettings,
    preflight: ControlApiPreflight,
) -> Seq<Result<(), String>> {
    if next.enabled && preflight.primary_listener is Some && preflight.tls_config_present {
        seq![preflight.tls_build] + endpoint_results(current, next, preflight.endpoint_probe)
    } else {
        seq![]
    }
}

/// What trying the metrics endpoint yielded, in the order of the probes.
pub open spec fn metrics_results(
    current: EndpointSettings,
    next: EndpointSettings,
    preflight: MetricsPreflight,
) -> Seq<Result<(), String>> {
    endpoint_results(current, next, preflight.endpoint_probe) + if next.enabled
        && preflight.allow_non_loopback && preflight.primary_listener is Some {
        seq![preflight.tls_build]
    } else {
        seq![]
    }
}

/// Where a rejection stops.
pub open spec fn stop_at(rejection: Option<RejectionView>) -> Option<StepView> {
    match rejection {
        Some(rejection) => Some(StepView::Refused(seq![rejection])),
        None => None,
    }
}

/// Where going through two lists stops: in the first, or else in the second.
proof fn lemma_stop_of_two(
    first: Seq<ItemView>,
    second: Seq<ItemView>,
    results: Seq<Result<(), String>>,
    more: Seq<Result<(), String>>,
)
    requires
        !(first_stop(first, results) matches Some(StepView::Probe(_))),
        first_stop(first, results) is None ==> results.len() == first.len(),
    ensures
        first_stop(first + second, results + more) == match first_stop(first, results) {
            Some(step) => Some(step),
            None => first_stop(second, more),
        },
    decreases first.len(),
{
    if first.len() == 0 {
        assert(first + second =~= second);
        assert(results + more =~= more);
    } else {
        assert((first + second)[0] == first[0]);
        assert((first + second).drop_first() =~= first.drop_first() + second);
        if results.len() > 0 {
            assert((results + more)[0] == results[0]);
            assert((results + more).drop_first() =~= results.drop_first() + more);
            if first[0] is Probe && results[0] is Ok {
                lemma_stop_of_two(
                    first.drop_first(),
                    second,
                    results.drop_first(),
                    more,
                );
            }
        }
    }
}

proof fn lemma_sockets(labels: Seq<Seq<char>>, preflights: Seq<ListenerPreflight>)
    requires
        labels.len() == preflights.len(),
        forall|i: int| 0 <= i < labels.len() ==> (#[trigger] preflights[i]).label@ == labels[i],
    ensures
        first_stop(socket_items(labels), listener_results(preflights)) == stop_at(
            first_rejection(preflights),
        ),
    decreases labels.len(),
{
    reveal_with_fuel(first_stop, 3);
    if labels.len() > 0 {
        let items = socket_items(labels);
        let results = listener_results(preflights);
        assert(items.drop_first()[0] == items[1]);
        assert(results.drop_first()[0] == results[1]);
        assert(items.drop_first().drop_first() =~= socket_items(labels.drop_first()));
        assert(results.drop_first().drop_first() =~= listener_results(preflights.drop_first()));
        assert(preflights[0].label@ == labels[0]);
        assert forall|i: int| 0 <= i < labels.drop_first().len() implies (
        #[trigger] preflights.drop_first()[i]).label@ == labels.drop_first()[i] by {
            assert(preflights.drop_first()[i] == preflights[i + 1]);
        }
        lemma_sockets(labels.drop_first(), preflights.drop_first());
    }
}

proof fn lemma_control_api(
    current: EndpointSettings,
    next: EndpointSettings,
    preflight: ControlApiPreflight,
)
    ensures
        ({
            let items = control_api_items(
                current,
                next,
                opt(preflight.primary_listener),
                preflight.tls_config_present,
            );
            let results = control_api_results(current, next, preflight);
            &&& first_stop(items, results) == stop_at(
                control_api_rejection(current, next, preflight),
            )
            &&& first_stop(items, results) is None ==> results.len() == items.len()
        }),
{
    reveal_with_fuel(first_stop, 3);
    let items = control_api_items(
        current,
        next,
        opt(preflight.primary_listener),
        preflight.tls_config_present,
    );
    let results = control_api_results(current, next, preflight);
    if next.enabled && preflight.primary_listener is Some && preflight.tls_config_present {
        assert(items.drop_first() =~= endpoint_items(ProbeKind::ControlApiEndpoint, current, next));
        assert(results.drop_first() =~= endpoint_results(current, next, preflight.endpoint_probe));
    }
}

proof fn lemma_metrics(
    current: EndpointSettings,
    next: EndpointSettings,
    preflight: MetricsPreflight,
)
    ensures
        first_stop(
            metrics_items(
                current,
                next,
                preflight.allow_non_loopback,
                opt(preflight.primary_listener),
            ),
            metrics_results(current, next, preflight),
        ) == stop_at(metrics_rejection(current, next, preflight)),
{
    let endpoint = endpoint_items(ProbeKind::MetricsEndpoint, current, next);
    let probed = endpoint_results(current, next, preflight.endpoint_probe);
    let tls = metrics_tls_items(next, preflight.allow_non_loopback, opt(preflight.primary_listener));
    let built: Seq<Result<(), String>> = if next.enabled && preflight.allow_non_loopback
        && preflight.primary_listener is Some {
        seq![preflight.tls_build]
    } else {
        seq![]
    };
    if endpoint.len() > 0 {
        assert(first_stop(endpoint.drop_first(), probed.drop_first()) is None);
    }
    lemma_stop_of_two(endpoint, tls, probed, built);
    if tls.len() > 0 {
        assert(first_stop(tls.drop_first(), built.drop_first()) is None);
    }
}

/// Trying one thing after the other up to the first failure leads to the verdict that the judgements
/// on the listeners, the interface, the metrics endpoint and the settings make together, from what
/// the same probes yielded.
pub proof fn law_probing_reaches_the_verdict(
    transition: ReloadTransition,
    preflights: Seq<ListenerPreflight>,
    control_api: ControlApiPreflight,
    metrics: MetricsPreflight,
)
    requires
        ({
            let labels = added(
                texts(transition.current_listeners@),
                texts(transition.next_listeners@),
            );
            &&& preflights.len() == labels.len()
            &&& forall|i: int|
                0 <= i < labels.len() ==> (#[trigger] preflights[i]).label@ == labels[i]
        }),
        opt(control_api.primary_listener) == opt(*transition.primary_listener),
        control_api.tls_config_present == transition.primary_tls_config,
        opt(metrics.primary_listener) == opt(*transition.primary_listener),
        metrics.allow_non_loopback == transition.metrics_allow_non_loopback,
    ensures
        reload_step(
            transition,
            listener_results(preflights) + control_api_results(
                *transition.current_control_api,
                *transition.next_control_api,
                control_api,
            ) + metrics_results(
                *transition.current_metrics,
                *transition.next_metrics,
                metrics,
            ),
        ) == verdict_of(
            compatibility_rejections(
                listener_rejection(
                    texts(transition.current_listeners@),
                    texts(transition.next_listeners@),
                    preflights,
                ),
                control_api_rejection(
                    *transition.current_control_api,
                    *transition.next_control_api,
                    control_api,
                ),
                metrics_rejection(
                    *transition.current_metrics,
                    *transition.next_metrics,
                    metrics,
                ),
                restarts_needed(transition),
            ),
        ),
{
    let current = texts(transition.current_listeners@);
    let next = texts(transition.next_listeners@);
    let a = listener_items(current, next);
    let b = control_api_items(
        *transition.current_control_api,
        *transition.next_control_api,
        opt(*transition.primary_listener),
        transition.primary_tls_config,
    );
    let c = metrics_items(
        *transition.current_metrics,
        *transition.next_metrics,
        transition.metrics_allow_non_loopback,
        opt(*transition.primary_listener),
    );
    let ra = listener_results(preflights);
    let rb = control_api_results(
        *transition.current_control_api,
        *transition.next_control_api,
        control_api,
    );
    let rc = metrics_results(
        *transition.current_metrics,
        *transition.next_metrics,
        metrics,
    );
    lemma_sockets(added(current, next), preflights);
    lemma_control_api(
        *transition.current_control_api,
        *transition.next_control_api,
        control_api,
    );
    lemma_metrics(*transition.current_metrics, *transition.next_metrics, metrics);
    lemma_stop_of_two(b, c, rb, rc);
    lemma_stop_of_two(a, b + c, ra, rb + rc);
    assert(a + b + c =~= a + (b + c));
    assert(ra + rb + rc =~= ra + (rb + rc));
}

} // verus!
