//! What is observed of a bootstrap request's end.
use crate::admission::policy::OverloadShedReason;
use crate::config::Nanos;
use crate::status::StatusCode;
use vstd::prelude::*;

verus! {

/// The route that an outcome is counted under.
#[derive(Debug, Clone, Copy)]
pub struct RouteOutcomeTarget<'a> {
    pub route: &'a str,
}

/// The backend that an outcome is counted under.
#[derive(Debug, Clone, Copy)]
pub struct BackendOutcomeTarget<'a> {
    pub upstream: &'a str,
    pub backend_addr: Option<&'a str>,
    pub backend_index: Option<usize>,
}

/// The backend that a request was routed to.
#[derive(Debug)]
pub struct BootstrapPreparedRoute {
    pub upstream_name: String,
    pub backend_addr: String,
    pub backend_index: usize,
}

/// The target names this route.
pub open spec fn targets_route(target: RouteOutcomeTarget, route: Seq<char>) -> bool {
    target.route@ == route
}

/// The target names this backend.
pub open spec fn targets_backend(
    target: BackendOutcomeTarget,
    upstream: Seq<char>,
    addr: Seq<char>,
    index: usize,
) -> bool {
    &&& target.upstream@ == upstream
    &&& target.backend_addr matches Some(text) && text@ == addr
    &&& target.backend_index == Some(index)
}

pub fn bootstrap_route_target<'a>(route: &'a str) -> (r: RouteOutcomeTarget<'a>)
    ensures
        targets_route(r, route@),
{
    RouteOutcomeTarget { route }
}

pub fn bootstrap_backend_target<'a>(
    upstream_name: &'a str,
    backend_addr: &'a str,
    backend_index: usize,
) -> (r: BackendOutcomeTarget<'a>)
    ensures
        targets_backend(r, upstream_name@, backend_addr@, backend_index),
{
    BackendOutcomeTarget {
        upstream: upstream_name,
        backend_addr: Some(backend_addr),
        backend_index: Some(backend_index),
    }
}

pub fn bootstrap_route_target_for_prepared(prepared_route: &BootstrapPreparedRoute) -> (r:
    RouteOutcomeTarget<'_>)
    ensures
        targets_route(r, prepared_route.upstream_name@),
{
    bootstrap_route_target(prepared_route.upstream_name.as_str())
}

pub fn bootstrap_backend_target_for_prepared(prepared_route: &BootstrapPreparedRoute) -> (r:
    BackendOutcomeTarget<'_>)
    ensures
        targets_backend(
            r,
            prepared_route.upstream_name@,
            prepared_route.backend_addr@,
            prepared_route.backend_index,
        ),
{
    bootstrap_backend_target(
        prepared_route.upstream_name.as_str(),
        prepared_route.backend_addr.as_str(),
        prepared_route.backend_index,
    )
}

/// The time since `start`, nothing where the clock shows an earlier time.
pub open spec fn since(start: Nanos, now: Nanos) -> int {
    if now < start {
        0
    } else {
        now - start
    }
}

/// How a request that was not admitted is classed: as shed, with the limit that shed it where one
/// is known, or under another class by its name.
#[derive(Debug, Clone, Copy)]
pub enum AdmissionOutcomeClass<'a> {
    OverloadShed { reason: Option<OverloadShedReason> },
    Other(&'a str),
}

/// What is observed of a request that was not admitted.
#[derive(Debug, Clone, Copy)]
pub struct AdmissionObservation<'a> {
    pub route: RouteOutcomeTarget<'a>,
    pub backend: BackendOutcomeTarget<'a>,
    pub elapsed: Nanos,
    pub status: u16,
    pub outcome: AdmissionOutcomeClass<'a>,
}

pub fn observe_bootstrap_admission_outcome<'a>(
    upstream_name: &'a str,
    backend_addr: &'a str,
    backend_index: usize,
    request_start: Nanos,
    now: Nanos,
    status: u16,
    outcome: AdmissionOutcomeClass<'a>,
) -> (r: AdmissionObservation<'a>)
    ensures
        targets_route(r.route, upstream_name@),
        targets_backend(r.backend, upstream_name@, backend_addr@, backend_index),
        r.elapsed == since(request_start, now),
        r.status == status,
        r.outcome == outcome,
{
    AdmissionObservation {
        route: bootstrap_route_target(upstream_name),
        backend: bootstrap_backend_target(upstream_name, backend_addr, backend_index),
        elapsed: now.saturating_sub(request_start),
        status,
        outcome,
    }
}

/// What is observed of a backend's answer.
#[derive(Debug, Clone, Copy)]
pub struct ResponseObservation<'a> {
    pub route: RouteOutcomeTarget<'a>,
    pub backend: BackendOutcomeTarget<'a>,
    pub elapsed: Nanos,
    pub status: u16,
}

pub fn observe_bootstrap_response_status(
    prepared_route: &BootstrapPreparedRoute,
    request_start: Nanos,
    now: Nanos,
    status: u16,
) -> (r: ResponseObservation<'_>)
    ensures
        targets_route(r.route, prepared_route.upstream_name@),
        targets_backend(
            r.backend,
            prepared_route.upstream_name@,
            prepared_route.backend_addr@,
            prepared_route.backend_index,
        ),
        r.elapsed == since(request_start, now),
        r.status == status,
{
    ResponseObservation {
        route: bootstrap_route_target_for_prepared(prepared_route),
        backend: bootstrap_backend_target_for_prepared(prepared_route),
        elapsed: now.saturating_sub(request_start),
        status,
    }
}

/// Why a request could not be proxied: an error under its own text, or a backend's overload.
#[derive(Debug, Clone, Copy)]
pub enum ProxyFailure<'a> {
    Error(&'a str),
    BackendOverloaded(&'a str),
}

/// What is observed of a request that could not be proxied. One that was shed because the answer
/// outgrew its buffer is counted as shed too.
#[derive(Debug, Clone, Copy)]
pub struct FailureObservation<'a> {
    pub route: RouteOutcomeTarget<'a>,
    pub backend: BackendOutcomeTarget<'a>,
    pub elapsed: Nanos,
    pub status: u16,
    pub failure: ProxyFailure<'a>,
    pub shed_at_prebuffer_cap: bool,
}

pub fn observe_bootstrap_request_proxy_error<'a>(
    upstream_name: &'a str,
    backend_addr: &'a str,
    backend_index: usize,
    request_start: Nanos,
    now: Nanos,
    status: u16,
    error: &'a str,
) -> (r: FailureObservation<'a>)
    ensures
        targets_route(r.route, upstream_name@),
        targets_backend(r.backend, upstream_name@, backend_addr@, backend_index),
        r.elapsed == since(request_start, now),
        r.status == status,
        r.failure matches ProxyFailure::Error(text) && text@ == error@,
        !r.shed_at_prebuffer_cap,
{
    FailureObservation {
        route: bootstrap_route_target(upstream_name),
        backend: bootstrap_backend_target(upstream_name, backend_addr, backend_index),
        elapsed: now.saturating_sub(request_start),
        status,
        failure: ProxyFailure::Error(error),
        shed_at_prebuffer_cap: false,
    }
}

/// How a failed dispatch is noted: under its class, which also counts against the backend, or by
/// its text alone.
#[derive(Debug, Clone, Copy)]
pub enum DispatchNote<'a> {
    Classified {
        phase: &'static str,
        request_id: u64,
        upstream: &'a str,
        backend_addr: &'a str,
        backend_index: usize,
    },
    Unclassified { upstream: &'a str, backend_addr: &'a str, detail: &'a str },
}

/// `classified` tells whether the error has a class among the failures of backends.
pub fn observe_bootstrap_dispatch_failure<'a>(
    prepared_route: &'a BootstrapPreparedRoute,
    request_start: Nanos,
    now: Nanos,
    request_id: u64,
    status: u16,
    error: &'a str,
    classified: bool,
) -> (r: (FailureObservation<'a>, DispatchNote<'a>))
    ensures
        targets_route(r.0.route, prepared_route.upstream_name@),
        targets_backend(
            r.0.backend,
            prepared_route.upstream_name@,
            prepared_route.backend_addr@,
            prepared_route.backend_index,
        ),
        r.0.elapsed == since(request_start, now),
        r.0.status == status,
        r.0.failure matches ProxyFailure::Error(text) && text@ == error@,
        !r.0.shed_at_prebuffer_cap,
        match r.1 {
            DispatchNote::Classified {
                phase,
                request_id: noted_id,
                upstream,
                backend_addr,
                backend_index,
            } => classified && phase@ == "bootstrap"@ && noted_id == request_id && upstream@
                == prepared_route.upstream_name@ && backend_addr@ == prepared_route.backend_addr@
                && backend_index == prepared_route.backend_index,
            DispatchNote::Unclassified { upstream, backend_addr, detail } => !classified
                && upstream@ == prepared_route.upstream_name@ && backend_addr@
                == prepared_route.backend_addr@ && detail@ == error@,
        },
{
    let observation = observe_bootstrap_request_proxy_error(
        prepared_route.upstream_name.as_str(),
        prepared_route.backend_addr.as_str(),
        prepared_route.backend_index,
        request_start,
        now,
        status,
        error,
    );
    let note = if classified {
        DispatchNote::Classified {
            phase: "bootstrap",
            request_id,
            upstream: prepared_route.upstream_name.as_str(),
            backend_addr: prepared_route.backend_addr.as_str(),
            backend_index: prepared_route.backend_index,
        }
    } else {
        DispatchNote::Unclassified {
            upstream: prepared_route.upstream_name.as_str(),
            backend_addr: prepared_route.backend_addr.as_str(),
            detail: error,
        }
    };
    (observation, note)
}

pub fn observe_bootstrap_response_prebuffer_overflow(
    prepared_route: &BootstrapPreparedRoute,
    request_start: Nanos,
    now: Nanos,
) -> (r: FailureObservation<'_>)
    ensures
        targets_route(r.route, prepared_route.upstream_name@),
        targets_backend(
            r.backend,
            prepared_route.upstream_name@,
            prepared_route.backend_addr@,
            prepared_route.backend_index,
        ),
        r.elapsed == since(request_start, now),
        r.status == StatusCode::ServiceUnavailable.code(),
        r.failure matches ProxyFailure::BackendOverloaded(text) && text@
            == "response prebuffer cap"@,
        r.shed_at_prebuffer_cap,
{
    FailureObservation {
        route: bootstrap_route_target_for_prepared(prepared_route),
        backend: bootstrap_backend_target_for_prepared(prepared_route),
        elapsed: now.saturating_sub(request_start),
        status: StatusCode::ServiceUnavailable.as_u16(),
        failure: ProxyFailure::BackendOverloaded("response prebuffer cap"),
        shed_at_prebuffer_cap: true,
    }
}

/// What a backend's pool is told when a request to it ends.
#[derive(Debug, Clone, Copy, PartialEq, Eq, Structural)]
pub struct BackendRequestFinish {
    pub backend_index: Option<usize>,
    pub elapsed: Nanos,
    pub status: Option<u16>,
}

pub fn finish_bootstrap_backend_request_accounting(
    prepared_route: &BootstrapPreparedRoute,
    request_start: Nanos,
    now: Nanos,
    status: Option<u16>,
) -> (r: BackendRequestFinish)
    ensures
        r.backend_index == Some(prepared_route.backend_index),
        r.elapsed == since(request_start, now),
        r.status == status,
{
    BackendRequestFinish {
        backend_index: Some(prepared_route.backend_index),
        elapsed: now.saturating_sub(request_start),
        status,
    }
}

/// An outcome is counted under the route and the backend that the request was sent to, and under no
/// other; and the time that it took is the time between its start and its end, or none where the
/// clock went back.
pub proof fn law_an_outcome_is_counted_where_it_happened(
    route: RouteOutcomeTarget,
    backend: BackendOutcomeTarget,
    upstream: Seq<char>,
    addr: Seq<char>,
    index: usize,
    start: Nanos,
    now: Nanos,
)
    ensures
        targets_route(route, upstream) <==> route.route@ == upstream,
        targets_backend(backend, upstream, addr, index) <==> {
            &&& backend.upstream@ == upstream
            &&& backend.backend_addr is Some && backend.backend_addr->0@ == addr
            &&& backend.backend_index is Some && backend.backend_index->0 == index
        },
        now >= start ==> start + since(start, now) == now,
        now < start ==> since(start, now) == 0,
{
}

} // verus!
