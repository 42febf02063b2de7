//! The decision on an authenticated request: quotas, then one limiter after another, then the
//! backend it was meant for.
use crate::admission::policy::{
    overload_from_route_queue_rejection, overloaded, queue_reason, shed, OverloadDecision,
    OverloadDecisionReason, OverloadView, RouteQueueRejection,
};
use crate::admission::quota::{
    opt_rejection, quota_rejection, QuotaDecision, QuotaRejectedDecision, QuotaRejectionView,
};
use crate::status::StatusCode;
use vstd::prelude::*;

verus! {

/// Under what a request's end is counted for its route.
#[derive(Debug, Clone, Copy, PartialEq, Eq, Structural)]
pub enum RouteOutcome {
    OverloadShed,
    Failure,
}

/// A request that could not be admitted for want of something the proxy should have.
#[derive(Debug, PartialEq, Eq)]
pub struct PostAuthAdmissionFailure {
    pub status: StatusCode,
    pub body: &'static str,
    pub overload_reason: Option<OverloadDecisionReason>,
    pub route_outcome: Option<RouteOutcome>,
    pub observe_adaptive_overload: bool,
}

pub struct FailureView {
    pub status: StatusCode,
    pub body: Seq<char>,
    pub overload_reason: Option<OverloadDecisionReason>,
    pub route_outcome: Option<RouteOutcome>,
    pub observe_adaptive_overload: bool,
}

impl View for PostAuthAdmissionFailure {
    type V = FailureView;

    open spec fn view(&self) -> FailureView {
        FailureView {
            status: self.status,
            body: self.body@,
            overload_reason: self.overload_reason,
            route_outcome: self.route_outcome,
            observe_adaptive_overload: self.observe_adaptive_overload,
        }
    }
}

/// An admitted request. No permit was waited for: a limiter is asked once, and gives one or not.
#[derive(Debug, Clone, Copy, PartialEq, Eq, Structural)]
pub struct PostAuthAdmissionReady {
    pub backend_index: usize,
    pub waited_for_global_permit: bool,
    pub waited_for_upstream_permit: bool,
}

#[derive(Debug, PartialEq, Eq)]
pub enum PostAuthAdmissionRejection {
    Quota(QuotaRejectedDecision),
    Overloaded(OverloadDecision),
    Failed(PostAuthAdmissionFailure),
}

pub enum RejectionView {
    Quota(QuotaRejectionView),
    Overloaded(OverloadView),
    Failed(FailureView),
}

impl View for PostAuthAdmissionRejection {
    type V = RejectionView;

    open spec fn view(&self) -> RejectionView {
        match self {
            PostAuthAdmissionRejection::Quota(decision) => RejectionView::Quota(decision@),
            PostAuthAdmissionRejection::Overloaded(decision) => RejectionView::Overloaded(
                decision@,
            ),
            PostAuthAdmissionRejection::Failed(failure) => RejectionView::Failed(failure@),
        }
    }
}

#[derive(Debug, PartialEq, Eq)]
pub enum PostAuthAdmissionExecution {
    Ready(PostAuthAdmissionReady),
    Rejected(PostAuthAdmissionRejection),
}

pub enum ExecutionView {
    Ready(PostAuthAdmissionReady),
    Rejected(RejectionView),
}

impl View for PostAuthAdmissionExecution {
    type V = ExecutionView;

    open spec fn view(&self) -> ExecutionView {
        match self {
            PostAuthAdmissionExecution::Ready(ready) => ExecutionView::Ready(*ready),
            PostAuthAdmissionExecution::Rejected(rejection) => ExecutionView::Rejected(rejection@),
        }
    }
}

/// The refusal that the quotas lead to. A denial in shadow mode does not refuse here.
pub open spec fn post_auth_quota(decision: Option<QuotaDecision>) -> Option<QuotaRejectionView> {
    match decision {
        None => None,
        Some(QuotaDecision::ShadowDenied(_)) => None,
        Some(decision) => quota_rejection(decision),
    }
}

/// Decides by what the quotas said; nothing where they could not be asked.
pub fn evaluate_forwarding_post_auth_quota_policy(decision: Option<QuotaDecision>) -> (r: Option<
    QuotaRejectedDecision,
>)
    ensures
        opt_rejection(r) == post_auth_quota(decision),
{
    match decision {
        None => None,
        Some(QuotaDecision::NotApplied) => None,
        Some(QuotaDecision::Allowed) => None,
        Some(QuotaDecision::FailedOpen(_)) => None,
        Some(QuotaDecision::ShadowDenied(_)) => None,
        Some(denied) => QuotaRejectedDecision::from_quota_decision(denied),
    }
}

/// What the limiter of an upstream said.
#[derive(Debug, Clone, Copy, PartialEq, Eq, Structural)]
pub enum UpstreamPermit {
    MissingLimiter,
    Exhausted,
    Acquired,
}

/// What has just been learnt of a request.
#[derive(Debug)]
pub enum PostAuthEvent {
    Quota(Option<QuotaDecision>),
    AdaptivePermit { acquired: bool },
    RouteQueue(Result<(), RouteQueueRejection>),
    GlobalPermit { acquired: bool },
    UpstreamPermit(UpstreamPermit),
    UpstreamPool { found: bool },
    BackendHealth { healthy: bool },
}

/// What is to be done next.
#[derive(Debug)]
pub enum PostAuthAction {
    AcquireAdaptivePermit,
    EnterRouteQueue,
    AcquireGlobalPermit,
    AcquireUpstreamPermit,
    FindUpstreamPool,
    CheckBackendHealth { backend_index: usize },
    Finish(PostAuthAdmissionExecution),
}

pub enum ActionView {
    AcquireAdaptivePermit,
    EnterRouteQueue,
    AcquireGlobalPermit,
    AcquireUpstreamPermit,
    FindUpstreamPool,
    CheckBackendHealth { backend_index: usize },
    Finish(ExecutionView),
}

impl View for PostAuthAction {
    type V = ActionView;

    open spec fn view(&self) -> ActionView {
        match self {
            PostAuthAction::AcquireAdaptivePermit => ActionView::AcquireAdaptivePermit,
            PostAuthAction::EnterRouteQueue => ActionView::EnterRouteQueue,
            PostAuthAction::AcquireGlobalPermit => ActionView::AcquireGlobalPermit,
            PostAuthAction::AcquireUpstreamPermit => ActionView::AcquireUpstreamPermit,
            PostAuthAction::FindUpstreamPool => ActionView::FindUpstreamPool,
            PostAuthAction::CheckBackendHealth { backend_index } => {
                ActionView::CheckBackendHealth { backend_index: *backend_index }
            },
            PostAuthAction::Finish(execution) => ActionView::Finish(execution@),
        }
    }
}

/// What a request's admission goes by: the backend chosen when it arrived, the one chosen since,
/// where one was, and the wait that a shed client is told.
#[derive(Debug, Clone, Copy, PartialEq, Eq, Structural)]
pub struct PostAuthContext {
    pub pending_backend_index: usize,
    pub backend_index: Option<usize>,
    pub shed_retry_after_seconds: u32,
}

impl PostAuthContext {
    /// The backend that the request goes to.
    pub open spec fn backend(self) -> usize {
        match self.backend_index {
            Some(index) => index,
            None => self.pending_backend_index,
        }
    }

    fn effective_backend(&self) -> (r: usize)
        ensures
            r == self.backend(),
    {
        match self.backend_index {
            Some(index) => index,
            None => self.pending_backend_index,
        }
    }

    pub open spec fn overload(self, reason: OverloadDecisionReason) -> ActionView {
        ActionView::Finish(
            ExecutionView::Rejected(
                RejectionView::Overloaded(shed(reason, self.shed_retry_after_seconds)),
            ),
        )
    }

    fn shed_for(&self, reason: OverloadDecisionReason) -> (r: PostAuthAction)
        ensures
            r@ == self.overload(reason),
    {
        PostAuthAction::Finish(
            PostAuthAdmissionExecution::Rejected(
                PostAuthAdmissionRejection::Overloaded(
                    overloaded(reason, self.shed_retry_after_seconds),
                ),
            ),
        )
    }
}

/// The upstream has no limiter.
pub open spec fn missing_limiter() -> FailureView {
    FailureView {
        status: StatusCode::ServiceUnavailable,
        body: "upstream admission limiter unavailable\n"@,
        overload_reason: Some(OverloadDecisionReason::UpstreamInflight),
        route_outcome: Some(RouteOutcome::OverloadShed),
        observe_adaptive_overload: true,
    }
}

/// The upstream has no pool of backends.
pub open spec fn missing_pool() -> FailureView {
    FailureView {
        status: StatusCode::InternalServerError,
        body: "missing upstream pool\n"@,
        overload_reason: None,
        route_outcome: None,
        observe_adaptive_overload: false,
    }
}

/// The backend is not healthy any more.
pub open spec fn unhealthy_backend() -> FailureView {
    FailureView {
        status: StatusCode::ServiceUnavailable,
        body: "selected backend no longer healthy\n"@,
        overload_reason: None,
        route_outcome: Some(RouteOutcome::Failure),
        observe_adaptive_overload: false,
    }
}

pub open spec fn failed(failure: FailureView) -> ActionView {
    ActionView::Finish(ExecutionView::Rejected(RejectionView::Failed(failure)))
}

/// The next step of a request's admission.
pub open spec fn post_auth_step(event: PostAuthEvent, context: PostAuthContext) -> ActionView {
    match event {
        PostAuthEvent::Quota(decision) => match post_auth_quota(decision) {
            Some(rejection) => ActionView::Finish(
                ExecutionView::Rejected(RejectionView::Quota(rejection)),
            ),
            None => ActionView::AcquireAdaptivePermit,
        },
        PostAuthEvent::AdaptivePermit { acquired } => if acquired {
            ActionView::EnterRouteQueue
        } else {
            context.overload(OverloadDecisionReason::AdaptiveAdmission)
        },
        PostAuthEvent::RouteQueue(entered) => match entered {
            Ok(_) => ActionView::AcquireGlobalPermit,
            Err(rejection) => context.overload(queue_reason(rejection)),
        },
        PostAuthEvent::GlobalPermit { acquired } => if acquired {
            ActionView::AcquireUpstreamPermit
        } else {
            context.overload(OverloadDecisionReason::GlobalInflight)
        },
        PostAuthEvent::UpstreamPermit(permit) => match permit {
            UpstreamPermit::MissingLimiter => failed(missing_limiter()),
            UpstreamPermit::Exhausted => context.overload(OverloadDecisionReason::UpstreamInflight),
            UpstreamPermit::Acquired => ActionView::FindUpstreamPool,
        },
        PostAuthEvent::UpstreamPool { found } => if found {
            ActionView::CheckBackendHealth { backend_index: context.backend() }
        } else {
            failed(missing_pool())
        },
        PostAuthEvent::BackendHealth { healthy } => if healthy {
            ActionView::Finish(
                ExecutionView::Ready(
                    PostAuthAdmissionReady {
                        backend_index: context.backend(),
                        waited_for_global_permit: false,
                        waited_for_upstream_permit: false,
                    },
                ),
            )
        } else {
            failed(unhealthy_backend())
        },
    }
}

fn fail(
    status: StatusCode,
    body: &'static str,
    overload_reason: Option<OverloadDecisionReason>,
    route_outcome: Option<RouteOutcome>,
    observe_adaptive_overload: bool,
) -> (r: PostAuthAction)
    ensures
        r@ == failed(
            FailureView {
                status,
                body: body@,
                overload_reason,
                route_outcome,
                observe_adaptive_overload,
            },
        ),
{
    PostAuthAction::Finish(
        PostAuthAdmissionExecution::Rejected(
            PostAuthAdmissionRejection::Failed(
                PostAuthAdmissionFailure {
                    status,
                    body,
                    overload_reason,
                    route_outcome,
                    observe_adaptive_overload,
                },
            ),
        ),
    )
}

/// Takes what was learnt and says what to do next. The caller carries out the action, and drops the
/// permits it holds once the request is refused.
pub fn next_post_auth_action(event: PostAuthEvent, context: &PostAuthContext) -> (r: PostAuthAction)
    ensures
        r@ == post_auth_step(event, *context),
{
    match event {
        PostAuthEvent::Quota(decision) => match evaluate_forwarding_post_auth_quota_policy(
            decision,
        ) {
            Some(rejection) => PostAuthAction::Finish(
                PostAuthAdmissionExecution::Rejected(PostAuthAdmissionRejection::Quota(rejection)),
            ),
            None => PostAuthAction::AcquireAdaptivePermit,
        },
        PostAuthEvent::AdaptivePermit { acquired } => if acquired {
            PostAuthAction::EnterRouteQueue
        } else {
            context.shed_for(OverloadDecisionReason::AdaptiveAdmission)
        },
        PostAuthEvent::RouteQueue(entered) => match entered {
            Ok(_) => PostAuthAction::AcquireGlobalPermit,
            Err(rejection) => PostAuthAction::Finish(
                PostAuthAdmissionExecution::Rejected(
                    PostAuthAdmissionRejection::Overloaded(
                        overload_from_route_queue_rejection(
                            rejection,
                            context.shed_retry_after_seconds,
                        ),
                    ),
                ),
            ),
        },
        PostAuthEvent::GlobalPermit { acquired } => if acquired {
            PostAuthAction::AcquireUpstreamPermit
        } else {
            context.shed_for(OverloadDecisionReason::GlobalInflight)
        },
        PostAuthEvent::UpstreamPermit(permit) => match permit {
            UpstreamPermit::MissingLimiter => fail(
                StatusCode::ServiceUnavailable,
                "upstream admission limiter unavailable\n",
                Some(OverloadDecisionReason::UpstreamInflight),
                Some(RouteOutcome::OverloadShed),
                true,
            ),
            UpstreamPermit::Exhausted => context.shed_for(OverloadDecisionReason::UpstreamInflight),
            UpstreamPermit::Acquired => PostAuthAction::FindUpstreamPool,
        },
        PostAuthEvent::UpstreamPool { found } => if found {
            PostAuthAction::CheckBackendHealth { backend_index: context.effective_backend() }
        } else {
            fail(
                StatusCode::InternalServerError,
                "missing upstream pool\n",
                None,
                None,
                false,
            )
        },
        PostAuthEvent::BackendHealth { healthy } => if healthy {
            PostAuthAction::Finish(
                PostAuthAdmissionExecution::Ready(
                    PostAuthAdmissionReady {
                        backend_index: context.effective_backend(),
                        waited_for_global_permit: false,
                        waited_for_upstream_permit: false,
                    },
                ),
            )
        } else {
            fail(
                StatusCode::ServiceUnavailable,
                "selected backend no longer healthy\n",
                None,
                Some(RouteOutcome::Failure),
                false,
            )
        },
    }
}

/// Everything that a request's admission may ask, answered in advance.
#[derive(Debug)]
pub struct PostAuthObservations {
    pub quota: Option<QuotaDecision>,
    pub adaptive_permit: bool,
    pub route_queue: Result<(), RouteQueueRejection>,
    pub global_permit: bool,
    pub upstream_permit: UpstreamPermit,
    pub upstream_pool: bool,
    pub backend_healthy: bool,
}

/// The decision on a request, from all the answers.
pub open spec fn post_auth_execution(
    observed: PostAuthObservations,
    context: PostAuthContext,
) -> ExecutionView {
    let overload = |reason: OverloadDecisionReason|
        ExecutionView::Rejected(
            RejectionView::Overloaded(shed(reason, context.shed_retry_after_seconds)),
        );
    let failure = |failure: FailureView| ExecutionView::Rejected(RejectionView::Failed(failure));
    match post_auth_quota(observed.quota) {
        Some(rejection) => ExecutionView::Rejected(RejectionView::Quota(rejection)),
        None => if !observed.adaptive_permit {
            overload(OverloadDecisionReason::AdaptiveAdmission)
        } else {
            match observed.route_queue {
                Err(rejection) => overload(queue_reason(rejection)),
                Ok(_) => if !observed.global_permit {
                    overload(OverloadDecisionReason::GlobalInflight)
                } else if observed.upstream_permit == UpstreamPermit::MissingLimiter {
                    failure(missing_limiter())
                } else if observed.upstream_permit == UpstreamPermit::Exhausted {
                    overload(OverloadDecisionReason::UpstreamInflight)
                } else if !observed.upstream_pool {
                    failure(missing_pool())
                } else if !observed.backend_healthy {
                    failure(unhealthy_backend())
                } else {
                    ExecutionView::Ready(
                        PostAuthAdmissionReady {
                            backend_index: context.backend(),
                            waited_for_global_permit: false,
                            waited_for_upstream_permit: false,
                        },
                    )
                },
            }
        },
    }
}

/// How far an action is from the end.
pub open spec fn steps_left(action: ActionView) -> nat {
    match action {
        ActionView::AcquireAdaptivePermit => 6,
        ActionView::EnterRouteQueue => 5,
        ActionView::AcquireGlobalPermit => 4,
        ActionView::AcquireUpstreamPermit => 3,
        ActionView::FindUpstreamPool => 2,
        ActionView::CheckBackendHealth { .. } => 1,
        ActionView::Finish(_) => 0,
    }
}

/// Runs a request's admission through all its steps.
pub fn execute_forwarding_post_auth_admission(
    observed: PostAuthObservations,
    context: &PostAuthContext,
) -> (r: PostAuthAdmissionExecution)
    ensures
        r@ == post_auth_execution(observed, *context),
{
    let adaptive_permit = observed.adaptive_permit;
    let route_queue = observed.route_queue;
    let global_permit = observed.global_permit;
    let upstream_permit = observed.upstream_permit;
    let upstream_pool = observed.upstream_pool;
    let backend_healthy = observed.backend_healthy;
    let ghost quota = observed.quota;
    let mut action = next_post_auth_action(PostAuthEvent::Quota(observed.quota), context);
    loop
        invariant
            observed.quota == quota,
            adaptive_permit == observed.adaptive_permit,
            route_queue == observed.route_queue,
            global_permit == observed.global_permit,
            upstream_permit == observed.upstream_permit,
            upstream_pool == observed.upstream_pool,
            backend_healthy == observed.backend_healthy,
            steps_left(action@) >= 1 ==> post_auth_quota(quota) is None,
            steps_left(action@) >= 1 && steps_left(action@) <= 5 ==> adaptive_permit,
            steps_left(action@) >= 1 && steps_left(action@) <= 4 ==> route_queue is Ok,
            steps_left(action@) >= 1 && steps_left(action@) <= 3 ==> global_permit,
            steps_left(action@) >= 1 && steps_left(action@) <= 2 ==> upstream_permit
                == UpstreamPermit::Acquired,
            steps_left(action@) == 1 ==> upstream_pool,
            action@ matches ActionView::Finish(execution) ==> execution == post_auth_execution(
                observed,
                *context,
            ),
        decreases steps_left(action@),
    {
        let event = match action {
            PostAuthAction::Finish(execution) => {
                return execution;
            },
            PostAuthAction::AcquireAdaptivePermit => PostAuthEvent::AdaptivePermit {
                acquired: adaptive_permit,
            },
            PostAuthAction::EnterRouteQueue => PostAuthEvent::RouteQueue(route_queue),
            PostAuthAction::AcquireGlobalPermit => PostAuthEvent::GlobalPermit {
                acquired: global_permit,
            },
            PostAuthAction::AcquireUpstreamPermit => PostAuthEvent::UpstreamPermit(upstream_permit),
            PostAuthAction::FindUpstreamPool => PostAuthEvent::UpstreamPool {
                found: upstream_pool,
            },
            PostAuthAction::CheckBackendHealth { .. } => PostAuthEvent::BackendHealth {
                healthy: backend_healthy,
            },
        };
        action = next_post_auth_action(event, context);
    }
}

} // verus!
