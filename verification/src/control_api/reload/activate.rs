//! Activations and reloads.
use crate::control_api::audit::{
    record_views, route_target, with_records, AdminAuditAction, AdminAuditEventType,
    AdminAuditGeneration, AdminAuditRecord, AdminAuditResult, OperationView, RecordView,
};
use crate::control_api::reload::body::ControlApiBodyError;
use crate::control_api::reload::generation::{
    activation_error, activation_result_status, activation_status, any_secret_changed,
    legacy_reload_result_status, refusal_text, reload_status, secrets_changed, ActivationRequest,
    ActivationResult, GenerationStatus,
};
use crate::control_api::reload::session::{audit_result, ended, AuditSession};
use crate::control_api::route::ControlApiRoute;
use crate::listener::QUICListener;
use crate::status::StatusCode;
use crate::text::{
    as_deref, contains, contains_text, opt, opt_str, owned, rsplit_once, trim, trimmed,
};
use vstd::prelude::*;

verus! {

/// What a request to plan or activate a generation asks for.
#[derive(Debug)]
pub struct ControlApiRuntimePlanRequest {
    pub config_path: Option<String>,
    pub requested_by: Option<String>,
    pub reason: Option<String>,
    pub expected_generation: Option<u64>,
}

/// The running generation, as far as operations go by it.
#[derive(Debug)]
pub struct RunningGeneration {
    pub generation: u64,
    pub config_path: String,
    pub log_level: String,
}

/// The generations that an authorization was given under.
#[derive(Debug, Clone, Copy, PartialEq, Eq, Structural)]
pub struct ControlApiAuthorizationGeneration {
    pub runtime: u64,
    pub listener_tls: u64,
}

/// An authorization still counts: it was given, under the generations that are current.
pub open spec fn authorization_current(
    given: Option<ControlApiAuthorizationGeneration>,
    current: ControlApiAuthorizationGeneration,
) -> bool {
    given == Some(current)
}

pub fn is_authorization_current(
    given: Option<ControlApiAuthorizationGeneration>,
    current: ControlApiAuthorizationGeneration,
) -> (r: bool)
    ensures
        r == authorization_current(given, current),
{
    match given {
        Some(given) => given.runtime == current.runtime && given.listener_tls
            == current.listener_tls,
        None => false,
    }
}

/// A request's setting, or else the default.
pub open spec fn or_default(given: Option<Seq<char>>, default: Seq<char>) -> Option<Seq<char>> {
    if given is Some {
        given
    } else {
        Some(default)
    }
}

pub struct RequestView {
    pub requested_by: Option<Seq<char>>,
    pub trigger_source: Option<Seq<char>>,
    pub reason: Option<Seq<char>>,
    pub expected_generation: Option<u64>,
    pub requested_at_ms: u64,
}

impl View for ActivationRequest {
    type V = RequestView;

    open spec fn view(&self) -> RequestView {
        RequestView {
            requested_by: opt(self.requested_by),
            trigger_source: opt(self.trigger_source),
            reason: opt(self.reason),
            expected_generation: self.expected_generation,
            requested_at_ms: self.requested_at_ms,
        }
    }
}

/// The request to the runtime that a plan stands for: what it leaves open is filled in, and the
/// generation it expects is the running one.
pub open spec fn runtime_request(
    plan: ControlApiRuntimePlanRequest,
    current_generation: u64,
    default_reason: Seq<char>,
    now_ms: u64,
) -> RequestView {
    RequestView {
        requested_by: or_default(opt(plan.requested_by), "control_api"@),
        trigger_source: Some("control_api"@),
        reason: or_default(opt(plan.reason), default_reason),
        expected_generation: if plan.expected_generation is Some {
            plan.expected_generation
        } else {
            Some(current_generation)
        },
        requested_at_ms: now_ms,
    }
}

/// The configuration file that a plan is about: its own, or else the running one's.
pub open spec fn plan_path(plan: ControlApiRuntimePlanRequest, running: Seq<char>) -> Seq<char> {
    match plan.config_path {
        Some(path) => path@,
        None => running,
    }
}

fn text_or(given: &Option<String>, default: &str) -> (r: Option<String>)
    ensures
        opt(r) == or_default(opt(*given), default@),
{
    match given {
        Some(text) => Some(text.clone()),
        None => Some(owned(default)),
    }
}

/// The kind of an operation that changes the running generation.
#[derive(Debug, Clone, Copy, PartialEq, Eq, Structural)]
pub enum ActivationKind {
    Activate,
    Reload,
}

impl ActivationKind {
    pub open spec fn route(self) -> ControlApiRoute {
        match self {
            ActivationKind::Activate => ControlApiRoute::RuntimeActivate,
            ActivationKind::Reload => ControlApiRoute::ReloadRuntime,
        }
    }

    pub open spec fn event(self) -> AdminAuditEventType {
        match self {
            ActivationKind::Activate => AdminAuditEventType::RuntimeActivate,
            ActivationKind::Reload => AdminAuditEventType::RuntimeReload,
        }
    }

    pub open spec fn attempt(self) -> AdminAuditAction {
        match self {
            ActivationKind::Activate => AdminAuditAction::RuntimeActivateAttempt,
            ActivationKind::Reload => AdminAuditAction::RuntimeReloadAttempt,
        }
    }

    pub open spec fn result(self) -> AdminAuditAction {
        match self {
            ActivationKind::Activate => AdminAuditAction::RuntimeActivateResult,
            ActivationKind::Reload => AdminAuditAction::RuntimeReloadResult,
        }
    }

    pub open spec fn default_reason(self) -> Seq<char> {
        match self {
            ActivationKind::Activate => "runtime_activate"@,
            ActivationKind::Reload => "runtime_reload"@,
        }
    }

    fn route_of(self) -> (r: ControlApiRoute)
        ensures
            r == self.route(),
    {
        match self {
            ActivationKind::Activate => ControlApiRoute::RuntimeActivate,
            ActivationKind::Reload => ControlApiRoute::ReloadRuntime,
        }
    }

    fn event_of(self) -> (r: AdminAuditEventType)
        ensures
            r == self.event(),
    {
        match self {
            ActivationKind::Activate => AdminAuditEventType::RuntimeActivate,
            ActivationKind::Reload => AdminAuditEventType::RuntimeReload,
        }
    }

    fn attempt_of(self) -> (r: AdminAuditAction)
        ensures
            r == self.attempt(),
    {
        match self {
            ActivationKind::Activate => AdminAuditAction::RuntimeActivateAttempt,
            ActivationKind::Reload => AdminAuditAction::RuntimeReloadAttempt,
        }
    }

    fn result_of(self) -> (r: AdminAuditAction)
        ensures
            r == self.result(),
    {
        match self {
            ActivationKind::Activate => AdminAuditAction::RuntimeActivateResult,
            ActivationKind::Reload => AdminAuditAction::RuntimeReloadResult,
        }
    }

    fn reason_of(self) -> (r: &'static str)
        ensures
            r@ == self.default_reason(),
    {
        match self {
            ActivationKind::Activate => "runtime_activate",
            ActivationKind::Reload => "runtime_reload",
        }
    }
}

/// Why an activation ends before, or beside, what the runtime says of it.
#[derive(Debug)]
pub enum ActivationObstacle {
    /// The body is unusable.
    Body(ControlApiBodyError),
    /// The authorization was given under other generations than the current ones.
    StaleAuthorization,
    /// There is no runtime to act on: the route is answered as unknown.
    NoRuntime,
    /// The runtime has no generation.
    NoGeneration,
    /// The runtime reports success and names no generation.
    NoActivatedGeneration,
}

impl ActivationObstacle {
    pub open spec fn status_code(self) -> Option<StatusCode> {
        match self {
            ActivationObstacle::Body(error) => Some(error.status),
            ActivationObstacle::StaleAuthorization => None,
            ActivationObstacle::NoRuntime => Some(StatusCode::NotFound),
            ActivationObstacle::NoGeneration => Some(StatusCode::InternalServerError),
            ActivationObstacle::NoActivatedGeneration => Some(StatusCode::InternalServerError),
        }
    }

    /// The status of the answer; a stale authorization closes the connection instead.
    pub fn status(&self) -> (r: Option<StatusCode>)
        ensures
            r == self.status_code(),
    {
        match self {
            ActivationObstacle::Body(error) => Some(error.status),
            ActivationObstacle::StaleAuthorization => None,
            ActivationObstacle::NoRuntime => Some(StatusCode::NotFound),
            ActivationObstacle::NoGeneration => Some(StatusCode::InternalServerError),
            ActivationObstacle::NoActivatedGeneration => Some(StatusCode::InternalServerError),
        }
    }

    pub open spec fn error_text(self) -> Option<Seq<char>> {
        match self {
            ActivationObstacle::Body(error) => Some(error.error@),
            ActivationObstacle::NoGeneration => Some("runtime generation unavailable"@),
            ActivationObstacle::NoActivatedGeneration => Some(
                "activation succeeded without an activated generation"@,
            ),
            _ => None,
        }
    }

    /// The error that the answer names.
    pub fn error(&self) -> (r: Option<&str>)
        ensures
            opt_str(r) == self.error_text(),
    {
        match self {
            ActivationObstacle::Body(error) => Some(error.error.as_str()),
            ActivationObstacle::NoGeneration => Some("runtime generation unavailable"),
            ActivationObstacle::NoActivatedGeneration => Some(
                "activation succeeded without an activated generation",
            ),
            _ => None,
        }
    }
}

/// An activation that the runtime is to carry out.
#[derive(Debug)]
pub struct ActivationAttempt {
    pub request: ActivationRequest,
    pub config_path: String,
    pub log_level: String,
}

/// What the runtime offers when an operation begins.
pub struct RuntimeAccess<'a> {
    pub available: bool,
    pub running: Option<&'a RunningGeneration>,
}

/// The record of an attempt.
pub open spec fn attempt_operation(
    kind: ActivationKind,
    plan: ControlApiRuntimePlanRequest,
    running: RunningGeneration,
) -> OperationView {
    OperationView {
        event_type: kind.event(),
        action: kind.attempt(),
        target: route_target(kind.route(), Some(plan_path(plan, running.config_path@))),
        generation: AdminAuditGeneration::running(Some(running.generation)),
        result: AdminAuditResult::Success,
        reason: or_default(opt(plan.reason), kind.default_reason()),
    }
}

/// The record of a request whose body is unusable.
pub open spec fn bad_body_operation(
    kind: ActivationKind,
    active_generation: Option<u64>,
) -> OperationView {
    OperationView {
        event_type: kind.event(),
        action: kind.result(),
        target: route_target(kind.route(), None),
        generation: AdminAuditGeneration::running(active_generation),
        result: AdminAuditResult::Failed,
        reason: Some("invalid_request_body"@),
    }
}

/// What became of secret material of the upstreams.
#[derive(Debug, Clone, Copy, PartialEq, Eq, Structural)]
pub enum UpstreamMtlsMaterialOutcome {
    Changed,
    ResolutionFailed,
    Invalid,
}

impl UpstreamMtlsMaterialOutcome {
    pub open spec fn label(self) -> Seq<char> {
        match self {
            UpstreamMtlsMaterialOutcome::Changed => "upstream_mtls_material_changed"@,
            UpstreamMtlsMaterialOutcome::ResolutionFailed => "secret_resolution_failed"@,
            UpstreamMtlsMaterialOutcome::Invalid => "upstream_mtls_material_invalid"@,
        }
    }

    pub fn slug(&self) -> (r: &'static str)
        ensures
            r@ == self.label(),
    {
        match self {
            UpstreamMtlsMaterialOutcome::Changed => "upstream_mtls_material_changed",
            UpstreamMtlsMaterialOutcome::ResolutionFailed => "secret_resolution_failed",
            UpstreamMtlsMaterialOutcome::Invalid => "upstream_mtls_material_invalid",
        }
    }

    pub open spec fn action(self) -> AdminAuditAction {
        match self {
            UpstreamMtlsMaterialOutcome::Changed => AdminAuditAction::UpstreamMtlsMaterialChanged,
            UpstreamMtlsMaterialOutcome::ResolutionFailed => {
                AdminAuditAction::SecretResolutionFailed
            },
            UpstreamMtlsMaterialOutcome::Invalid => AdminAuditAction::UpstreamMtlsMaterialInvalid,
        }
    }

    pub fn audit_action(&self) -> (r: AdminAuditAction)
        ensures
            r == self.action(),
    {
        match self {
            UpstreamMtlsMaterialOutcome::Changed => AdminAuditAction::UpstreamMtlsMaterialChanged,
            UpstreamMtlsMaterialOutcome::ResolutionFailed => {
                AdminAuditAction::SecretResolutionFailed
            },
            UpstreamMtlsMaterialOutcome::Invalid => AdminAuditAction::UpstreamMtlsMaterialInvalid,
        }
    }
}

/// What an activation did with secret material: a success may have changed some, a failure may be
/// due to some, as its message tells.
pub open spec fn material_outcome(activation: ActivationResult) -> Option<
    UpstreamMtlsMaterialOutcome,
> {
    let error = refusal_text(activation.rejected_changes@, activation.history_entry.summary@);
    if activation.verdict.succeeded {
        if secrets_changed(activation.history_entry.diff.entries@) {
            Some(UpstreamMtlsMaterialOutcome::Changed)
        } else {
            None
        }
    } else if contains_text(error, "secret_resolution_failed"@) || contains_text(
        error,
        "secret resolution failed"@,
    ) {
        Some(UpstreamMtlsMaterialOutcome::ResolutionFailed)
    } else if contains_text(error, "tls_material_invalid"@) || contains_text(
        error,
        "client_certificate"@,
    ) || contains_text(error, "client_key"@) {
        Some(UpstreamMtlsMaterialOutcome::Invalid)
    } else {
        None
    }
}

pub fn classify_upstream_mtls_material_outcome(activation: &ActivationResult) -> (r: Option<
    UpstreamMtlsMaterialOutcome,
>)
    ensures
        r == material_outcome(*activation),
{
    if activation.verdict.succeeded {
        return if any_secret_changed(&activation.history_entry.diff.entries) {
            Some(UpstreamMtlsMaterialOutcome::Changed)
        } else {
            None
        };
    }
    let error = activation_error(activation);
    if contains(error, "secret_resolution_failed") || contains(error, "secret resolution failed") {
        return Some(UpstreamMtlsMaterialOutcome::ResolutionFailed);
    }
    if contains(error, "tls_material_invalid") || contains(error, "client_certificate") || contains(
        error,
        "client_key",
    ) {
        return Some(UpstreamMtlsMaterialOutcome::Invalid);
    }
    None
}

/// Which provider of secrets failed, as a message tells.
pub open spec fn failed_provider(error: Seq<char>) -> Seq<char> {
    if contains_text(error, "file secret resolution failed"@) {
        "file"@
    } else if contains_text(error, "literal secret resolution failed"@) {
        "literal"@
    } else {
        "unknown"@
    }
}

/// A message names this reason: it is what follows the last colon, and not empty.
pub open spec fn names_reason(error: Seq<char>, reason: Seq<char>) -> bool {
    reason.len() > 0 && exists|head: Seq<char>, tail: Seq<char>|
        #![trigger head.push(':') + tail]
        error == head.push(':') + tail && !tail.contains(':') && reason == trimmed(tail)
}

/// The reason that follows the last colon is unique.
proof fn lemma_reason_unique(a: Seq<char>, b: Seq<char>, c: Seq<char>, d: Seq<char>)
    requires
        a.push(':') + b == c.push(':') + d,
        !b.contains(':'),
        !d.contains(':'),
    ensures
        b == d,
{
    let s = a.push(':') + b;
    let t = c.push(':') + d;
    assert(s.len() == a.len() + 1 + b.len());
    assert(t.len() == c.len() + 1 + d.len());
    assert(s[a.len() as int] == ':');
    assert(t[c.len() as int] == ':');
    if a.len() < c.len() {
        assert(s[c.len() as int] == b[c.len() - a.len() - 1]);
        assert(b[c.len() - a.len() - 1] == ':');
    } else if c.len() < a.len() {
        assert(t[a.len() as int] == d[a.len() - c.len() - 1]);
        assert(d[a.len() - c.len() - 1] == ':');
    } else {
        assert(b =~= s.skip(a.len() as int + 1));
        assert(d =~= t.skip(a.len() as int + 1));
    }
}

/// The provider and the reason of a failed secret resolution, where a message tells of one.
pub fn classify_secret_resolution_failure(error: &str) -> (r: Option<(&'static str, &str)>)
    ensures
        match r {
            Some((provider, reason)) => contains_text(error@, "secret resolution failed"@)
                && provider@ == failed_provider(error@) && names_reason(error@, reason@),
            None => !contains_text(error@, "secret resolution failed"@) || forall|
                reason: Seq<char>,
            | !names_reason(error@, reason),
        },
{
    if !contains(error, "secret resolution failed") {
        return None;
    }
    let provider = if contains(error, "file secret resolution failed") {
        "file"
    } else if contains(error, "literal secret resolution failed") {
        "literal"
    } else {
        "unknown"
    };
    match rsplit_once(error, ':') {
        None => {
            assert forall|reason: Seq<char>| !names_reason(error@, reason) by {
                if names_reason(error@, reason) {
                    let (head, tail) = choose|head: Seq<char>, tail: Seq<char>|
                        #![trigger head.push(':') + tail]
                        error@ == head.push(':') + tail && !tail.contains(':') && reason
                            == trimmed(tail);
                    assert(error@[head.len() as int] == ':');
                }
            }
            None
        },
        Some((head, tail)) => {
            let reason = trim(tail);
            if reason.is_empty() {
                assert forall|other: Seq<char>| !names_reason(error@, other) by {
                    if names_reason(error@, other) {
                        let (a, b) = choose|a: Seq<char>, b: Seq<char>|
                            #![trigger a.push(':') + b]
                            error@ == a.push(':') + b && !b.contains(':') && other == trimmed(b);
                        lemma_reason_unique(a, b, head@, tail@);
                    }
                }
                return None;
            }
            assert(names_reason(error@, reason@)) by {
                assert(error@ == head@.push(':') + tail@);
            }
            Some((provider, reason))
        },
    }
}

/// What is recorded of secret material.
pub fn upstream_mtls_material_audit_event(activation: &ActivationResult) -> (r: Option<
    (AdminAuditAction, AdminAuditResult, &'static str),
>)
    ensures
        match (r, material_outcome(*activation)) {
            (Some((action, result, reason)), Some(outcome)) => action == outcome.action() && result
                == ended(activation.verdict.succeeded) && reason@ == outcome.label(),
            (None, None) => true,
            _ => false,
        },
{
    match classify_upstream_mtls_material_outcome(activation) {
        None => None,
        Some(outcome) => Some(
            (
                outcome.audit_action(),
                audit_result(activation.verdict.succeeded),
                outcome.slug(),
            ),
        ),
    }
}

/// The reason that an activation's end is recorded under.
pub open spec fn activation_reason(activation: ActivationResult) -> Seq<char> {
    match material_outcome(activation) {
        Some(outcome) => outcome.label(),
        None => match activation.verdict.primary_rejection {
            Some(reason) => reason@,
            None => activation.verdict.outcome@,
        },
    }
}

pub fn control_api_activation_reason(activation: &ActivationResult) -> (r: String)
    ensures
        r@ == activation_reason(*activation),
{
    if let Some(outcome) = classify_upstream_mtls_material_outcome(activation) {
        return owned(outcome.slug());
    }
    match &activation.verdict.primary_rejection {
        Some(reason) => reason.clone(),
        None => activation.verdict.outcome.clone(),
    }
}

/// The generations that an activation's end is recorded with.
pub open spec fn outcome_generations(activation: ActivationResult) -> AdminAuditGeneration {
    AdminAuditGeneration {
        active_generation: Some(activation.active_generation),
        candidate_generation: Some(activation.history_entry.generation),
        target_generation: activation.activated_generation,
    }
}

/// The record of an activation's end.
pub open spec fn result_operation(
    kind: ActivationKind,
    config_path: Seq<char>,
    activation: ActivationResult,
) -> OperationView {
    OperationView {
        event_type: kind.event(),
        action: kind.result(),
        target: route_target(kind.route(), Some(config_path)),
        generation: outcome_generations(activation),
        result: ended(activation.verdict.succeeded),
        reason: Some(activation_reason(activation)),
    }
}

/// What is recorded of an activation's end: how it ended, and what became of secret material.
pub open spec fn outcome_records(
    session: AuditSession,
    kind: ActivationKind,
    config_path: Seq<char>,
    activation: ActivationResult,
) -> Seq<RecordView> {
    session.record(result_operation(kind, config_path, activation))
        + match material_outcome(activation) {
        None => Seq::empty(),
        Some(outcome) => session.record(
            OperationView {
                event_type: AdminAuditEventType::UpstreamMtlsMaterial,
                action: outcome.action(),
                target: route_target(kind.route(), Some(config_path)),
                generation: outcome_generations(activation),
                result: ended(activation.verdict.succeeded),
                reason: Some(outcome.label()),
            },
        ),
    }
}

/// The end of an activation.
#[derive(Debug)]
pub enum ActivationOutcome {
    /// The generation runs.
    Activated { activation: ActivationResult },
    Refused { activation: ActivationResult },
    Obstacle(ActivationObstacle),
}

/// What is counted of secret material.
#[derive(Debug)]
pub struct SecretObservation {
    pub reload_result: Option<&'static str>,
    pub reload_reason: String,
    pub last_success_unix_seconds: Option<u64>,
    pub failed_resolution: Option<(&'static str, String)>,
}

/// The latest of some points in time.
pub open spec fn latest(times: Seq<u64>) -> Option<u64>
    decreases times.len(),
{
    if times.len() == 0 {
        None
    } else {
        match latest(times.drop_last()) {
            None => Some(times.last()),
            Some(best) => Some(
                if times.last() >= best {
                    times.last()
                } else {
                    best
                },
            ),
        }
    }
}

fn find_latest(times: &Vec<u64>) -> (r: Option<u64>)
    ensures
        r == latest(times@),
{
    let mut best: Option<u64> = None;
    let mut i: usize = 0;
    while i < times.len()
        invariant
            i <= times.len(),
            best == latest(times@.take(i as int)),
        decreases times.len() - i,
    {
        assert(times@.take(i + 1).drop_last() =~= times@.take(i as int));
        best = match best {
            None => Some(times[i]),
            Some(sofar) => if times[i] >= sofar {
                Some(times[i])
            } else {
                Some(sofar)
            },
        };
        i = i + 1;
    }
    assert(times@.take(i as int) =~= times@);
    best
}

/// What is counted of secret material: a reload where an activation changed some or failed because
/// of some, the time of the latest load, and a failed resolution with its provider and reason.
pub open spec fn observes_secrets(
    observation: SecretObservation,
    loaded_at_unix_ms: Seq<u64>,
    activation: ActivationResult,
) -> bool {
    let error = refusal_text(activation.rejected_changes@, activation.history_entry.summary@);
    let succeeded = activation.verdict.succeeded;
    &&& observation.reload_reason@ == activation_reason(activation)
    &&& match observation.reload_result {
        Some(result) => material_outcome(activation) is Some && result@ == if succeeded {
            "success"@
        } else {
            "failed"@
        },
        None => material_outcome(activation) is None,
    }
    &&& observation.last_success_unix_seconds == match latest(loaded_at_unix_ms) {
        Some(time) if succeeded && material_outcome(activation) is Some => Some(
            (time / 1000) as u64,
        ),
        _ => None,
    }
    &&& match observation.failed_resolution {
        Some((provider, reason)) => !succeeded && contains_text(error, "secret resolution failed"@)
            && provider@ == failed_provider(error) && names_reason(error, reason@),
        None => succeeded || !contains_text(error, "secret resolution failed"@) || forall|
            reason: Seq<char>,
        | !names_reason(error, reason),
    }
}

/// Gathers what is counted of secret material. `loaded_at_unix_ms` are the times at which the
/// upstreams' client certificates and keys were loaded.
pub fn record_control_api_secret_metrics(
    loaded_at_unix_ms: &Vec<u64>,
    activation: &ActivationResult,
) -> (r: SecretObservation)
    ensures
        observes_secrets(r, loaded_at_unix_ms@, *activation),
{
    let reload_reason = control_api_activation_reason(activation);
    let outcome = classify_upstream_mtls_material_outcome(activation);
    if activation.verdict.succeeded {
        if outcome.is_none() {
            return SecretObservation {
                reload_result: None,
                reload_reason,
                last_success_unix_seconds: None,
                failed_resolution: None,
            };
        }
        let last_success_unix_seconds: Option<u64> = match find_latest(loaded_at_unix_ms) {
            Some(time) => Some(time / 1000),
            None => None,
        };
        return SecretObservation {
            reload_result: Some("success"),
            reload_reason,
            last_success_unix_seconds,
            failed_resolution: None,
        };
    }
    let reload_result = match outcome {
        Some(_) => Some("failed"),
        None => None,
    };
    let failed_resolution = match classify_secret_resolution_failure(activation_error(activation)) {
        Some((provider, reason)) => Some((provider, owned(reason))),
        None => None,
    };
    SecretObservation {
        reload_result,
        reload_reason,
        last_success_unix_seconds: None,
        failed_resolution,
    }
}

/// What is counted of an activation's end.
#[derive(Debug)]
pub struct ActivationObservation {
    pub outcome: String,
    pub rejection: Option<String>,
    pub secrets: SecretObservation,
}

impl QUICListener {
    pub fn control_api_activation_request(
        payload: &ControlApiRuntimePlanRequest,
        current_generation: u64,
        default_reason: &str,
        now_ms: u64,
    ) -> (r: ActivationRequest)
        ensures
            r@ == runtime_request(*payload, current_generation, default_reason@, now_ms),
    {
        ActivationRequest {
            requested_by: text_or(&payload.requested_by, "control_api"),
            trigger_source: Some(owned("control_api")),
            reason: text_or(&payload.reason, default_reason),
            expected_generation: match payload.expected_generation {
                Some(generation) => Some(generation),
                None => Some(current_generation),
            },
            requested_at_ms: now_ms,
        }
    }

    pub fn control_api_reload_config_input(
        running: &RunningGeneration,
        payload: &ControlApiRuntimePlanRequest,
    ) -> (r: String)
        ensures
            r@ == plan_path(*payload, running.config_path@),
    {
        match &payload.config_path {
            Some(path) => path.clone(),
            None => running.config_path.clone(),
        }
    }

    /// Takes a request's body and authorization before an activation begins. The body comes first.
    pub fn perform_control_api_runtime_activation(
        session: &AuditSession<'_>,
        records: &mut Vec<AdminAuditRecord>,
        kind: ActivationKind,
        body: Result<ControlApiRuntimePlanRequest, ControlApiBodyError>,
        active_generation: Option<u64>,
        given: Option<ControlApiAuthorizationGeneration>,
        current: ControlApiAuthorizationGeneration,
    ) -> (r: Result<ControlApiRuntimePlanRequest, ActivationObstacle>)
        ensures
            match body {
                Err(error) => r == Err::<ControlApiRuntimePlanRequest, ActivationObstacle>(
                    ActivationObstacle::Body(error),
                ) && with_records(
                    old(records)@,
                    final(records)@,
                    session.record(bad_body_operation(kind, active_generation)),
                ),
                Ok(plan) => final(records)@ == old(records)@ && r == if authorization_current(
                    given,
                    current,
                ) {
                    Ok(plan)
                } else {
                    Err(ActivationObstacle::StaleAuthorization)
                },
            },
    {
        match body {
            Err(error) => {
                session.emit(
                    records,
                    kind.event_of(),
                    kind.result_of(),
                    Self::control_api_audit_target_for_route(kind.route_of(), None),
                    AdminAuditGeneration::active(active_generation),
                    AdminAuditResult::Failed,
                    Some("invalid_request_body"),
                );
                Err(ActivationObstacle::Body(error))
            },
            Ok(plan) => if is_authorization_current(given, current) {
                Ok(plan)
            } else {
                Err(ActivationObstacle::StaleAuthorization)
            },
        }
    }

    /// Begins an activation: what the runtime is asked to do, with the attempt recorded.
    pub fn begin_control_api_runtime_activation(
        session: &AuditSession<'_>,
        records: &mut Vec<AdminAuditRecord>,
        kind: ActivationKind,
        plan: &ControlApiRuntimePlanRequest,
        runtime: &RuntimeAccess<'_>,
        now_ms: u64,
    ) -> (r: Result<ActivationAttempt, ActivationObstacle>)
        ensures
            r matches Err(ActivationObstacle::NoRuntime) <==> !runtime.available,
            r matches Err(ActivationObstacle::NoGeneration) <==> runtime.available
                && runtime.running is None,
            match r {
                Err(obstacle) => (obstacle is NoRuntime || obstacle is NoGeneration)
                    && final(records)@ == old(records)@,
                Ok(attempt) => runtime.running matches Some(running) && {
                    &&& attempt.request@ == runtime_request(
                        *plan,
                        running.generation,
                        kind.default_reason(),
                        now_ms,
                    )
                    &&& attempt.config_path@ == plan_path(*plan, running.config_path@)
                    &&& attempt.log_level@ == running.log_level@
                    &&& with_records(
                        old(records)@,
                        final(records)@,
                        session.record(attempt_operation(kind, *plan, *running)),
                    )
                },
            },
    {
        if !runtime.available {
            return Err(ActivationObstacle::NoRuntime);
        }
        let running = match runtime.running {
            Some(running) => running,
            None => {
                return Err(ActivationObstacle::NoGeneration);
            },
        };
        let request = Self::control_api_activation_request(
            plan,
            running.generation,
            kind.reason_of(),
            now_ms,
        );
        let config_path = Self::control_api_reload_config_input(running, plan);
        session.emit(
            records,
            kind.event_of(),
            kind.attempt_of(),
            Self::control_api_audit_target_for_route(kind.route_of(), Some(config_path.clone())),
            AdminAuditGeneration::active(Some(running.generation)),
            AdminAuditResult::Success,
            as_deref(&request.reason),
        );
        Ok(ActivationAttempt { request, config_path, log_level: running.log_level.clone() })
    }

    /// Ends an activation with what the runtime says of it.
    pub fn perform_control_api_runtime_activation_from_plan_request(
        session: &AuditSession<'_>,
        records: &mut Vec<AdminAuditRecord>,
        kind: ActivationKind,
        config_path: &str,
        activation: ActivationResult,
    ) -> (r: ActivationOutcome)
        ensures
            with_records(
                old(records)@,
                final(records)@,
                outcome_records(*session, kind, config_path@, activation),
            ),
            r == if !activation.verdict.succeeded {
                ActivationOutcome::Refused { activation }
            } else if activation.activated_generation is None {
                ActivationOutcome::Obstacle(ActivationObstacle::NoActivatedGeneration)
            } else {
                ActivationOutcome::Activated { activation }
            },
    {
        let generations = AdminAuditGeneration {
            active_generation: Some(activation.active_generation),
            candidate_generation: Some(activation.history_entry.generation),
            target_generation: activation.activated_generation,
        };
        let reason = control_api_activation_reason(&activation);
        session.emit(
            records,
            kind.event_of(),
            kind.result_of(),
            Self::control_api_audit_target_for_route(kind.route_of(), Some(owned(config_path))),
            generations,
            audit_result(activation.verdict.succeeded),
            Some(reason.as_str()),
        );
        if let Some((action, result, reason)) = upstream_mtls_material_audit_event(&activation) {
            session.emit(
                records,
                AdminAuditEventType::UpstreamMtlsMaterial,
                action,
                Self::control_api_audit_target_for_route(
                    kind.route_of(),
                    Some(owned(config_path)),
                ),
                generations,
                result,
                Some(reason),
            );
        }
        assert(record_views(records@) =~= record_views(old(records)@) + outcome_records(
            *session,
            kind,
            config_path@,
            activation,
        ));
        if !activation.verdict.succeeded {
            return ActivationOutcome::Refused { activation };
        }
        if activation.activated_generation.is_none() {
            return ActivationOutcome::Obstacle(ActivationObstacle::NoActivatedGeneration);
        }
        ActivationOutcome::Activated { activation }
    }

    /// Gathers what is counted of an activation's end.
    pub fn record_control_api_activation_outcome(
        loaded_at_unix_ms: &Vec<u64>,
        activation: &ActivationResult,
    ) -> (r: ActivationObservation)
        ensures
            r.outcome@ == activation.verdict.outcome@,
            opt(r.rejection) == opt(activation.verdict.primary_rejection),
            observes_secrets(r.secrets, loaded_at_unix_ms@, *activation),
    {
        ActivationObservation {
            outcome: activation.verdict.outcome.clone(),
            rejection: activation.verdict.primary_rejection.clone(),
            secrets: record_control_api_secret_metrics(loaded_at_unix_ms, activation),
        }
    }

    /// The live log level changes where the new generation has another one.
    pub fn apply_live_log_level_reload(current_level: &str, next_level: &str) -> (r: bool)
        ensures
            r == (current_level@ != next_level@),
    {
        !crate::text::same_text(current_level, next_level)
    }
}

/// The answer to an activation.
#[derive(Debug)]
pub enum ActivationResponse {
    /// The activation, as the runtime reports it.
    Activated(ActivationResult),
    /// What callers of the older route are told of a new generation.
    Reloaded { generation: u64, candidate_generation: u64, generation_status: GenerationStatus },
    /// A refused activation, with what it is refused for.
    Refused { status: StatusCode, error: String, reason: String, activation: ActivationResult },
    /// A refused reload, with what it is refused for.
    ReloadRefused {
        status: StatusCode,
        error: String,
        reason: String,
        rejection_reason: Option<String>,
        generation: u64,
        candidate_generation: u64,
        generation_status: GenerationStatus,
    },
    Obstacle(ActivationObstacle),
}

impl ActivationResponse {
    pub open spec fn status_code(self) -> Option<StatusCode> {
        match self {
            ActivationResponse::Activated(_) => Some(StatusCode::Accepted),
            ActivationResponse::Reloaded { .. } => Some(StatusCode::Accepted),
            ActivationResponse::Refused { status, .. } => Some(status),
            ActivationResponse::ReloadRefused { status, .. } => Some(status),
            ActivationResponse::Obstacle(obstacle) => obstacle.status_code(),
        }
    }

    /// The status of the answer; a stale authorization closes the connection instead.
    pub fn status(&self) -> (r: Option<StatusCode>)
        ensures
            r == self.status_code(),
    {
        match self {
            ActivationResponse::Activated(_) => Some(StatusCode::Accepted),
            ActivationResponse::Reloaded { .. } => Some(StatusCode::Accepted),
            ActivationResponse::Refused { status, .. } => Some(*status),
            ActivationResponse::ReloadRefused { status, .. } => Some(*status),
            ActivationResponse::Obstacle(obstacle) => obstacle.status(),
        }
    }
}

impl QUICListener {
    pub fn handle_control_api_runtime_activate(outcome: ActivationOutcome) -> (r:
        ActivationResponse)
        ensures
            r.status_code() == match outcome {
                ActivationOutcome::Activated { .. } => Some(StatusCode::Accepted),
                ActivationOutcome::Refused { activation } => Some(
                    activation_status(activation.rejected_changes@, activation.status),
                ),
                ActivationOutcome::Obstacle(obstacle) => obstacle.status_code(),
            },
            match (outcome, r) {
                (
                    ActivationOutcome::Activated { activation },
                    ActivationResponse::Activated(answer),
                ) => answer == activation,
                (
                    ActivationOutcome::Refused { activation },
                    ActivationResponse::Refused { status, error, reason, activation: answer },
                ) => {
                    &&& answer == activation
                    &&& status == activation_status(
                        activation.rejected_changes@,
                        activation.status,
                    )
                    &&& error@ == refusal_text(
                        activation.rejected_changes@,
                        activation.history_entry.summary@,
                    )
                    &&& reason@ == activation_reason(activation)
                },
                (ActivationOutcome::Obstacle(obstacle), ActivationResponse::Obstacle(answer)) => {
                    answer == obstacle
                },
                _ => false,
            },
    {
        match outcome {
            ActivationOutcome::Activated { activation } => ActivationResponse::Activated(
                activation,
            ),
            ActivationOutcome::Refused { activation } => {
                let status = activation_result_status(&activation);
                let error = owned(activation_error(&activation));
                let reason = control_api_activation_reason(&activation);
                ActivationResponse::Refused { status, error, reason, activation }
            },
            ActivationOutcome::Obstacle(obstacle) => ActivationResponse::Obstacle(obstacle),
        }
    }

    pub fn handle_control_api_runtime_reload(outcome: ActivationOutcome) -> (r: ActivationResponse)
        ensures
            r.status_code() == match outcome {
                ActivationOutcome::Activated { activation } => Some(
                    if activation.activated_generation is Some {
                        StatusCode::Accepted
                    } else {
                        StatusCode::InternalServerError
                    },
                ),
                ActivationOutcome::Refused { activation } => Some(
                    reload_status(activation.rejected_changes@, activation.status),
                ),
                ActivationOutcome::Obstacle(obstacle) => obstacle.status_code(),
            },
            match (outcome, r) {
                (
                    ActivationOutcome::Activated { activation },
                    ActivationResponse::Reloaded {
                        generation,
                        candidate_generation,
                        generation_status,
                    },
                ) => activation.activated_generation == Some(generation) && candidate_generation
                    == activation.history_entry.generation && generation_status
                    == activation.status,
                (
                    ActivationOutcome::Activated { activation },
                    ActivationResponse::Obstacle(ActivationObstacle::NoActivatedGeneration),
                ) => activation.activated_generation is None,
                (
                    ActivationOutcome::Refused { activation },
                    ActivationResponse::ReloadRefused {
                        status,
                        error,
                        reason,
                        rejection_reason,
                        generation,
                        candidate_generation,
                        generation_status,
                    },
                ) => {
                    &&& status == reload_status(activation.rejected_changes@, activation.status)
                    &&& error@ == refusal_text(
                        activation.rejected_changes@,
                        activation.history_entry.summary@,
                    )
                    &&& reason@ == activation_reason(activation)
                    &&& opt(rejection_reason) == opt(activation.verdict.primary_rejection)
                    &&& generation == activation.active_generation
                    &&& candidate_generation == activation.history_entry.generation
                    &&& generation_status == activation.status
                },
                (ActivationOutcome::Obstacle(obstacle), ActivationResponse::Obstacle(answer)) => {
                    answer == obstacle
                },
                _ => false,
            },
    {
        match outcome {
            ActivationOutcome::Activated { activation } => match activation.activated_generation {
                Some(generation) => ActivationResponse::Reloaded {
                    generation,
                    candidate_generation: activation.history_entry.generation,
                    generation_status: activation.status,
                },
                None => ActivationResponse::Obstacle(ActivationObstacle::NoActivatedGeneration),
            },
            ActivationOutcome::Refused { activation } => ActivationResponse::ReloadRefused {
                status: legacy_reload_result_status(&activation),
                error: owned(activation_error(&activation)),
                reason: control_api_activation_reason(&activation),
                rejection_reason: activation.verdict.primary_rejection.clone(),
                generation: activation.active_generation,
                candidate_generation: activation.history_entry.generation,
                generation_status: activation.status,
            },
            ActivationOutcome::Obstacle(obstacle) => ActivationResponse::Obstacle(obstacle),
        }
    }
}

} // verus!
