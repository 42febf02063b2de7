//! Reloads of the listeners' certificates.
use crate::control_api::audit::{
    route_target, with_records, AdminAuditAction, AdminAuditEventType, AdminAuditGeneration,
    AdminAuditRecord, AdminAuditResult, OperationView,
};
use crate::control_api::reload::session::{audit_result, ended, AuditSession};
use crate::control_api::route::ControlApiRoute;
use crate::listener::QUICListener;
use crate::status::StatusCode;
use crate::text::same_text;
use vstd::prelude::*;

verus! {

/// A listener's certificates, freshly read.
#[derive(Debug, Clone, Copy, PartialEq, Eq, Structural)]
pub struct ListenerTlsFacts {
    pub loaded_at_unix_ms: u64,
    pub default_cert_not_after_unix_seconds: i64,
}

/// What reading a listener's certificates yielded.
#[derive(Debug)]
pub struct ListenerReload {
    pub listener: String,
    pub built: Result<ListenerTlsFacts, String>,
}

/// A listener whose certificates could not be read.
#[derive(Debug)]
pub struct ListenerFailure {
    pub listener: String,
    pub status: &'static str,
    pub reason: &'static str,
    pub error: String,
}

/// A listener with new certificates.
#[derive(Debug)]
pub struct ListenerReloaded {
    pub listener: String,
    pub status: &'static str,
    pub loaded_at_unix_ms: u64,
    pub generation: u64,
    pub default_cert_not_after_unix_seconds: i64,
}

/// The answer to a reload of certificates.
#[derive(Debug)]
pub enum CertReloadResponse {
    /// Some certificates could not be read, and none was replaced.
    Invalid { failures: Vec<ListenerFailure> },
    /// The certificates could not be put into place.
    NotReplaced { error: String },
    Applied { listeners: Vec<ListenerReloaded> },
}

impl CertReloadResponse {
    pub open spec fn succeeded(self) -> bool {
        self is Applied
    }

    pub open spec fn status_code(self) -> StatusCode {
        if self.succeeded() {
            StatusCode::Accepted
        } else {
            StatusCode::InternalServerError
        }
    }

    pub fn status(&self) -> (r: StatusCode)
        ensures
            r == self.status_code(),
    {
        match self {
            CertReloadResponse::Applied { .. } => StatusCode::Accepted,
            _ => StatusCode::InternalServerError,
        }
    }

    pub open spec fn reason_text(self) -> Seq<char> {
        if self.succeeded() {
            "cert_reload_applied"@
        } else {
            "cert_reload_failed"@
        }
    }

    pub fn reason(&self) -> (r: &'static str)
        ensures
            r@ == self.reason_text(),
    {
        match self {
            CertReloadResponse::Applied { .. } => "cert_reload_applied",
            _ => "cert_reload_failed",
        }
    }

    pub fn reloaded(&self) -> (r: bool)
        ensures
            r == self.succeeded(),
    {
        match self {
            CertReloadResponse::Applied { .. } => true,
            _ => false,
        }
    }
}

/// Every listener's certificates could be read.
pub open spec fn all_built(listeners: Seq<ListenerReload>) -> bool {
    forall|i: int| 0 <= i < listeners.len() ==> (#[trigger] listeners[i]).built is Ok
}

/// The listeners whose certificates could not be read.
pub open spec fn failed_listeners(listeners: Seq<ListenerReload>) -> Seq<(Seq<char>, Seq<char>)>
    decreases listeners.len(),
{
    if listeners.len() == 0 {
        Seq::empty()
    } else {
        let sofar = failed_listeners(listeners.drop_last());
        match listeners.last().built {
            Err(error) => sofar.push((listeners.last().listener@, error@)),
            Ok(_) => sofar,
        }
    }
}

/// What failures say, one for one.
pub open spec fn failure_views(failures: Seq<ListenerFailure>) -> Seq<(Seq<char>, Seq<char>)> {
    failures.map_values(|failure: ListenerFailure| (failure.listener@, failure.error@))
}

/// Failures are reported as such.
pub open spec fn reported_failed(failures: Seq<ListenerFailure>) -> bool {
    forall|i: int|
        0 <= i < failures.len() ==> (#[trigger] failures[i]).status@ == "failed"@
            && failures[i].reason@ == "listener_tls_invalid"@
}

/// The generation of a listener's certificates, zero where none is given.
pub open spec fn generation_of(generations: Seq<(String, u64)>, listener: Seq<char>) -> u64
    decreases generations.len(),
{
    if generations.len() == 0 {
        0
    } else if generations[0].0@ == listener {
        generations[0].1
    } else {
        generation_of(generations.drop_first(), listener)
    }
}

fn find_generation(generations: &Vec<(String, u64)>, listener: &str) -> (r: u64)
    ensures
        r == generation_of(generations@, listener@),
{
    let mut i: usize = 0;
    assert(generations@.skip(0) =~= generations@);
    while i < generations.len()
        invariant
            i <= generations.len(),
            generation_of(generations@, listener@) == generation_of(
                generations@.skip(i as int),
                listener@,
            ),
        decreases generations.len() - i,
    {
        assert(generations@.skip(i as int)[0] == generations@[i as int]);
        if same_text(generations[i].0.as_str(), listener) {
            return generations[i].1;
        }
        assert(generations@.skip(i as int).drop_first() =~= generations@.skip(i + 1));
        i = i + 1;
    }
    0
}

/// A reloaded listener is reported with its certificates and their generation.
pub open spec fn reported_reloaded(
    report: ListenerReloaded,
    listener: ListenerReload,
    generations: Seq<(String, u64)>,
) -> bool {
    &&& report.listener@ == listener.listener@
    &&& report.status@ == "cert_reload_applied"@
    &&& listener.built matches Ok(facts) && report.loaded_at_unix_ms == facts.loaded_at_unix_ms
        && report.default_cert_not_after_unix_seconds == facts.default_cert_not_after_unix_seconds
    &&& report.generation == generation_of(generations, listener.listener@)
}

/// The latest load among the listeners, zero where there is none.
pub open spec fn last_loaded(listeners: Seq<ListenerReload>) -> u64
    decreases listeners.len(),
{
    if listeners.len() == 0 {
        0
    } else {
        let sofar = last_loaded(listeners.drop_last());
        match listeners.last().built {
            Ok(facts) => if facts.loaded_at_unix_ms > sofar {
                facts.loaded_at_unix_ms
            } else {
                sofar
            },
            Err(_) => sofar,
        }
    }
}

impl QUICListener {
    /// Looks through what was read: where anything could not be, nothing is replaced.
    pub fn stage_listener_certs(listeners: &Vec<ListenerReload>) -> (r: Option<CertReloadResponse>)
        ensures
            r is None <==> all_built(listeners@),
            r matches Some(response) ==> response matches CertReloadResponse::Invalid { failures } && failure_views(failures@) == failed_listeners(listeners@) && reported_failed(
                failures@,
            ),
    {
        let mut failures: Vec<ListenerFailure> = Vec::new();
        let mut i: usize = 0;
        assert(failure_views(failures@) =~= failed_listeners(listeners@.take(0)));
        while i < listeners.len()
            invariant
                i <= listeners.len(),
                failure_views(failures@) == failed_listeners(listeners@.take(i as int)),
                reported_failed(failures@),
                failures@.len() == 0 <==> all_built(listeners@.take(i as int)),
            decreases listeners.len() - i,
        {
            assert(listeners@.take(i + 1).drop_last() =~= listeners@.take(i as int));
            let ghost before = failures@;
            let ghost next = listeners@.take(i + 1);
            if let Err(error) = &listeners[i].built {
                let failure = ListenerFailure {
                    listener: listeners[i].listener.clone(),
                    status: "failed",
                    reason: "listener_tls_invalid",
                    error: error.clone(),
                };
                failures.push(failure);
                assert(failure_views(failures@) =~= failure_views(before).push(
                    (failure.listener@, failure.error@),
                ));
                assert(!(next[i as int].built is Ok));
            } else {
                assert(all_built(next) == all_built(listeners@.take(i as int))) by {
                    if all_built(next) {
                        assert forall|k: int| 0 <= k < i implies (
                        #[trigger] listeners@.take(i as int)[k]).built is Ok by {
                            assert(next[k].built is Ok);
                        }
                    }
                    if all_built(listeners@.take(i as int)) {
                        assert forall|k: int| 0 <= k < i + 1 implies (
                        #[trigger] next[k]).built is Ok by {
                            if k < i {
                                assert(listeners@.take(i as int)[k].built is Ok);
                            }
                        }
                    }
                }
            }
            i = i + 1;
        }
        assert(listeners@.take(i as int) =~= listeners@);
        if failures.len() == 0 {
            None
        } else {
            Some(CertReloadResponse::Invalid { failures })
        }
    }

    /// Ends a reload of certificates with what replacing them yielded: each listener's generation,
    /// or an error.
    pub fn reload_listener_certs(
        listeners: &Vec<ListenerReload>,
        replaced: Result<Vec<(String, u64)>, String>,
    ) -> (r: CertReloadResponse)
        requires
            all_built(listeners@),
        ensures
            match (replaced, r) {
                (Err(error), CertReloadResponse::NotReplaced { error: answer }) => answer == error,
                (Ok(generations), CertReloadResponse::Applied { listeners: reports }) => {
                    &&& reports@.len() == listeners@.len()
                    &&& forall|i: int|
                        0 <= i < reports@.len() ==> reported_reloaded(
                            #[trigger] reports@[i],
                            listeners@[i],
                            generations@,
                        )
                },
                _ => false,
            },
    {
        let generations = match replaced {
            Ok(generations) => generations,
            Err(error) => {
                return CertReloadResponse::NotReplaced { error };
            },
        };
        let mut reports: Vec<ListenerReloaded> = Vec::new();
        let mut i: usize = 0;
        while i < listeners.len()
            invariant
                i <= listeners.len(),
                all_built(listeners@),
                reports@.len() == i,
                forall|k: int|
                    0 <= k < i ==> reported_reloaded(
                        #[trigger] reports@[k],
                        listeners@[k],
                        generations@,
                    ),
            decreases listeners.len() - i,
        {
            assert(listeners@[i as int].built is Ok);
            if let Ok(facts) = &listeners[i].built {
                reports.push(
                    ListenerReloaded {
                        listener: listeners[i].listener.clone(),
                        status: "cert_reload_applied",
                        loaded_at_unix_ms: facts.loaded_at_unix_ms,
                        generation: find_generation(&generations, listeners[i].listener.as_str()),
                        default_cert_not_after_unix_seconds: facts.default_cert_not_after_unix_seconds,
                    },
                );
            }
            i = i + 1;
        }
        CertReloadResponse::Applied { listeners: reports }
    }

    /// When the listeners' certificates were loaded last, in seconds; nothing where none was.
    pub fn last_cert_load_unix_seconds(listeners: &Vec<ListenerReload>) -> (r: Option<u64>)
        ensures
            r == if last_loaded(listeners@) > 0 {
                Some((last_loaded(listeners@) / 1000) as u64)
            } else {
                None
            },
    {
        let mut last: u64 = 0;
        let mut i: usize = 0;
        while i < listeners.len()
            invariant
                i <= listeners.len(),
                last == last_loaded(listeners@.take(i as int)),
            decreases listeners.len() - i,
        {
            assert(listeners@.take(i + 1).drop_last() =~= listeners@.take(i as int));
            if let Ok(facts) = &listeners[i].built {
                if facts.loaded_at_unix_ms > last {
                    last = facts.loaded_at_unix_ms;
                }
            }
            i = i + 1;
        }
        assert(listeners@.take(i as int) =~= listeners@);
        if last > 0 {
            Some(last / 1000)
        } else {
            None
        }
    }

    /// Records that a reload of certificates was asked for.
    pub fn begin_control_api_reload_certs(
        session: &AuditSession<'_>,
        records: &mut Vec<AdminAuditRecord>,
        active_generation: Option<u64>,
    )
        ensures
            with_records(
                old(records)@,
                final(records)@,
                session.record(
                    OperationView {
                        event_type: AdminAuditEventType::CertReload,
                        action: AdminAuditAction::CertReloadAttempt,
                        target: route_target(ControlApiRoute::ReloadCerts, None),
                        generation: AdminAuditGeneration::running(active_generation),
                        result: AdminAuditResult::Success,
                        reason: Some("requested"@),
                    },
                ),
            ),
    {
        session.emit(
            records,
            AdminAuditEventType::CertReload,
            AdminAuditAction::CertReloadAttempt,
            Self::control_api_audit_target_for_route(ControlApiRoute::ReloadCerts, None),
            AdminAuditGeneration::active(active_generation),
            AdminAuditResult::Success,
            Some("requested"),
        );
    }

    /// Records how a reload of certificates ended.
    pub fn handle_control_api_reload_certs(
        session: &AuditSession<'_>,
        records: &mut Vec<AdminAuditRecord>,
        active_generation: Option<u64>,
        response: &CertReloadResponse,
    )
        ensures
            with_records(
                old(records)@,
                final(records)@,
                session.record(
                    OperationView {
                        event_type: AdminAuditEventType::CertReload,
                        action: if response.succeeded() {
                            AdminAuditAction::CertReloadApplied
                        } else {
                            AdminAuditAction::CertReloadResult
                        },
                        target: route_target(ControlApiRoute::ReloadCerts, None),
                        generation: AdminAuditGeneration::running(active_generation),
                        result: ended(response.succeeded()),
                        reason: Some(response.reason_text()),
                    },
                ),
            ),
    {
        let succeeded = response.reloaded();
        session.emit(
            records,
            AdminAuditEventType::CertReload,
            if succeeded {
                AdminAuditAction::CertReloadApplied
            } else {
                AdminAuditAction::CertReloadResult
            },
            Self::control_api_audit_target_for_route(ControlApiRoute::ReloadCerts, None),
            AdminAuditGeneration::active(active_generation),
            audit_result(succeeded),
            Some(response.reason()),
        );
    }
}

} // verus!
