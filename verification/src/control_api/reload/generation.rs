//! Generations of the running configuration, and what was tried on them.
use crate::status::StatusCode;
use vstd::prelude::*;

verus! {

#[derive(Debug, Clone, Copy, PartialEq, Eq, Structural)]
pub enum GenerationStatus {
    Active,
    Superseded,
    Rejected,
    Failed,
}

#[derive(Debug, Clone, Copy, PartialEq, Eq, Structural)]
pub enum GenerationOperation {
    Activate,
    Rollback,
}

#[derive(Debug, Clone, Copy, PartialEq, Eq, Structural)]
pub enum RuntimeRejectionReason {
    UnknownGeneration,
    RollbackNotAllowed,
    Other,
}

#[derive(Debug, Clone, Copy, PartialEq, Eq, Structural)]
pub enum RejectedChangeKind {
    InvalidConfiguration,
    ResourcePreparationFailed,
    RuntimeStateUnavailable,
    IllegalTransition,
    Other,
}

/// A change that was refused.
#[derive(Debug)]
pub struct RejectedChange {
    pub reason: RuntimeRejectionReason,
    pub kind: RejectedChangeKind,
    pub field_path: Option<String>,
    pub current_value: Option<String>,
    pub requested_value: Option<String>,
    pub operator_action: String,
    pub active_generation_changed: bool,
    pub message: String,
}

/// One changed setting of a generation.
#[derive(Debug, Clone, Copy, PartialEq, Eq, Structural)]
pub struct ReloadDiffEntry {
    pub secret_material_changed: bool,
}

#[derive(Debug)]
pub struct ReloadDiff {
    pub entries: Vec<ReloadDiffEntry>,
}

/// A generation in the history. `document` is the whole entry as the runtime writes it.
#[derive(Debug)]
pub struct GenerationHistoryEntry {
    pub generation: u64,
    pub operation: GenerationOperation,
    pub status: GenerationStatus,
    pub config_source: String,
    pub config_version: Option<u32>,
    pub requested_by: Option<String>,
    pub trigger_source: Option<String>,
    pub requested_at_ms: u64,
    pub completed_at_ms: Option<u64>,
    pub summary: String,
    pub diff: ReloadDiff,
    pub rejected_changes: Vec<RejectedChange>,
    pub document: String,
}

/// How the runtime sums an operation up: whether it succeeded, the reason it was refused for, and
/// the reason it is counted under.
#[derive(Debug)]
pub struct RuntimeVerdict {
    pub succeeded: bool,
    pub primary_rejection: Option<String>,
    pub outcome: String,
}

#[derive(Debug)]
pub struct ActivationRequest {
    pub requested_by: Option<String>,
    pub trigger_source: Option<String>,
    pub reason: Option<String>,
    pub expected_generation: Option<u64>,
    pub requested_at_ms: u64,
}

#[derive(Debug)]
pub struct ActivationResult {
    pub request: ActivationRequest,
    pub active_generation: u64,
    pub activated_generation: Option<u64>,
    pub status: GenerationStatus,
    pub rejected_changes: Vec<RejectedChange>,
    pub history_entry: GenerationHistoryEntry,
    pub verdict: RuntimeVerdict,
}

#[derive(Debug)]
pub struct RollbackRequest {
    pub target_generation: u64,
    pub requested_by: Option<String>,
    pub trigger_source: Option<String>,
    pub reason: Option<String>,
    pub expected_active_generation: Option<u64>,
    pub requested_at_ms: u64,
}

#[derive(Debug)]
pub struct RollbackResult {
    pub request: RollbackRequest,
    pub active_generation: u64,
    pub rolled_back_to: Option<u64>,
    pub status: GenerationStatus,
    pub rejected_changes: Vec<RejectedChange>,
    pub history_entry: GenerationHistoryEntry,
    pub verdict: RuntimeVerdict,
}

/// One of the changes was refused for this kind of reason.
pub open spec fn refused_as(changes: Seq<RejectedChange>, kind: RejectedChangeKind) -> bool {
    exists|i: int| 0 <= i < changes.len() && (#[trigger] changes[i]).kind == kind
}

pub fn any_refused_as(changes: &Vec<RejectedChange>, kind: RejectedChangeKind) -> (r: bool)
    ensures
        r == refused_as(changes@, kind),
{
    let mut i: usize = 0;
    while i < changes.len()
        invariant
            i <= changes.len(),
            forall|k: int| 0 <= k < i ==> (#[trigger] changes@[k]).kind != kind,
        decreases changes.len() - i,
    {
        if changes[i].kind == kind {
            return true;
        }
        i = i + 1;
    }
    false
}

/// A generation that does not exist was asked for.
pub open spec fn target_missing(changes: Seq<RejectedChange>) -> bool {
    exists|i: int|
        0 <= i < changes.len() && (#[trigger] changes[i]).kind
            == RejectedChangeKind::RuntimeStateUnavailable && changes[i].reason
            == RuntimeRejectionReason::UnknownGeneration
}

fn is_target_missing(changes: &Vec<RejectedChange>) -> (r: bool)
    ensures
        r == target_missing(changes@),
{
    let mut i: usize = 0;
    while i < changes.len()
        invariant
            i <= changes.len(),
            forall|k: int|
                0 <= k < i ==> !((#[trigger] changes@[k]).kind
                    == RejectedChangeKind::RuntimeStateUnavailable && changes@[k].reason
                    == RuntimeRejectionReason::UnknownGeneration),
        decreases changes.len() - i,
    {
        if changes[i].kind == RejectedChangeKind::RuntimeStateUnavailable && changes[i].reason
            == RuntimeRejectionReason::UnknownGeneration {
            return true;
        }
        i = i + 1;
    }
    false
}

/// The status of a refused activation.
pub open spec fn activation_status(
    changes: Seq<RejectedChange>,
    status: GenerationStatus,
) -> StatusCode {
    if refused_as(changes, RejectedChangeKind::InvalidConfiguration) {
        StatusCode::BadRequest
    } else if refused_as(changes, RejectedChangeKind::ResourcePreparationFailed) || status
        == GenerationStatus::Failed {
        StatusCode::InternalServerError
    } else {
        StatusCode::Conflict
    }
}

pub fn activation_result_status(activation: &ActivationResult) -> (r: StatusCode)
    ensures
        r == activation_status(activation.rejected_changes@, activation.status),
{
    if any_refused_as(&activation.rejected_changes, RejectedChangeKind::InvalidConfiguration) {
        StatusCode::BadRequest
    } else if any_refused_as(
        &activation.rejected_changes,
        RejectedChangeKind::ResourcePreparationFailed,
    ) || activation.status == GenerationStatus::Failed {
        StatusCode::InternalServerError
    } else {
        StatusCode::Conflict
    }
}

/// The status of a refused reload, which also counts an unavailable runtime as the proxy's fault.
pub open spec fn reload_status(
    changes: Seq<RejectedChange>,
    status: GenerationStatus,
) -> StatusCode {
    if refused_as(changes, RejectedChangeKind::InvalidConfiguration) {
        StatusCode::BadRequest
    } else if refused_as(changes, RejectedChangeKind::ResourcePreparationFailed) || refused_as(
        changes,
        RejectedChangeKind::RuntimeStateUnavailable,
    ) || status == GenerationStatus::Failed {
        StatusCode::InternalServerError
    } else {
        StatusCode::Conflict
    }
}

pub fn legacy_reload_result_status(activation: &ActivationResult) -> (r: StatusCode)
    ensures
        r == reload_status(activation.rejected_changes@, activation.status),
{
    if any_refused_as(&activation.rejected_changes, RejectedChangeKind::InvalidConfiguration) {
        StatusCode::BadRequest
    } else if any_refused_as(
        &activation.rejected_changes,
        RejectedChangeKind::ResourcePreparationFailed,
    ) || any_refused_as(
        &activation.rejected_changes,
        RejectedChangeKind::RuntimeStateUnavailable,
    ) || activation.status == GenerationStatus::Failed {
        StatusCode::InternalServerError
    } else {
        StatusCode::Conflict
    }
}

/// The status of a refused rollback.
pub open spec fn rollback_status(
    changes: Seq<RejectedChange>,
    status: GenerationStatus,
) -> StatusCode {
    if refused_as(changes, RejectedChangeKind::InvalidConfiguration) {
        StatusCode::BadRequest
    } else if refused_as(changes, RejectedChangeKind::ResourcePreparationFailed) || status
        == GenerationStatus::Failed {
        StatusCode::InternalServerError
    } else if target_missing(changes) {
        StatusCode::NotFound
    } else {
        StatusCode::Conflict
    }
}

pub fn rollback_result_status(rollback: &RollbackResult) -> (r: StatusCode)
    ensures
        r == rollback_status(rollback.rejected_changes@, rollback.status),
{
    if any_refused_as(&rollback.rejected_changes, RejectedChangeKind::InvalidConfiguration) {
        StatusCode::BadRequest
    } else if any_refused_as(
        &rollback.rejected_changes,
        RejectedChangeKind::ResourcePreparationFailed,
    ) || rollback.status == GenerationStatus::Failed {
        StatusCode::InternalServerError
    } else if is_target_missing(&rollback.rejected_changes) {
        StatusCode::NotFound
    } else {
        StatusCode::Conflict
    }
}

/// What an operator is told of a refusal: the first refused change, or else the history's summary.
pub open spec fn refusal_text(changes: Seq<RejectedChange>, summary: Seq<char>) -> Seq<char> {
    if changes.len() > 0 {
        changes[0].message@
    } else {
        summary
    }
}

pub fn activation_error(activation: &ActivationResult) -> (r: &str)
    ensures
        r@ == refusal_text(activation.rejected_changes@, activation.history_entry.summary@),
{
    if activation.rejected_changes.len() > 0 {
        activation.rejected_changes[0].message.as_str()
    } else {
        activation.history_entry.summary.as_str()
    }
}

pub fn rollback_error(rollback: &RollbackResult) -> (r: &str)
    ensures
        r@ == refusal_text(rollback.rejected_changes@, rollback.history_entry.summary@),
{
    if rollback.rejected_changes.len() > 0 {
        rollback.rejected_changes[0].message.as_str()
    } else {
        rollback.history_entry.summary.as_str()
    }
}

/// A changed setting of the generation is secret material.
pub open spec fn secrets_changed(entries: Seq<ReloadDiffEntry>) -> bool {
    exists|i: int| 0 <= i < entries.len() && (#[trigger] entries[i]).secret_material_changed
}

pub fn any_secret_changed(entries: &Vec<ReloadDiffEntry>) -> (r: bool)
    ensures
        r == secrets_changed(entries@),
{
    let mut i: usize = 0;
    while i < entries.len()
        invariant
            i <= entries.len(),
            forall|k: int| 0 <= k < i ==> !(#[trigger] entries@[k]).secret_material_changed,
        decreases entries.len() - i,
    {
        if entries[i].secret_material_changed {
            return true;
        }
        i = i + 1;
    }
    false
}

} // verus!
