//! The records of an operation that takes several steps.
use crate::control_api::audit::{
    recorded, with_records, AdminAuditAction, AdminAuditEventType, AdminAuditGeneration,
    AdminAuditRecord, AdminAuditResult, AdminAuditTarget, OperationView, RecordView,
};
use crate::control_api::identity::{
    opt_context, opt_identity, AdminIdentity, ControlApiRequestContext,
};
use crate::control_api::security::ControlApiAuditPolicy;
use crate::listener::QUICListener;
use crate::text::opt_str;
use vstd::prelude::*;

verus! {

/// Who carries an operation out, over what connection, and whether that is recorded.
pub struct AuditSession<'a> {
    pub audit: &'a ControlApiAuditPolicy,
    pub identity: Option<&'a AdminIdentity>,
    pub context: Option<&'a ControlApiRequestContext>,
}

impl<'a> AuditSession<'a> {
    /// What is recorded of one step.
    pub open spec fn record(self, operation: OperationView) -> Seq<RecordView> {
        recorded(
            self.audit.enabled,
            opt_identity(self.identity),
            opt_context(self.context),
            operation,
        )
    }

    pub fn emit(
        &self,
        records: &mut Vec<AdminAuditRecord>,
        event_type: AdminAuditEventType,
        action: AdminAuditAction,
        target: AdminAuditTarget,
        generation: AdminAuditGeneration,
        result: AdminAuditResult,
        reason: Option<&str>,
    )
        ensures
            with_records(
                old(records)@,
                final(records)@,
                self.record(
                    OperationView {
                        event_type,
                        action,
                        target: target@,
                        generation,
                        result,
                        reason: opt_str(reason),
                    },
                ),
            ),
    {
        QUICListener::emit_control_api_audit_event(
            self.audit,
            records,
            self.identity,
            self.context,
            event_type,
            action,
            target,
            generation,
            result,
            reason,
        );
    }
}

/// How an operation ended, for its record.
pub open spec fn ended(succeeded: bool) -> AdminAuditResult {
    if succeeded {
        AdminAuditResult::Success
    } else {
        AdminAuditResult::Failed
    }
}

pub fn audit_result(succeeded: bool) -> (r: AdminAuditResult)
    ensures
        r == ended(succeeded),
{
    if succeeded { AdminAuditResult::Success } else { AdminAuditResult::Failed }
}

} // verus!
