//! Quotas: what their evaluation means for a request.
use crate::admission::policy::{
    at_least_one, AdmissionRejectionResponse, ResponseView,
};
use crate::status::StatusCode;
use crate::text::owned;
use vstd::prelude::*;

verus! {

#[derive(Debug, Clone, Copy, PartialEq, Eq, Structural)]
pub enum QuotaDenyReason {
    BurstQuotaExhausted,
    SustainedQuotaExhausted,
    SelectorIdentityMissing,
    SelectorIdentityInvalid,
    BackendTimeout,
    BackendUnavailable,
    BackendError,
}

/// A policy that has nothing left.
#[derive(Debug)]
pub struct QuotaDenial {
    pub policy_name: String,
    pub reason: QuotaDenyReason,
    pub retry_after_seconds: Option<u32>,
}

/// A policy that could not be evaluated.
#[derive(Debug)]
pub struct QuotaFailure {
    pub policy_name: Option<String>,
    pub reason: QuotaDenyReason,
}

/// What the evaluation of the quotas said.
#[derive(Debug)]
pub enum QuotaDecision {
    NotApplied,
    Allowed,
    Denied(QuotaDenial),
    ShadowDenied(QuotaDenial),
    FailedOpen(QuotaFailure),
    FailedClosed(QuotaFailure),
}

pub open spec fn quota_body(reason: QuotaDenyReason) -> Seq<char> {
    match reason {
        QuotaDenyReason::BurstQuotaExhausted => "burst quota exhausted\n"@,
        QuotaDenyReason::SustainedQuotaExhausted => "sustained quota exhausted\n"@,
        QuotaDenyReason::SelectorIdentityMissing => "quota selector identity missing\n"@,
        QuotaDenyReason::SelectorIdentityInvalid => "quota selector identity invalid\n"@,
        QuotaDenyReason::BackendTimeout => "quota backend timed out\n"@,
        QuotaDenyReason::BackendUnavailable => "quota backend unavailable\n"@,
        QuotaDenyReason::BackendError => "quota backend error\n"@,
    }
}

pub fn quota_response_body(reason: QuotaDenyReason) -> (r: &'static str)
    ensures
        r@ == quota_body(reason),
{
    match reason {
        QuotaDenyReason::BurstQuotaExhausted => "burst quota exhausted\n",
        QuotaDenyReason::SustainedQuotaExhausted => "sustained quota exhausted\n",
        QuotaDenyReason::SelectorIdentityMissing => "quota selector identity missing\n",
        QuotaDenyReason::SelectorIdentityInvalid => "quota selector identity invalid\n",
        QuotaDenyReason::BackendTimeout => "quota backend timed out\n",
        QuotaDenyReason::BackendUnavailable => "quota backend unavailable\n",
        QuotaDenyReason::BackendError => "quota backend error\n",
    }
}

/// A request that a quota refuses.
#[derive(Debug, PartialEq, Eq)]
pub struct QuotaRejectedDecision {
    pub policy_name: String,
    pub reason: QuotaDenyReason,
    pub status: StatusCode,
    pub body: &'static str,
    pub retry_after_seconds: Option<u32>,
}

pub struct QuotaRejectionView {
    pub policy_name: Seq<char>,
    pub reason: QuotaDenyReason,
    pub status: StatusCode,
    pub body: Seq<char>,
    pub retry_after_seconds: Option<u32>,
}

impl View for QuotaRejectedDecision {
    type V = QuotaRejectionView;

    open spec fn view(&self) -> QuotaRejectionView {
        QuotaRejectionView {
            policy_name: self.policy_name@,
            reason: self.reason,
            status: self.status,
            body: self.body@,
            retry_after_seconds: self.retry_after_seconds,
        }
    }
}

/// The refusal that a quota's evaluation leads to, a denial in shadow mode taken as a denial.
pub open spec fn quota_rejection(decision: QuotaDecision) -> Option<QuotaRejectionView> {
    match decision {
        QuotaDecision::Denied(denial) | QuotaDecision::ShadowDenied(denial) => Some(
            QuotaRejectionView {
                policy_name: denial.policy_name@,
                reason: denial.reason,
                status: StatusCode::TooManyRequests,
                body: quota_body(denial.reason),
                retry_after_seconds: match denial.retry_after_seconds {
                    Some(seconds) => Some(at_least_one(seconds)),
                    None => None,
                },
            },
        ),
        QuotaDecision::FailedClosed(failure) => Some(
            QuotaRejectionView {
                policy_name: match failure.policy_name {
                    Some(name) => name@,
                    None => "unknown"@,
                },
                reason: failure.reason,
                status: StatusCode::ServiceUnavailable,
                body: quota_body(failure.reason),
                retry_after_seconds: None,
            },
        ),
        QuotaDecision::NotApplied | QuotaDecision::Allowed | QuotaDecision::FailedOpen(_) => None,
    }
}

/// The view of an optional refusal.
pub open spec fn opt_rejection(decision: Option<QuotaRejectedDecision>) -> Option<
    QuotaRejectionView,
> {
    match decision {
        Some(decision) => Some(decision@),
        None => None,
    }
}

impl QuotaRejectedDecision {
    pub fn from_quota_decision(decision: QuotaDecision) -> (r: Option<Self>)
        ensures
            opt_rejection(r) == quota_rejection(decision),
    {
        match decision {
            QuotaDecision::Denied(denial) | QuotaDecision::ShadowDenied(denial) => Some(
                QuotaRejectedDecision {
                    policy_name: denial.policy_name,
                    reason: denial.reason,
                    status: StatusCode::TooManyRequests,
                    body: quota_response_body(denial.reason),
                    retry_after_seconds: match denial.retry_after_seconds {
                        Some(seconds) => Some(if seconds < 1 { 1 } else { seconds }),
                        None => None,
                    },
                },
            ),
            QuotaDecision::FailedClosed(failure) => Some(
                QuotaRejectedDecision {
                    policy_name: match failure.policy_name {
                        Some(name) => name,
                        None => owned("unknown"),
                    },
                    reason: failure.reason,
                    status: StatusCode::ServiceUnavailable,
                    body: quota_response_body(failure.reason),
                    retry_after_seconds: None,
                },
            ),
            QuotaDecision::NotApplied | QuotaDecision::Allowed | QuotaDecision::FailedOpen(_) => {
                None
            },
        }
    }

    pub fn as_response(&self) -> (r: AdmissionRejectionResponse)
        ensures
            r@ == (ResponseView {
                status: self.status,
                body: self.body@,
                www_authenticate: None,
                retry_after_seconds: self.retry_after_seconds,
            }),
    {
        AdmissionRejectionResponse {
            status: self.status,
            body: self.body,
            www_authenticate: None,
            retry_after_seconds: self.retry_after_seconds,
        }
    }
}

} // verus!
