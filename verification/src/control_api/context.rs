//! What is known of a request's connection before it is looked at.
use crate::control_api::certificate::certificate_of;
use crate::control_api::identity::{
    certificate_identity, role_attribute, ContextView, ControlApiIdentitySourcePolicy,
    ControlApiRequestContext, MtlsView, PeerAddr,
};
use crate::headers::{header_value, RequestHeaders};
use crate::listener::QUICListener;
use crate::text::{opt, owned, trim, trimmed};
use vstd::prelude::*;

verus! {

/// The identity of a connection's first certificate.
pub open spec fn connection_identity(
    certificate: Option<&[u8]>,
    source: Option<&ControlApiIdentitySourcePolicy>,
) -> Option<MtlsView> {
    match certificate {
        None => None,
        Some(der) => match certificate_of(der@) {
            Some(certificate) => Some(certificate_identity(certificate, role_attribute(source))),
            None => None,
        },
    }
}

/// A header's text without white space around it, where anything is left of it.
pub open spec fn header_text(headers: RequestHeaders, name: Seq<char>) -> Option<Seq<char>> {
    match header_value(headers.entries@, name) {
        Some(value) => if trimmed(value).len() > 0 {
            Some(trimmed(value))
        } else {
            None
        },
        None => None,
    }
}

fn read_header_text(headers: &RequestHeaders, name: &str) -> (r: Option<String>)
    ensures
        opt(r) == header_text(*headers, name@),
{
    match headers.lookup(name) {
        Some(value) => {
            let text = trim(value);
            if text.is_empty() {
                None
            } else {
                Some(owned(text))
            }
        },
        None => None,
    }
}

/// A context with what a request's headers add to it: its id, and its place in a trace where one
/// was read.
pub open spec fn augmented(
    context: ContextView,
    request_id: Option<Seq<char>>,
    trace: Option<(Seq<char>, Seq<char>)>,
) -> ContextView {
    match trace {
        Some((trace_id, span_id)) => ContextView {
            request_id,
            trace_id: Some(trace_id),
            span_id: Some(span_id),
            ..context
        },
        None => ContextView { request_id, ..context },
    }
}

impl QUICListener {
    /// The context of a connection, from the first certificate that its client showed.
    pub fn build_control_api_request_context(
        peer_addr: PeerAddr,
        first_certificate: Option<&[u8]>,
        identity_source: Option<&ControlApiIdentitySourcePolicy>,
        listener: Option<String>,
    ) -> (r: ControlApiRequestContext)
        ensures
            r@ == (ContextView {
                peer_addr,
                mtls_identity: connection_identity(first_certificate, identity_source),
                listener: opt(listener),
                request_id: None,
                trace_id: None,
                span_id: None,
            }),
    {
        let mtls_identity = match first_certificate {
            Some(der) => Self::parse_admin_mtls_identity(der, identity_source),
            None => None,
        };
        ControlApiRequestContext {
            peer_addr,
            mtls_identity,
            listener,
            request_id: None,
            trace_id: None,
            span_id: None,
        }
    }

    /// The text of a request's trace header, for the reader of such headers.
    pub fn control_api_trace_header(headers: &RequestHeaders) -> (r: Option<String>)
        ensures
            opt(r) == header_text(*headers, "traceparent"@),
    {
        read_header_text(headers, "traceparent")
    }

    /// Adds what a request's headers say. `trace` is the trace and the span that its trace header
    /// names, where it names them.
    pub fn augment_control_api_request_context(
        context: ControlApiRequestContext,
        headers: &RequestHeaders,
        trace: Option<(String, String)>,
    ) -> (r: ControlApiRequestContext)
        ensures
            r@ == augmented(
                context@,
                header_text(*headers, "x-request-id"@),
                match trace {
                    Some((trace_id, span_id)) => Some((trace_id@, span_id@)),
                    None => None,
                },
            ),
    {
        let mut r = context;
        r.request_id = read_header_text(headers, "x-request-id");
        if let Some((trace_id, span_id)) = trace {
            r.trace_id = Some(trace_id);
            r.span_id = Some(span_id);
        }
        r
    }
}

} // verus!
