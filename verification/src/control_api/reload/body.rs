//! Request bodies.
use crate::status::StatusCode;
use crate::text::{decimal, owned, to_decimal};
use vstd::prelude::*;

verus! {

/// The answer to a request with an unusable body.
#[derive(Debug)]
pub struct ControlApiBodyError {
    pub status: StatusCode,
    pub error: String,
}

pub struct BodyErrorView {
    pub status: StatusCode,
    pub error: Seq<char>,
}

impl View for ControlApiBodyError {
    type V = BodyErrorView;

    open spec fn view(&self) -> BodyErrorView {
        BodyErrorView { status: self.status, error: self.error@ }
    }
}

/// The body is no JSON of the form that is asked for, or could not be read.
pub open spec fn invalid_body(detail: Seq<char>) -> BodyErrorView {
    BodyErrorView { status: StatusCode::BadRequest, error: "invalid request body: "@ + detail }
}

/// The body is missing.
pub open spec fn missing_body() -> BodyErrorView {
    BodyErrorView { status: StatusCode::BadRequest, error: "request body is required"@ }
}

/// The body is too large.
pub open spec fn oversized_body(limit: nat) -> BodyErrorView {
    BodyErrorView {
        status: StatusCode::PayloadTooLarge,
        error: "request body exceeded "@ + decimal(limit) + " bytes"@,
    }
}

/// The answer to a body that could not be read or parsed.
pub fn invalid_request_body(detail: &str) -> (r: ControlApiBodyError)
    ensures
        r@ == invalid_body(detail@),
{
    let mut error = owned("invalid request body: ");
    error.append(detail);
    ControlApiBodyError { status: StatusCode::BadRequest, error }
}

/// A request's body while it arrives, and the most bytes it may have.
#[derive(Debug)]
pub struct ControlApiBody {
    limit: u64,
    bytes: Vec<u8>,
}

impl View for ControlApiBody {
    type V = Seq<u8>;

    closed spec fn view(&self) -> Seq<u8> {
        self.bytes@
    }
}

impl ControlApiBody {
    pub closed spec fn bound(self) -> nat {
        self.limit as nat
    }

    /// The body is within its bound.
    pub open spec fn wf(self) -> bool {
        self@.len() <= self.bound()
    }

    pub fn new(limit: u64) -> (r: Self)
        ensures
            r.wf(),
            r.bound() == limit,
            r@ == Seq::<u8>::empty(),
    {
        ControlApiBody { limit, bytes: Vec::new() }
    }

    /// Takes the next chunk, unless the body would outgrow its bound.
    pub fn push_chunk(&mut self, chunk: &[u8]) -> (r: Result<(), ControlApiBodyError>)
        requires
            old(self).wf(),
        ensures
            final(self).wf(),
            final(self).bound() == old(self).bound(),
            r is Ok <==> old(self)@.len() + chunk@.len() <= old(self).bound(),
            final(self)@ == if r is Ok {
                old(self)@ + chunk@
            } else {
                old(self)@
            },
            r matches Err(error) ==> error@ == oversized_body(old(self).bound()),
    {
        if chunk.len() as u64 > self.limit - self.bytes.len() as u64 {
            let mut error = owned("request body exceeded ");
            error.append(to_decimal(self.limit).as_str());
            error.append(" bytes");
            return Err(ControlApiBodyError { status: StatusCode::PayloadTooLarge, error });
        }
        self.bytes.extend_from_slice(chunk);
        assert(self@ =~= old(self)@ + chunk@);
        Ok(())
    }

    /// The collected body; an empty one is refused.
    pub fn into_required(self) -> (r: Result<Vec<u8>, ControlApiBodyError>)
        ensures
            match r {
                Ok(bytes) => bytes@ == self@ && self@.len() > 0,
                Err(error) => self@.len() == 0 && error@ == missing_body(),
            },
    {
        if self.bytes.len() == 0 {
            return Err(
                ControlApiBodyError {
                    status: StatusCode::BadRequest,
                    error: owned("request body is required"),
                },
            );
        }
        Ok(self.bytes)
    }

    /// The collected body; nothing where it is empty, which stands for the default.
    pub fn into_optional(self) -> (r: Option<Vec<u8>>)
        ensures
            match r {
                Some(bytes) => bytes@ == self@ && self@.len() > 0,
                None => self@.len() == 0,
            },
    {
        if self.bytes.len() == 0 {
            None
        } else {
            Some(self.bytes)
        }
    }
}

} // verus!
