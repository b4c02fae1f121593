//! The decisions of the signing endpoint, one request at a time.
//!
//! Handling a request runs in three steps: the body is received, a signed URL
//! is asked for, and a reply is made. The first and the last step are decided
//! here; the signing call between them is made by the caller, which hands its
//! outcome back.
use vstd::prelude::*;
use vstd::utf8::encode_utf8;
use crate::absolute_url::{names_bucket, url_names_bucket};

verus! {

/// The bucket that every signed URL is made for.
pub const BUCKET: &'static str = "symposia-dev-bucket";

pub open spec fn bucket_name() -> Seq<char> {
    BUCKET@
}

/// The body of a request: the key of an object in the bucket.
#[derive(Clone, Debug, PartialEq, Eq)]
pub struct SignedUrlRequest {
    pub object: String,
}

/// The body of a successful reply.
#[derive(Clone, Debug, PartialEq, Eq)]
pub struct SignUrlResponse {
    pub url: String,
}

/// What one signing call is made for.
#[derive(Clone, Debug, PartialEq, Eq)]
pub struct SignTarget {
    pub bucket: String,
    pub object: String,
}

/// The status of a reply.
#[derive(PartialEq, Eq, Structural, Clone, Copy, Debug)]
pub enum Status {
    Success,
    BadRequest,
    InternalServerError,
}

impl Status {
    pub open spec fn spec_code(self) -> u16 {
        match self {
            Status::Success => 200,
            Status::BadRequest => 400,
            Status::InternalServerError => 500,
        }
    }

    /// The HTTP status code.
    pub fn code(&self) -> (r: u16)
        ensures
            r == self.spec_code(),
    {
        match self {
            Status::Success => 200,
            Status::BadRequest => 400,
            Status::InternalServerError => 500,
        }
    }
}

/// A reply: a status, and a body on success only.
#[derive(Clone, Debug, PartialEq, Eq)]
pub struct Reply {
    pub status: Status,
    pub body: Option<SignUrlResponse>,
}

/// What the caller is to do next.
#[derive(Clone, Debug, PartialEq, Eq)]
pub enum Action {
    /// Ask the storage backend for a signed URL, then call `handle_signed_url`.
    Sign(SignTarget),
    /// Send this reply; the request is done.
    Respond(Reply),
}

/// Why no signed URL came about.
#[derive(PartialEq, Eq, Structural, Clone, Copy, Debug)]
pub enum SigningError {
    /// The backend's signing call failed.
    Backend,
    /// The backend returned something that is not an absolute URL into the bucket.
    UnexpectedUrl,
}

pub open spec fn bad_request() -> Reply {
    Reply { status: Status::BadRequest, body: None }
}

pub open spec fn server_error() -> Reply {
    Reply { status: Status::InternalServerError, body: None }
}

/// `t` is what a signing call for `req` must be made for.
pub open spec fn targets(t: SignTarget, req: SignedUrlRequest) -> bool {
    t.bucket@ == bucket_name() && t.object == req.object
}

/// The URL that the backend returned is accepted when its path starts with the bucket.
pub open spec fn accepts_url(bucket: Seq<char>, url: Seq<char>) -> bool {
    names_bucket(encode_utf8(url), encode_utf8(bucket))
}

pub open spec fn checked_url(bucket: Seq<char>, backend: Result<String, ()>) -> Result<String, SigningError> {
    match backend {
        Ok(u) => if accepts_url(bucket, u@) {
            Ok(u)
        } else {
            Err(SigningError::UnexpectedUrl)
        },
        Err(_) => Err(SigningError::Backend),
    }
}

pub open spec fn reply_of(outcome: Result<String, SigningError>) -> Reply {
    match outcome {
        Ok(u) => Reply { status: Status::Success, body: Some(SignUrlResponse { url: u }) },
        Err(_) => server_error(),
    }
}

/// The reply to a request whose signing call for `bucket` came back as `backend`.
pub open spec fn signed_reply(bucket: Seq<char>, backend: Result<String, ()>) -> Reply {
    reply_of(checked_url(bucket, backend))
}

/// The first step: a body that could not be read as a request (`None`) is
/// refused; otherwise a URL is to be signed for the request's object in the bucket.
pub fn receive(body: Option<SignedUrlRequest>) -> (a: Action)
    ensures
        body is None ==> a == Action::Respond(bad_request()),
        body matches Some(req) ==> a matches Action::Sign(t) && targets(t, req),
{
    match body {
        None => Action::Respond(Reply { status: Status::BadRequest, body: None }),
        Some(req) => Action::Sign(SignTarget { bucket: BUCKET.to_owned(), object: req.object }),
    }
}

/// Turns the outcome of the signing call into a signed URL or an error. Any
/// failure of the backend is one error; a returned URL that is not an absolute
/// URL whose path starts with the target's bucket is refused.
pub fn check_signed_url(target: &SignTarget, backend: Result<String, ()>) -> (r: Result<String, SigningError>)
    ensures
        r == checked_url(target.bucket@, backend),
{
    match backend {
        Ok(u) => {
            if url_names_bucket(u.as_str(), target.bucket.as_str()) {
                Ok(u)
            } else {
                Err(SigningError::UnexpectedUrl)
            }
        },
        Err(_) => Err(SigningError::Backend),
    }
}

/// The last step: a signed URL is sent with status 200; any error becomes
/// status 500 with no body, whatever its cause.
pub fn respond(outcome: Result<String, SigningError>) -> (r: Reply)
    ensures
        r == reply_of(outcome),
{
    match outcome {
        Ok(u) => Reply { status: Status::Success, body: Some(SignUrlResponse { url: u }) },
        Err(_) => Reply { status: Status::InternalServerError, body: None },
    }
}

/// The reply to a request once the backend's signing call for `target` has
/// come back with `backend`.
pub fn handle_signed_url(target: &SignTarget, backend: Result<String, ()>) -> (r: Reply)
    ensures
        r == signed_reply(target.bucket@, backend),
{
    respond(check_signed_url(target, backend))
}

} // verus!
