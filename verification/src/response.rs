//! The envelope in which every response body travels.

use vstd::prelude::*;
use vstd::std_specs::convert::FromSpecImpl;
use crate::error::Error;

verus! {

/// A payload without fields.
#[derive(Debug)]
pub struct Empty {}

impl Default for Empty {
    fn default() -> (r: Self)
        ensures
            r == (Empty {}),
    {
        Empty {}
    }
}

/// What an envelope holds, field by field. A field that is `None` is left
/// out of the serialized body; it is not written as null.
pub struct Envelope<T> {
    pub code: Option<u16>,
    pub msg: Option<Seq<char>>,
    pub payload: Option<T>,
}

impl<T> Envelope<T> {
    /// The envelope of a success: the payload and nothing else.
    pub open spec fn success(payload: T) -> Self {
        Envelope { code: None, msg: None, payload: Some(payload) }
    }

    /// The envelope of a failure: code and message and nothing else.
    pub open spec fn failure(code: u16, msg: Seq<char>) -> Self {
        Envelope { code: Some(code), msg: Some(msg), payload: None }
    }

    /// The body has the payload's fields and neither `code` nor `msg`.
    pub open spec fn is_success(self) -> bool {
        self.payload is Some && self.code is None && self.msg is None
    }

    /// The body has `code` and `msg` and no payload field.
    pub open spec fn is_failure(self) -> bool {
        self.payload is None && self.code is Some && self.msg is Some
    }

    /// Exactly one of the two is populated: the payload, or code and
    /// message.
    pub open spec fn wf(self) -> bool {
        self.is_success() != self.is_failure()
    }
}

/// The status line that a response is sent under.
#[derive(Debug, Clone, Copy)]
pub enum Status {
    Success,
    InternalServerError,
}

impl Status {
    /// The status as a number.
    pub open spec fn number(self) -> u16 {
        match self {
            Status::Success => 200,
            Status::InternalServerError => 500,
        }
    }

    /// The status as it is written out: the number, a space, the reason.
    pub open spec fn text(self) -> Seq<char> {
        match self {
            Status::Success => "200 OK"@,
            Status::InternalServerError => "500 Internal Server Error"@,
        }
    }
}

/// `http::StatusCode::as_u16` (reached as `axum::http::StatusCode`), on the
/// constants `OK` and `INTERNAL_SERVER_ERROR`: the number that the constant
/// was declared with.
#[verifier::external_body]
fn status_number(status: Status) -> (r: u16)
    ensures
        r == status.number(),
{
    match status {
        Status::Success => axum::http::StatusCode::OK.as_u16(),
        Status::InternalServerError => axum::http::StatusCode::INTERNAL_SERVER_ERROR.as_u16(),
    }
}

/// The `Display` of `http::StatusCode` (reached as `axum::http::StatusCode`),
/// on the constants `OK` and `INTERNAL_SERVER_ERROR`: it writes the number,
/// one space, and the canonical reason phrase of that number.
#[verifier::external_body]
fn status_text(status: Status) -> (r: String)
    ensures
        r@ == status.text(),
{
    match status {
        Status::Success => axum::http::StatusCode::OK.to_string(),
        Status::InternalServerError => axum::http::StatusCode::INTERNAL_SERVER_ERROR.to_string(),
    }
}

/// The body of a response: a payload on success, a code and a message on
/// failure, never both.
#[derive(Debug)]
pub struct ApiResponse<T> {
    code: Option<u16>,
    msg: Option<String>,
    payload: Option<T>,
}

impl<T> View for ApiResponse<T> {
    type V = Envelope<T>;

    closed spec fn view(&self) -> Envelope<T> {
        Envelope {
            code: self.code,
            msg: match self.msg {
                Some(s) => Some(s@),
                None => None,
            },
            payload: self.payload,
        }
    }
}

impl<T> ApiResponse<T> {
    /// The envelope of a success.
    pub fn new(payload: T) -> (r: Self)
        ensures
            r@ == Envelope::success(payload),
            r@.is_success(),
            r@.wf(),
    {
        ApiResponse { payload: Some(payload), code: None, msg: None }
    }

    /// The envelope of a failure.
    pub fn error(code: u16, msg: String) -> (r: Self)
        ensures
            r@ == Envelope::<T>::failure(code, msg@),
            r@.is_failure(),
            r@.wf(),
    {
        ApiResponse { code: Some(code), msg: Some(msg), payload: None }
    }

    /// The code, where the body has one.
    pub fn code(&self) -> (r: Option<u16>)
        ensures
            r == self@.code,
    {
        self.code
    }

    /// The message, where the body has one.
    pub fn msg(&self) -> (r: Option<&String>)
        ensures
            r is Some == self@.msg is Some,
            r matches Some(s) ==> self@.msg == Some(s@),
    {
        self.msg.as_ref()
    }

    /// The payload, where the body has one.
    pub fn payload(&self) -> (r: Option<&T>)
        ensures
            r is Some == self@.payload is Some,
            r matches Some(p) ==> self@.payload == Some(*p),
    {
        self.payload.as_ref()
    }

    /// Takes the envelope apart: code, message, payload.
    pub fn into_parts(self) -> (r: (Option<u16>, Option<String>, Option<T>))
        ensures
            r.0 == self@.code,
            r.1 is Some == self@.msg is Some,
            r.1 matches Some(s) ==> self@.msg == Some(s@),
            r.2 == self@.payload,
    {
        (self.code, self.msg, self.payload)
    }

    /// The HTTP status under which the envelope is sent: always 200, for a
    /// failure too. What went wrong is told by the body's `code` alone.
    pub fn http_status(&self) -> (r: u16)
        ensures
            r == 200,
    {
        status_number(Status::Success)
    }
}

/// What a request handler returns.
pub type RestResult<T> = Result<ApiResponse<T>, Error>;

/// What a client is told of a failure. Only a failure that carries a status
/// and message of its own is passed on; of any other the client learns
/// nothing but that the server failed.
pub open spec fn envelope_of(e: Error) -> Envelope<()> {
    match e {
        Error::UnknownWithCode(code, msg) => Envelope::failure(code, msg@),
        _ => Envelope::failure(
            Status::InternalServerError.number(),
            Status::InternalServerError.text(),
        ),
    }
}

impl From<Error> for ApiResponse<()> {
    fn from(value: Error) -> (r: Self)
        ensures
            r@ == envelope_of(value),
            r@.is_failure(),
    {
        match value {
            Error::UnknownWithCode(code, msg) => ApiResponse::error(code, msg),
            _ => ApiResponse::error(
                status_number(Status::InternalServerError),
                status_text(Status::InternalServerError),
            ),
        }
    }
}

/// What the conversion gives is stated on `from` itself, over the view of
/// the envelope; no value of the envelope is named for it here.
impl FromSpecImpl<Error> for ApiResponse<()> {
    open spec fn obeys_from_spec() -> bool {
        false
    }

    open spec fn from_spec(v: Error) -> Self {
        arbitrary()
    }
}

/// A failure without a status of its own reaches the client as the generic
/// internal error, whatever it was: two such failures give the same body.
pub proof fn lemma_detail_is_not_passed_on(a: Error, b: Error)
    requires
        !a.is_coded(),
        !b.is_coded(),
    ensures
        envelope_of(a) == Envelope::<()>::failure(500, "500 Internal Server Error"@),
        envelope_of(a) == envelope_of(b),
{
}

/// A failure with a status of its own reaches the client with that status
/// and that message, unchanged.
pub proof fn lemma_coded_failure_is_passed_on(code: u16, msg: String)
    ensures
        envelope_of(Error::UnknownWithCode(code, msg)) == Envelope::<()>::failure(code, msg@),
        envelope_of(Error::UnknownWithCode(code, msg)).code == Some(code),
        envelope_of(Error::UnknownWithCode(code, msg)).msg == Some(msg@),
{
}

/// The body of a response that has nothing to say beyond success or
/// failure: an envelope whose payload, where it has one, is without fields.
#[derive(Debug)]
pub struct StatusCodeOnlyResponse(ApiResponse<Empty>);

impl View for StatusCodeOnlyResponse {
    type V = Envelope<Empty>;

    closed spec fn view(&self) -> Envelope<Empty> {
        self.0@
    }
}

impl StatusCodeOnlyResponse {
    /// Wraps an envelope.
    pub fn new(response: ApiResponse<Empty>) -> (r: Self)
        ensures
            r@ == response@,
    {
        StatusCodeOnlyResponse(response)
    }

    /// The envelope inside.
    pub fn response(&self) -> (r: &ApiResponse<Empty>)
        ensures
            r@ == self@,
    {
        &self.0
    }

    /// Gives the envelope out.
    pub fn into_response(self) -> (r: ApiResponse<Empty>)
        ensures
            r@ == self@,
    {
        self.0
    }
}

impl Default for StatusCodeOnlyResponse {
    /// The body of a plain success. It serializes as an object without
    /// fields.
    fn default() -> (r: Self)
        ensures
            r@ == Envelope::success(Empty {}),
    {
        StatusCodeOnlyResponse(ApiResponse::new(Empty {}))
    }
}

} // verus!
