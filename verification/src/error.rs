//! The one shape in which every handler reports a failure: a status and a
//! message of the form `<handler>: <what failed>`.

use vstd::prelude::*;

verus! {

/// The statuses that the service answers a failed request with.
#[derive(Debug, Clone, Copy, PartialEq, Eq)]
pub enum Status {
    BadRequest,
    Unauthorized,
    Forbidden,
    NotFound,
    Conflict,
    InternalServerError,
    ServiceUnavailable,
}

impl Status {
    /// The code of the status in HTTP.
    pub open spec fn number(self) -> u16 {
        match self {
            Status::BadRequest => 400,
            Status::Unauthorized => 401,
            Status::Forbidden => 403,
            Status::NotFound => 404,
            Status::Conflict => 409,
            Status::InternalServerError => 500,
            Status::ServiceUnavailable => 503,
        }
    }

    pub fn code(self) -> (r: u16)
        ensures
            r == self.number(),
    {
        match self {
            Status::BadRequest => 400,
            Status::Unauthorized => 401,
            Status::Forbidden => 403,
            Status::NotFound => 404,
            Status::Conflict => 409,
            Status::InternalServerError => 500,
            Status::ServiceUnavailable => 503,
        }
    }
}

/// A failed request, as it is answered.
#[derive(Debug, PartialEq, Eq)]
pub struct ApiError {
    pub error: bool,
    pub message: String,
    pub status_code: u16,
}

/// What a failed request is answered.
pub struct Failure {
    pub error: bool,
    pub message: Seq<char>,
    pub status_code: u16,
}

impl View for ApiError {
    type V = Failure;

    open spec fn view(&self) -> Failure {
        Failure { error: self.error, message: self.message@, status_code: self.status_code }
    }
}

/// The context of a failure: the handler and what it was doing.
pub open spec fn at(handler: Seq<char>, what: Seq<char>) -> Seq<char> {
    handler + ": "@ + what
}

/// A failure that the service itself decided on.
pub open spec fn refusal(status: Status, context: Seq<char>) -> Failure {
    Failure { error: true, message: context, status_code: status.number() }
}

/// A failure that was caused by a lower-level error; its text follows the context.
pub open spec fn failure(status: Status, context: Seq<char>, cause: Seq<char>) -> Failure {
    Failure { error: true, message: context + ": "@ + cause, status_code: status.number() }
}

/// The codes that the service documents for its failures.
pub open spec fn documented(code: u16) -> bool {
    code == 400 || code == 401 || code == 403 || code == 404 || code == 409 || code == 500 || code
        == 503
}

/// A failure in the documented shape, reported by the given handler.
pub open spec fn reported_by(f: Failure, handler: Seq<char>) -> bool {
    &&& f.error
    &&& documented(f.status_code)
    &&& exists|what: Seq<char>| f.message == #[trigger] at(handler, what)
}

/// A refusal names its handler.
pub broadcast proof fn refusal_is_reported(status: Status, handler: Seq<char>, what: Seq<char>)
    ensures
        #[trigger] reported_by(refusal(status, at(handler, what)), handler),
{
}

/// A failure with a cause names its handler.
pub broadcast proof fn failure_is_reported(
    status: Status,
    handler: Seq<char>,
    what: Seq<char>,
    cause: Seq<char>,
)
    ensures
        #[trigger] reported_by(failure(status, at(handler, what), cause), handler),
{
    let f = failure(status, at(handler, what), cause);
    assert(f.message =~= at(handler, what + ": "@ + cause));
}

impl ApiError {
    /// An error with a context of the form `handler: what failed`.
    pub fn new(status: Status, context: &str) -> (r: ApiError)
        ensures
            r@ == refusal(status, context@),
    {
        ApiError { error: true, message: context.to_owned(), status_code: status.code() }
    }

    /// An error that was caused by a lower-level one, of which `err` is the
    /// debug text: the text follows the context.
    pub fn from_err(status: Status, context: &str, err: &str) -> (r: ApiError)
        ensures
            r@ == failure(status, context@, err@),
    {
        ApiError {
            error: true,
            message: context.to_owned().concat(": ").concat(err),
            status_code: status.code(),
        }
    }

    pub fn not_found(context: &str) -> (r: ApiError)
        ensures
            r@ == refusal(Status::NotFound, context@),
    {
        ApiError::new(Status::NotFound, context)
    }

    pub fn unauthorized(context: &str) -> (r: ApiError)
        ensures
            r@ == refusal(Status::Unauthorized, context@),
    {
        ApiError::new(Status::Unauthorized, context)
    }

    pub fn forbidden(context: &str) -> (r: ApiError)
        ensures
            r@ == refusal(Status::Forbidden, context@),
    {
        ApiError::new(Status::Forbidden, context)
    }

    pub fn bad_request(context: &str) -> (r: ApiError)
        ensures
            r@ == refusal(Status::BadRequest, context@),
    {
        ApiError::new(Status::BadRequest, context)
    }

    pub fn conflict(context: &str) -> (r: ApiError)
        ensures
            r@ == refusal(Status::Conflict, context@),
    {
        ApiError::new(Status::Conflict, context)
    }

    pub fn service_unavailable(context: &str) -> (r: ApiError)
        ensures
            r@ == refusal(Status::ServiceUnavailable, context@),
    {
        ApiError::new(Status::ServiceUnavailable, context)
    }

    pub fn internal(context: &str, err: &str) -> (r: ApiError)
        ensures
            r@ == failure(Status::InternalServerError, context@, err@),
    {
        ApiError::from_err(Status::InternalServerError, context, err)
    }
}

/// The context of a failure, as text.
pub(crate) fn context(handler: &str, what: &str) -> (r: String)
    ensures
        r@ == at(handler@, what@),
{
    handler.to_owned().concat(": ").concat(what)
}

/// A refusal by a handler.
pub(crate) fn refuse(status: Status, handler: &str, what: &str) -> (r: ApiError)
    ensures
        r@ == refusal(status, at(handler@, what@)),
{
    ApiError::new(status, context(handler, what).as_str())
}

/// A failure of a handler with a cause.
pub(crate) fn fail(status: Status, handler: &str, what: &str, cause: &str) -> (r: ApiError)
    ensures
        r@ == failure(status, at(handler@, what@), cause@),
{
    ApiError::from_err(status, context(handler, what).as_str(), cause)
}

/// Lists the codes that the service documents for its failures.
pub fn documented_codes() -> (r: Vec<u16>)
    ensures
        forall|code: u16| #[trigger] r@.contains(code) <==> documented(code),
        r@.no_duplicates(),
{
    let r: Vec<u16> = vec![400, 401, 403, 404, 409, 500, 503];
    proof {
        assert(r@[0] == 400 && r@[1] == 401 && r@[2] == 403 && r@[3] == 404 && r@[4] == 409
            && r@[5] == 500 && r@[6] == 503);
    }
    r
}

} // verus!
