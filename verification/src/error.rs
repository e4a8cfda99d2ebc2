//! Errors that the API answers with, and how the errors of the services it
//! talks to are turned into them.
use vstd::prelude::*;
use vstd::string::*;

verus! {

// ---------------------------------------------------------------------------
// Outside error types that reach the API's error handling.
// ---------------------------------------------------------------------------

/// The error that `deadpool` reports when no pooled connection can be had.
#[verifier::external_type_specification]
#[verifier::external_body]
#[verifier::reject_recursive_types(E)]
pub struct ExPoolError<E>(deadpool::managed::PoolError<E>);

/// The error that the `redis` client reports.
#[verifier::external_type_specification]
#[verifier::external_body]
pub struct ExRedisError(redis::RedisError);

/// The error that `strum` reports when a name matches no variant.
#[verifier::external_type_specification]
#[verifier::external_body]
pub struct ExStrumParseError(strum::ParseError);

/// The error of std's I/O.
#[verifier::external_type_specification]
#[verifier::external_body]
pub struct ExIoError(std::io::Error);

/// The text that `Display` gives for a `deadpool_redis::PoolError`
/// (deadpool's `impl Display for PoolError<E>`). Nothing is claimed of the
/// text: for a backend error it embeds the redis error's own text.
#[verifier::external_body]
fn pool_error_text(err: &deadpool_redis::PoolError) -> String {
    format!("{}", err)
}

/// The text that `Display` gives for a `redis::RedisError`
/// (redis's `impl Display for RedisError`). Nothing is claimed of the text:
/// it may embed what the server or the operating system reported.
#[verifier::external_body]
fn redis_error_text(err: &redis::RedisError) -> String {
    format!("{}", err)
}

/// The text that `Display` gives for a `strum::ParseError`. strum 0.20
/// has one variant, `VariantNotFound`, written as "Matching variant not
/// found"; the contract states exactly that.
#[verifier::external_body]
fn strum_parse_error_text(err: &strum::ParseError) -> (text: String)
    ensures
        text@ == parse_error_text(),
{
    format!("{}", err)
}

/// The text that `Display` gives for a `std::io::Error`. Nothing is claimed
/// of the text: it comes from the operating system.
#[verifier::external_body]
fn io_error_text(err: &std::io::Error) -> String {
    format!("{}", err)
}

/// What strum writes for its only parse error.
pub open spec fn parse_error_text() -> Seq<char> {
    "Matching variant not found"@
}

// ---------------------------------------------------------------------------
// The API's own errors.
// ---------------------------------------------------------------------------

/// The body of an error answer: a message and, where known, what caused it.
#[derive(Debug)]
pub struct Error {
    pub message: String,
    pub description: Option<String>,
}

/// An `Error` as plain values.
pub struct ErrorView {
    pub message: Seq<char>,
    pub description: Option<Seq<char>>,
}

pub open spec fn opt_string_view(o: Option<String>) -> Option<Seq<char>> {
    match o {
        Some(s) => Some(s@),
        None => None,
    }
}

impl View for Error {
    type V = ErrorView;

    open spec fn view(&self) -> ErrorView {
        ErrorView { message: self.message@, description: opt_string_view(self.description) }
    }
}

impl From<String> for Error {
    /// An error with `message` and no description.
    fn from(message: String) -> (e: Error) {
        Error { message, description: None }
    }
}

impl vstd::std_specs::convert::FromSpecImpl<String> for Error {
    open spec fn obeys_from_spec() -> bool {
        true
    }

    open spec fn from_spec(message: String) -> Error {
        Error { message, description: None }
    }
}

/// The kinds of error the API answers with; each carries its body.
#[derive(Debug)]
pub enum ApiError {
    UserError(Error),
    RedisPoolError(Error),
    RedisError(Error),
    EmptyModelError(Error),
    FormParsingError(Error),
    IOError(Error),
}

/// The kind of an `ApiError`, without its body.
#[derive(PartialEq, Eq, Structural, Clone, Copy, Debug)]
pub enum ApiErrorKind {
    UserError,
    RedisPoolError,
    RedisError,
    EmptyModelError,
    FormParsingError,
    IOError,
}

/// An `ApiError` as plain values.
pub struct ApiErrorView {
    pub kind: ApiErrorKind,
    pub body: ErrorView,
}

impl View for ApiError {
    type V = ApiErrorView;

    open spec fn view(&self) -> ApiErrorView {
        match self {
            ApiError::UserError(e) => ApiErrorView { kind: ApiErrorKind::UserError, body: e@ },
            ApiError::RedisPoolError(e) => ApiErrorView {
                kind: ApiErrorKind::RedisPoolError,
                body: e@,
            },
            ApiError::RedisError(e) => ApiErrorView { kind: ApiErrorKind::RedisError, body: e@ },
            ApiError::EmptyModelError(e) => ApiErrorView {
                kind: ApiErrorKind::EmptyModelError,
                body: e@,
            },
            ApiError::FormParsingError(e) => ApiErrorView {
                kind: ApiErrorKind::FormParsingError,
                body: e@,
            },
            ApiError::IOError(e) => ApiErrorView { kind: ApiErrorKind::IOError, body: e@ },
        }
    }
}

/// The HTTP status that answers an error of `kind`: a user error is the
/// client's fault (400), every other kind is the server's (500).
pub open spec fn status_of(kind: ApiErrorKind) -> u16 {
    match kind {
        ApiErrorKind::UserError => 400,
        _ => 500,
    }
}

/// The message of a pool error.
pub open spec fn pool_error_message() -> Seq<char> {
    "RedisPoolError: Unable to pool a connection to redis"@
}

/// The message of a redis error.
pub open spec fn redis_error_message() -> Seq<char> {
    "RedisError: Unable to parse result or missing key"@
}

/// The message of a form parsing error.
pub open spec fn form_parsing_error_message() -> Seq<char> {
    "FormParsingError: Unable to parse the incoming form"@
}

/// The message of an I/O error.
pub open spec fn io_error_message() -> Seq<char> {
    "IOError: Unable to read the bytes from model"@
}

/// The message when redis holds no model.
pub open spec fn empty_model_message() -> Seq<char> {
    "The model list in redis is empty"@
}

/// The description that records the cause `detail`.
pub open spec fn cause_description(detail: Seq<char>) -> Seq<char> {
    "From: "@ + detail
}

/// The error of `kind` with `message`, caused by what `detail` says.
pub open spec fn caused_error(kind: ApiErrorKind, message: Seq<char>, detail: Seq<char>) -> ApiErrorView {
    ApiErrorView {
        kind,
        body: ErrorView { message, description: Some(cause_description(detail)) },
    }
}

fn described(message: &str, detail: &str) -> (e: Error)
    ensures
        e@.message == message@,
        e@.description == Some(cause_description(detail@)),
{
    let d = String::from_str("From: ").concat(detail);
    Error { message: String::from_str(message), description: Some(d) }
}

impl ApiError {
    /// The kind of this error.
    pub fn kind(&self) -> (k: ApiErrorKind)
        ensures
            k == self@.kind,
    {
        match self {
            ApiError::UserError(_) => ApiErrorKind::UserError,
            ApiError::RedisPoolError(_) => ApiErrorKind::RedisPoolError,
            ApiError::RedisError(_) => ApiErrorKind::RedisError,
            ApiError::EmptyModelError(_) => ApiErrorKind::EmptyModelError,
            ApiError::FormParsingError(_) => ApiErrorKind::FormParsingError,
            ApiError::IOError(_) => ApiErrorKind::IOError,
        }
    }

    /// The body of this error.
    pub fn body(&self) -> (e: &Error)
        ensures
            e@ == self@.body,
    {
        match self {
            ApiError::UserError(e) => e,
            ApiError::RedisPoolError(e) => e,
            ApiError::RedisError(e) => e,
            ApiError::EmptyModelError(e) => e,
            ApiError::FormParsingError(e) => e,
            ApiError::IOError(e) => e,
        }
    }

    /// The HTTP status that answers this error.
    pub fn status(&self) -> (code: u16)
        ensures
            code == status_of(self@.kind),
    {
        match self {
            ApiError::UserError(_) => 400,
            _ => 500,
        }
    }

    /// The error answered when no connection can be had from the pool, where
    /// `detail` is what the pool reported.
    pub fn redis_pool_error(detail: &str) -> (e: ApiError)
        ensures
            e@ == caused_error(ApiErrorKind::RedisPoolError, pool_error_message(), detail@),
    {
        ApiError::RedisPoolError(
            described("RedisPoolError: Unable to pool a connection to redis", detail),
        )
    }

    /// The error answered when redis fails or answers what cannot be read,
    /// where `detail` is what the client reported.
    pub fn redis_error(detail: &str) -> (e: ApiError)
        ensures
            e@ == caused_error(ApiErrorKind::RedisError, redis_error_message(), detail@),
    {
        ApiError::RedisError(described("RedisError: Unable to parse result or missing key", detail))
    }

    /// The error answered when a form field names nothing known, where
    /// `detail` is what the parser reported.
    pub fn form_parsing_error(detail: &str) -> (e: ApiError)
        ensures
            e@ == caused_error(ApiErrorKind::FormParsingError, form_parsing_error_message(), detail@),
    {
        ApiError::FormParsingError(
            described("FormParsingError: Unable to parse the incoming form", detail),
        )
    }

    /// The error answered when the model's bytes cannot be read, where
    /// `detail` is what the system reported.
    pub fn io_error(detail: &str) -> (e: ApiError)
        ensures
            e@ == caused_error(ApiErrorKind::IOError, io_error_message(), detail@),
    {
        ApiError::IOError(described("IOError: Unable to read the bytes from model", detail))
    }

    /// The error answered when redis holds no model at all.
    pub fn empty_model_error() -> (e: ApiError)
        ensures
            e@.kind == ApiErrorKind::EmptyModelError,
            e@.body.message == empty_model_message(),
            e@.body.description is None,
    {
        ApiError::EmptyModelError(Error::from(String::from_str("The model list in redis is empty")))
    }

    /// The error for a failure of the connection pool.
    pub fn from_pool_error(err: &deadpool_redis::PoolError) -> (e: ApiError)
        ensures
            e@.kind == ApiErrorKind::RedisPoolError,
            e@.body.message == pool_error_message(),
            exists|detail: Seq<char>| e@ == caused_error(ApiErrorKind::RedisPoolError, pool_error_message(), detail),
    {
        let text = pool_error_text(err);
        ApiError::redis_pool_error(text.as_str())
    }

    /// The error for a failure of the redis client.
    pub fn from_redis_error(err: &redis::RedisError) -> (e: ApiError)
        ensures
            e@.kind == ApiErrorKind::RedisError,
            e@.body.message == redis_error_message(),
            exists|detail: Seq<char>| e@ == caused_error(ApiErrorKind::RedisError, redis_error_message(), detail),
    {
        let text = redis_error_text(err);
        ApiError::redis_error(text.as_str())
    }

    /// The error for a name that strum could not parse.
    pub fn from_parse_error(err: &strum::ParseError) -> (e: ApiError)
        ensures
            e@ == caused_error(ApiErrorKind::FormParsingError, form_parsing_error_message(), parse_error_text()),
    {
        let text = strum_parse_error_text(err);
        ApiError::form_parsing_error(text.as_str())
    }

    /// The error for a failure of std's I/O.
    pub fn from_io_error(err: &std::io::Error) -> (e: ApiError)
        ensures
            e@.kind == ApiErrorKind::IOError,
            e@.body.message == io_error_message(),
            exists|detail: Seq<char>| e@ == caused_error(ApiErrorKind::IOError, io_error_message(), detail),
    {
        let text = io_error_text(err);
        ApiError::io_error(text.as_str())
    }
}

} // verus!
