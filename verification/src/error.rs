//! Why a request fails, and how each failure is reported.

use vstd::prelude::*;

verus! {

/// The failure of a request.
///
/// The variants that stand for a failure outside this library (the
/// relational store, its migrations, the file system, the JSON decoder)
/// carry that failure's message.
#[derive(Debug, Clone, PartialEq, Eq)]
pub enum Error {
    /// The bearer token is missing, malformed, unknown or expired.
    Unauthorized,
    /// The relational store failed.
    Mysql(String),
    /// The grant was refused: a wrong client, secret, code or refresh token,
    /// or a code past its expiry.
    InvalidGrant,
    /// The schema migrations failed.
    Refinery(String),
    /// An input or output operation failed.
    Io(String),
    /// The request body is not the JSON that the protocol asks for.
    SerdeJson(String),
    /// The protocol payload is malformed or incomplete.
    BadRequest,
}

pub type WebResult<T> = Result<T, Error>;

/// The HTTP status that reports a failure: 401 for a missing authorization,
/// 400 for what the client got wrong, 500 for what failed on this side.
pub open spec fn status_of(e: Error) -> int {
    match e {
        Error::Unauthorized => 401,
        Error::Mysql(_) => 500,
        Error::InvalidGrant => 400,
        Error::Refinery(_) => 500,
        Error::Io(_) => 500,
        Error::SerdeJson(_) => 400,
        Error::BadRequest => 400,
    }
}

/// The text that reports a failure.
pub open spec fn message_of(e: Error) -> Seq<char> {
    match e {
        Error::Unauthorized => "Unauthorized"@,
        Error::Mysql(m) => m@,
        Error::InvalidGrant => "{\"error\":\"invalid_grant\"}"@,
        Error::Refinery(m) => m@,
        Error::Io(m) => m@,
        Error::SerdeJson(m) => m@,
        Error::BadRequest => "Bad Request"@,
    }
}

impl Error {
    /// The HTTP status of the response that reports this failure.
    pub fn status_code(&self) -> (code: u16)
        ensures
            code == status_of(*self),
    {
        match self {
            Error::Unauthorized => 401,
            Error::Mysql(_) => 500,
            Error::InvalidGrant => 400,
            Error::Refinery(_) => 500,
            Error::Io(_) => 500,
            Error::SerdeJson(_) => 400,
            Error::BadRequest => 400,
        }
    }

    /// The body of the response that reports this failure.
    pub fn message(&self) -> (text: String)
        ensures
            text@ == message_of(*self),
    {
        match self {
            Error::Unauthorized => String::from_str("Unauthorized"),
            Error::Mysql(m) => m.clone(),
            Error::InvalidGrant => String::from_str("{\"error\":\"invalid_grant\"}"),
            Error::Refinery(m) => m.clone(),
            Error::Io(m) => m.clone(),
            Error::SerdeJson(m) => m.clone(),
            Error::BadRequest => String::from_str("Bad Request"),
        }
    }
}

} // verus!
