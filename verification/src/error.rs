use vstd::prelude::*;

verus! {

/// The report type of `eyre`, carried through as an opaque value.
#[verifier::external_type_specification]
#[verifier::external_body]
pub struct ExReport(eyre::Report);

/// An error of a route, which becomes an HTTP response.
#[derive(Debug)]
pub enum Error {
    ServerError(eyre::Report),
    InvalidOtp,
    InvalidEmail,
}

/// The outcome of a route.
pub type RouteResult<T> = Result<T, Error>;

/// The status and body of the response that an error becomes.
pub struct ErrorResponse {
    pub status: u16,
    pub body: String,
}

/// The HTTP status of an error: 500 for a server error, 422 otherwise.
pub open spec fn error_status(e: &Error) -> u16 {
    match e {
        Error::ServerError(_) => 500,
        _ => 422,
    }
}

/// The message of an error.
pub open spec fn error_message(e: &Error) -> Seq<char> {
    match e {
        Error::ServerError(_) => "internal server error"@,
        Error::InvalidOtp => "invalid OTP code"@,
        Error::InvalidEmail => "invalid email"@,
    }
}

impl Error {
    /// The message shown for the error.
    pub fn message(&self) -> (text: String)
        ensures
            text@ == error_message(self),
    {
        match self {
            Error::ServerError(_) => String::from_str("internal server error"),
            Error::InvalidOtp => String::from_str("invalid OTP code"),
            Error::InvalidEmail => String::from_str("invalid email"),
        }
    }

    /// The HTTP status of the error.
    pub fn status(&self) -> (code: u16)
        ensures
            code == error_status(self),
    {
        match self {
            Error::ServerError(_) => 500,
            _ => 422,
        }
    }

    /// The response the error becomes: its status, and its message as the body.
    pub fn into_response(self) -> (response: ErrorResponse)
        ensures
            response.status == error_status(&self),
            response.body@ == error_message(&self),
    {
        let status = self.status();
        let body = self.message();
        ErrorResponse { status, body }
    }
}

impl From<eyre::Report> for Error {
    fn from(value: eyre::Report) -> (e: Self) {
        Error::ServerError(value)
    }
}

impl vstd::std_specs::convert::FromSpecImpl<eyre::Report> for Error {
    open spec fn obeys_from_spec() -> bool {
        true
    }

    open spec fn from_spec(v: eyre::Report) -> Self {
        Error::ServerError(v)
    }
}

impl<T> From<Error> for RouteResult<T> {
    fn from(value: Error) -> (r: Self) {
        Err(value)
    }
}

impl<T> vstd::std_specs::convert::FromSpecImpl<Error> for RouteResult<T> {
    open spec fn obeys_from_spec() -> bool {
        true
    }

    open spec fn from_spec(v: Error) -> Self {
        Err(v)
    }
}

} // verus!
