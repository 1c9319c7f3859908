//! The error that a handler answers with: an HTTP status and, for errors the
//! client caused, a message that is sent back as a JSON body.
use vstd::prelude::*;
use vstd::std_specs::convert::FromSpecImpl;
use crate::clients::random_number_service::RandomNumberServiceError;
use crate::handlers::error_test::CheckNumberError;

verus! {

/// 400 Bad Request.
pub const BAD_REQUEST: u16 = 400;
/// 404 Not Found.
pub const NOT_FOUND: u16 = 404;
/// 500 Internal Server Error.
pub const INTERNAL_SERVER_ERROR: u16 = 500;

/// The HTTP status codes: three decimal digits, from 100 to 999.
pub open spec fn is_status_code(code: u16) -> bool {
    100 <= code <= 999
}

/// What an [`AppError`] holds: its status and, if any, its message.
pub struct ErrorView {
    pub code: u16,
    pub message: Option<Seq<char>>,
}

/// The view of an error with the given status and no message.
pub open spec fn bare_error(code: u16) -> ErrorView {
    ErrorView { code, message: None }
}

/// The view of an error with the given status and message.
pub open spec fn error_with_message(code: u16, message: Seq<char>) -> ErrorView {
    ErrorView { code, message: Some(message) }
}

/// A failure together with the printable message attached to it, which says
/// what went wrong with which value.
#[derive(Debug, Clone, PartialEq, Eq)]
pub struct Failure<C> {
    pub context: C,
    pub message: String,
}

/// A handler's answer, seen as its body or its error.
pub open spec fn reply_view(r: Result<String, AppError>) -> Result<Seq<char>, ErrorView> {
    match r {
        Ok(body) => Ok(body@),
        Err(e) => Err(e@),
    }
}

/// An error answered to the client: an HTTP status and an optional message.
#[derive(Debug, PartialEq, Eq)]
pub struct AppError {
    code: u16,
    message: Option<String>,
}

impl View for AppError {
    type V = ErrorView;

    closed spec fn view(&self) -> ErrorView {
        ErrorView {
            code: self.code,
            message: match self.message {
                Some(m) => Some(m@),
                None => None,
            },
        }
    }
}

/// The body sent with an error that carries a message: `{"message": ...}`.
#[derive(Debug, PartialEq, Eq)]
pub struct ErrorResponse {
    message: String,
}

impl View for ErrorResponse {
    type V = Seq<char>;

    closed spec fn view(&self) -> Seq<char> {
        self.message@
    }
}

impl ErrorResponse {
    /// A body that carries `message`.
    pub fn new(message: String) -> (r: ErrorResponse)
        ensures
            r@ == message@,
    {
        ErrorResponse { message }
    }

    /// The message this body carries.
    pub fn message(&self) -> (m: &str)
        ensures
            m@ == self@,
    {
        self.message.as_str()
    }
}

impl AppError {
    #[verifier::type_invariant]
    spec fn status_is_valid(self) -> bool {
        is_status_code(self.code)
    }

    /// The value of [`AppError::server_error`].
    pub closed spec fn spec_server_error() -> AppError {
        AppError { code: INTERNAL_SERVER_ERROR, message: None }
    }

    /// Every failure that reaches a handler as a report is answered as
    /// [`AppError::server_error`]: a 500 with no message.
    pub proof fn report_is_server_error()
        ensures
            AppError::spec_server_error()@ == bare_error(INTERNAL_SERVER_ERROR),
    {
    }

    /// An error with the given status and message.
    pub fn new(code: u16, message: String) -> (e: AppError)
        requires
            is_status_code(code),
        ensures
            e@ == error_with_message(code, message@),
    {
        AppError { code, message: Some(message) }
    }

    /// A 400 Bad Request with the given message.
    pub fn bad_request(message: String) -> (e: AppError)
        ensures
            e@ == error_with_message(BAD_REQUEST, message@),
    {
        AppError { code: BAD_REQUEST, message: Some(message) }
    }

    /// A 404 Not Found, with no message.
    pub fn not_found() -> (e: AppError)
        ensures
            e@ == bare_error(NOT_FOUND),
    {
        AppError { code: NOT_FOUND, message: None }
    }

    /// A 500 Internal Server Error, with no message.
    pub fn server_error() -> (e: AppError)
        ensures
            e@ == bare_error(INTERNAL_SERVER_ERROR),
            e == AppError::spec_server_error(),
    {
        AppError { code: INTERNAL_SERVER_ERROR, message: None }
    }

    /// The status of this error.
    pub fn code(&self) -> (c: u16)
        ensures
            c == self@.code,
            is_status_code(c),
    {
        proof {
            use_type_invariant(self);
        }
        self.code
    }

    /// The message of this error, if it has one.
    pub fn message(&self) -> (m: Option<&str>)
        ensures
            self@.message == (match m {
                Some(s) => Some(s@),
                None => None::<Seq<char>>,
            }),
    {
        match &self.message {
            Some(s) => Some(s.as_str()),
            None => None,
        }
    }

    /// The response this error is answered with: its status, and a JSON body
    /// carrying the message when there is one (no body otherwise).
    pub fn into_response(self) -> (r: (u16, Option<ErrorResponse>))
        ensures
            r.0 == self@.code,
            is_status_code(r.0),
            self@.message == (match r.1 {
                Some(body) => Some(body@),
                None => None::<Seq<char>>,
            }),
    {
        proof {
            use_type_invariant(&self);
        }
        let code = self.code;
        match self.message {
            Some(message) => (code, Some(ErrorResponse::new(message))),
            None => (code, None),
        }
    }

    /// The text this error displays as.
    pub fn to_string(&self) -> (s: String)
        ensures
            s@ == "Application Error"@,
    {
        String::from_str("Application Error")
    }
}

/// A failed call to the random number service is answered with a 500.
impl From<RandomNumberServiceError> for AppError {
    fn from(err: RandomNumberServiceError) -> (e: AppError) {
        AppError::server_error()
    }
}

impl FromSpecImpl<RandomNumberServiceError> for AppError {
    open spec fn obeys_from_spec() -> bool {
        true
    }

    open spec fn from_spec(v: RandomNumberServiceError) -> AppError {
        AppError::spec_server_error()
    }
}

/// A failed check of the secret number is answered with a 500.
impl From<CheckNumberError> for AppError {
    fn from(err: CheckNumberError) -> (e: AppError) {
        AppError::server_error()
    }
}

impl FromSpecImpl<CheckNumberError> for AppError {
    open spec fn obeys_from_spec() -> bool {
        true
    }

    open spec fn from_spec(v: CheckNumberError) -> AppError {
        AppError::spec_server_error()
    }
}

} // verus!
