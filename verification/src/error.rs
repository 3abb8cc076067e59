//! The failures that the service reports, and their form on the wire.
//!
//! An [`ErrorMessage`] is one of a closed set of reasons with a fixed text and a
//! fixed [`StatusClass`]. An [`HttpError`] pairs any text with a status class.
//! [`HttpError::into_http_response`] is the only place where a failure gets its
//! wire form: the status class it was built with, and an [`ErrorResponse`]
//! whose `status` is always `"fail"`.
//!
//! Two things come from outside: `serde_json` quotes the strings of the JSON
//! document, and the `http` crate, through axum, writes a status code out.

use vstd::prelude::*;
use crate::decimal::{append_decimal, decimal_text};
use crate::json::{is_plain, json_string, lemma_plain_text_escapes_to_itself, quote};

verus! {

/// The category of transport status that goes with a failure.
#[derive(Debug, Clone, Copy, PartialEq, Eq, Structural)]
pub enum StatusClass {
    /// The client sent input that cannot be accepted.
    BadRequest,
    /// The client is not, or no longer, authenticated.
    Unauthorized,
    /// The client is authenticated and may not do this.
    Forbidden,
    /// The request collides with what is stored.
    Conflict,
    /// The service itself failed.
    InternalServerError,
}

impl StatusClass {
    /// The numeric status code of the class.
    pub open spec fn status_code(self) -> u16 {
        match self {
            StatusClass::BadRequest => 400,
            StatusClass::Unauthorized => 401,
            StatusClass::Forbidden => 403,
            StatusClass::Conflict => 409,
            StatusClass::InternalServerError => 500,
        }
    }

    /// The numeric status code of the class.
    pub fn code(&self) -> (code: u16)
        ensures
            code == self.status_code(),
    {
        match self {
            StatusClass::BadRequest => 400,
            StatusClass::Unauthorized => 401,
            StatusClass::Forbidden => 403,
            StatusClass::Conflict => 409,
            StatusClass::InternalServerError => 500,
        }
    }
}

/// Whether `code` is the status code of one of the status classes.
pub open spec fn is_class_code(code: u16) -> bool {
    code == 400 || code == 401 || code == 403 || code == 409 || code == 500
}

/// The phrase that goes with the status code of a status class.
pub open spec fn reason_phrase(code: u16) -> Seq<char>
    recommends
        is_class_code(code),
{
    if code == 400 {
        "Bad Request"@
    } else if code == 401 {
        "Unauthorized"@
    } else if code == 403 {
        "Forbidden"@
    } else if code == 409 {
        "Conflict"@
    } else {
        "Internal Server Error"@
    }
}

/// A status code as it is shown: the code in decimal notation, a space, and
/// the phrase that goes with it.
pub open spec fn status_line(code: u16) -> Seq<char>
    recommends
        is_class_code(code),
{
    decimal_text(code as nat) + " "@ + reason_phrase(code)
}

/// The status code of a status class as it is shown.
///
/// Calls `StatusCode::from_u16` of the `http` crate, as axum hands it on, and
/// formats the status code that comes back with its `Display`. Not proved: that
/// each of the five codes is taken, and that the text is the code in decimal
/// notation, a space, and the phrase that the crate holds for the code.
#[verifier::external_body]
pub(crate) fn status_text(code: u16) -> (text: Option<String>)
    requires
        is_class_code(code),
    ensures
        text is Some,
        text.unwrap()@ == status_line(code),
{
    match axum::http::StatusCode::from_u16(code) {
        Ok(status) => Some(format!("{}", status)),
        Err(_) => None,
    }
}

/// Why an operation failed, whatever the transport.
#[derive(Debug, Clone, Copy, PartialEq, Eq, Structural)]
pub enum ErrorMessage {
    EmptyPassword,
    /// The password is longer than the given number of characters.
    ExceededMaxPasswordLength(usize),
    InvalidHashFormat,
    HashingError,
    InvalidToken,
    ServerError,
    WrongCredentials,
    EmailExist,
    UserNoLongerExist,
    TokenNotProvided,
    PermissionDenied,
    UserNotAuthenticated,
}

impl ErrorMessage {
    /// The text of the reason. Only the password-length reason has a part that
    /// varies: its limit, in decimal notation.
    pub open spec fn text(self) -> Seq<char> {
        match self {
            ErrorMessage::EmptyPassword => "Password cannot be empty"@,
            ErrorMessage::ExceededMaxPasswordLength(max_length) => {
                "Password must not be more than "@ + decimal_text(max_length as nat)
                    + " characters"@
            },
            ErrorMessage::InvalidHashFormat => "Invalid password hash format"@,
            ErrorMessage::HashingError => "Error while hashing password"@,
            ErrorMessage::InvalidToken => "Authentication token is invalid or expired"@,
            ErrorMessage::ServerError => "Server Error. Please try again later"@,
            ErrorMessage::WrongCredentials => "Email or password is wrong"@,
            ErrorMessage::EmailExist => "A user with this email already exists"@,
            ErrorMessage::UserNoLongerExist => "User belonging to this token no longer exists"@,
            ErrorMessage::TokenNotProvided => "You are not logged in, please provide a token"@,
            ErrorMessage::PermissionDenied => "You are not allowed to perform this action"@,
            ErrorMessage::UserNotAuthenticated => "Authentication required. Please log in."@,
        }
    }

    /// The status class of the reason.
    pub open spec fn class(self) -> StatusClass {
        match self {
            ErrorMessage::EmptyPassword => StatusClass::BadRequest,
            ErrorMessage::ExceededMaxPasswordLength(_) => StatusClass::BadRequest,
            ErrorMessage::InvalidHashFormat => StatusClass::InternalServerError,
            ErrorMessage::HashingError => StatusClass::InternalServerError,
            ErrorMessage::InvalidToken => StatusClass::Unauthorized,
            ErrorMessage::ServerError => StatusClass::InternalServerError,
            ErrorMessage::WrongCredentials => StatusClass::Unauthorized,
            ErrorMessage::EmailExist => StatusClass::Conflict,
            ErrorMessage::UserNoLongerExist => StatusClass::Unauthorized,
            ErrorMessage::TokenNotProvided => StatusClass::Unauthorized,
            ErrorMessage::PermissionDenied => StatusClass::Forbidden,
            ErrorMessage::UserNotAuthenticated => StatusClass::Unauthorized,
        }
    }

    /// The text of the reason.
    pub fn to_str(&self) -> (message: String)
        ensures
            message@ == self.text(),
    {
        match self {
            ErrorMessage::ServerError => "Server Error. Please try again later".to_owned(),
            ErrorMessage::WrongCredentials => "Email or password is wrong".to_owned(),
            ErrorMessage::EmailExist => "A user with this email already exists".to_owned(),
            ErrorMessage::UserNoLongerExist => {
                "User belonging to this token no longer exists".to_owned()
            },
            ErrorMessage::EmptyPassword => "Password cannot be empty".to_owned(),
            ErrorMessage::HashingError => "Error while hashing password".to_owned(),
            ErrorMessage::InvalidHashFormat => "Invalid password hash format".to_owned(),
            ErrorMessage::ExceededMaxPasswordLength(max_length) => {
                let mut message = "Password must not be more than ".to_owned();
                append_decimal(&mut message, *max_length);
                message.append(" characters");
                message
            },
            ErrorMessage::InvalidToken => "Authentication token is invalid or expired".to_owned(),
            ErrorMessage::TokenNotProvided => {
                "You are not logged in, please provide a token".to_owned()
            },
            ErrorMessage::PermissionDenied => {
                "You are not allowed to perform this action".to_owned()
            },
            ErrorMessage::UserNotAuthenticated => {
                "Authentication required. Please log in.".to_owned()
            },
        }
    }

    /// The status class of the reason.
    pub fn status(&self) -> (class: StatusClass)
        ensures
            class == self.class(),
    {
        match self {
            ErrorMessage::EmptyPassword | ErrorMessage::ExceededMaxPasswordLength(_) => {
                StatusClass::BadRequest
            },
            ErrorMessage::InvalidHashFormat
            | ErrorMessage::HashingError
            | ErrorMessage::ServerError => StatusClass::InternalServerError,
            ErrorMessage::InvalidToken
            | ErrorMessage::WrongCredentials
            | ErrorMessage::UserNoLongerExist
            | ErrorMessage::TokenNotProvided
            | ErrorMessage::UserNotAuthenticated => StatusClass::Unauthorized,
            ErrorMessage::EmailExist => StatusClass::Conflict,
            ErrorMessage::PermissionDenied => StatusClass::Forbidden,
        }
    }
}

impl ToString for ErrorMessage {
    /// The text of the reason.
    fn to_string(&self) -> (message: String)
        ensures
            message@ == self.text(),
    {
        self.to_str()
    }
}

/// What an [`ErrorResponse`] holds, as mathematical values.
pub struct ErrorResponseView {
    pub status: Seq<char>,
    pub message: Seq<char>,
}

/// The body that a client receives for a failure: two fields, no more.
#[derive(Debug, Clone)]
pub struct ErrorResponse {
    pub status: String,
    pub message: String,
}

impl View for ErrorResponse {
    type V = ErrorResponseView;

    open spec fn view(&self) -> ErrorResponseView {
        ErrorResponseView { status: self.status@, message: self.message@ }
    }
}

impl ErrorResponseView {
    /// The envelope of a failure with the given message.
    pub open spec fn fail(message: Seq<char>) -> ErrorResponseView {
        ErrorResponseView { status: "fail"@, message }
    }

    /// The body as a JSON document: one object with the key `status` and then
    /// the key `message`, each with its text as a JSON string, and nothing else.
    pub open spec fn json(self) -> Seq<char> {
        "{\"status\":"@ + json_string(self.status) + ",\"message\":"@ + json_string(self.message)
            + "}"@
    }
}

impl ErrorResponse {
    /// The body as a JSON document.
    pub fn to_json(&self) -> (document: String)
        ensures
            document@ == self@.json(),
    {
        let mut document = "{\"status\":".to_owned();
        match quote(self.status.as_str()) {
            Some(status) => document.append(status.as_str()),
            None => unreached(),
        }
        document.append(",\"message\":");
        match quote(self.message.as_str()) {
            Some(message) => document.append(message.as_str()),
            None => unreached(),
        }
        document.append("}");
        document
    }
}

/// What an [`HttpError`] holds, as mathematical values.
pub struct HttpErrorView {
    pub message: Seq<char>,
    pub status: StatusClass,
}

/// A failure as it is reported: a message for the client and the status class
/// under which it is sent.
#[derive(Debug, Clone)]
pub struct HttpError {
    pub message: String,
    pub status: StatusClass,
}

impl View for HttpError {
    type V = HttpErrorView;

    open spec fn view(&self) -> HttpErrorView {
        HttpErrorView { message: self.message@, status: self.status }
    }
}

impl HttpErrorView {
    /// The envelope under which the failure is sent.
    pub open spec fn envelope(self) -> ErrorResponseView {
        ErrorResponseView::fail(self.message)
    }

    /// The failure as one line of text, for a log or a terminal: its message,
    /// then its status code as it is shown.
    pub open spec fn text(self) -> Seq<char> {
        "HttpError: message: "@ + self.message + ", status: "@ + status_line(
            self.status.status_code(),
        )
    }
}

impl ToString for HttpError {
    /// The failure as one line of text.
    fn to_string(&self) -> (text: String)
        ensures
            text@ == self@.text(),
    {
        let mut text = "HttpError: message: ".to_owned();
        text.append(self.message.as_str());
        text.append(", status: ");
        match status_text(self.status.code()) {
            Some(status) => text.append(status.as_str()),
            None => unreached(),
        }
        text
    }
}

impl HttpError {
    /// A failure with the given message and status class.
    pub fn new(message: String, status: StatusClass) -> (error: HttpError)
        ensures
            error@ == (HttpErrorView { message: message@, status }),
    {
        HttpError { message, status }
    }

    /// A failure of the service itself.
    pub fn server_error(message: String) -> (error: HttpError)
        ensures
            error@ == (HttpErrorView {
                message: message@,
                status: StatusClass::InternalServerError,
            }),
    {
        HttpError { message, status: StatusClass::InternalServerError }
    }

    /// A failure caused by input that cannot be accepted.
    pub fn bad_request(message: String) -> (error: HttpError)
        ensures
            error@ == (HttpErrorView { message: message@, status: StatusClass::BadRequest }),
    {
        HttpError { message, status: StatusClass::BadRequest }
    }

    /// A failure caused by a value that is already taken.
    pub fn unique_constraint_violation(message: String) -> (error: HttpError)
        ensures
            error@ == (HttpErrorView { message: message@, status: StatusClass::Conflict }),
    {
        HttpError { message, status: StatusClass::Conflict }
    }

    /// A failure caused by missing or invalid authentication.
    pub fn unauthorized(message: String) -> (error: HttpError)
        ensures
            error@ == (HttpErrorView { message: message@, status: StatusClass::Unauthorized }),
    {
        HttpError { message, status: StatusClass::Unauthorized }
    }

    /// The failure for one of the fixed reasons: its text under its status class.
    pub fn from_reason(reason: ErrorMessage) -> (error: HttpError)
        ensures
            error@ == (HttpErrorView { message: reason.text(), status: reason.class() }),
    {
        HttpError { message: reason.to_str(), status: reason.status() }
    }

    /// The wire form of the failure: the status class it was built with, and the
    /// envelope that carries its message.
    pub fn into_http_response(self) -> (response: (StatusClass, ErrorResponse))
        ensures
            response.0 == self@.status,
            response.1@ == self@.envelope(),
    {
        let json_response = ErrorResponse { status: "fail".to_owned(), message: self.message };
        (self.status, json_response)
    }
}

/// Whether `error` is what one of the constructors of [`HttpError`] returns for
/// the message `message`, and `class` the status class that this constructor
/// fixes: the one handed to [`HttpError::new`], or the one that the constructor
/// is named after.
pub open spec fn built_with(error: HttpError, message: String, class: StatusClass) -> bool {
    ||| call_ensures(HttpError::new, (message, class), error)
    ||| class == StatusClass::InternalServerError && call_ensures(
        HttpError::server_error,
        (message,),
        error,
    )
    ||| class == StatusClass::BadRequest && call_ensures(HttpError::bad_request, (message,), error)
    ||| class == StatusClass::Conflict && call_ensures(
        HttpError::unique_constraint_violation,
        (message,),
        error,
    )
    ||| class == StatusClass::Unauthorized && call_ensures(
        HttpError::unauthorized,
        (message,),
        error,
    )
}

/// Asking a reason for its text twice gives the same text twice.
pub proof fn lemma_reason_text_repeats(reason: ErrorMessage, first: String, second: String)
    requires
        call_ensures(ErrorMessage::to_str, (&reason,), first),
        call_ensures(ErrorMessage::to_str, (&reason,), second),
    ensures
        first@ == second@,
        first@ == reason.text(),
{
}

/// The wire form depends on the failure alone: two failures with the same
/// message and status class are sent under the same status class, in envelopes
/// with the same fields.
pub proof fn lemma_response_is_a_function(
    first: HttpError,
    second: HttpError,
    first_response: (StatusClass, ErrorResponse),
    second_response: (StatusClass, ErrorResponse),
)
    requires
        first@ == second@,
        call_ensures(HttpError::into_http_response, (first,), first_response),
        call_ensures(HttpError::into_http_response, (second,), second_response),
    ensures
        first_response.0 == second_response.0,
        first_response.1@ == second_response.1@,
{
}

/// A failure is sent under the status class that its constructor fixed, with
/// the message that the constructor was given, in an envelope whose `status`
/// is `"fail"`.
pub proof fn lemma_response_keeps_construction(
    message: String,
    class: StatusClass,
    error: HttpError,
    response: (StatusClass, ErrorResponse),
)
    requires
        built_with(error, message, class),
        call_ensures(HttpError::into_http_response, (error,), response),
    ensures
        response.0 == class,
        response.1@.message == message@,
        response.1@.status == "fail"@,
{
}

/// A failure for one of the fixed reasons is sent under the status class of
/// the reason, with the text of the reason, in an envelope whose `status` is
/// `"fail"`.
pub proof fn lemma_response_keeps_reason(
    reason: ErrorMessage,
    error: HttpError,
    response: (StatusClass, ErrorResponse),
)
    requires
        call_ensures(HttpError::from_reason, (reason,), error),
        call_ensures(HttpError::into_http_response, (error,), response),
    ensures
        response.0 == reason.class(),
        response.1@.message == reason.text(),
        response.1@.status == "fail"@,
{
}

/// The envelope of every failure is, as a JSON document, one object with two
/// keys: `status` with the value `"fail"`, then `message` with the message of
/// the failure as a JSON string.
pub proof fn lemma_envelope_json(error: HttpError, response: (StatusClass, ErrorResponse))
    requires
        call_ensures(HttpError::into_http_response, (error,), response),
    ensures
        response.1@.json() == "{\"status\":\"fail\",\"message\":"@ + json_string(error@.message)
            + "}"@,
{
    reveal_strlit("fail");
    reveal_strlit("{\"status\":");
    reveal_strlit("{\"status\":\"fail\",\"message\":");
    reveal_strlit(",\"message\":");
    let fail = "fail"@;
    assert forall|i: int| 0 <= i < fail.len() implies is_plain(#[trigger] fail[i]) by {}
    lemma_plain_text_escapes_to_itself(fail);
    assert("{\"status\":"@ + json_string(fail) + ",\"message\":"@
        =~= "{\"status\":\"fail\",\"message\":"@);
}

} // verus!
