//! The closed set of failures that cross the service boundary, and the HTTP
//! status and message that each one is reported with.

use vstd::prelude::*;
use vstd::string::*;

verus! {

/// Every way a request can fail. Only the kind leaves the service; text from a
/// driver or a library never does.
#[derive(Debug, Clone, PartialEq, Eq)]
pub enum CustomError {
    /// The backing store failed.
    MongoError,
    /// A unique key is already taken; the payload names the value.
    DuplicateKey(String),
    /// The payload is not a well-formed identifier.
    InvalidIDError(String),
    /// No document matches; the payload names what was looked for.
    NotFoundError(String),
    WrongCredentials,
    MissingCredentials,
    TokenCreation,
    InvalidToken,
    TokenExpired,
    HashError,
    EmailTemplateError,
    R2Error,
    ReqwestError,
    SendEmailError,
}

/// `CustomError` with its payloads as character sequences.
pub enum ErrorKind {
    MongoError,
    DuplicateKey(Seq<char>),
    InvalidIDError(Seq<char>),
    NotFoundError(Seq<char>),
    WrongCredentials,
    MissingCredentials,
    TokenCreation,
    InvalidToken,
    TokenExpired,
    HashError,
    EmailTemplateError,
    R2Error,
    ReqwestError,
    SendEmailError,
}

impl View for CustomError {
    type V = ErrorKind;

    open spec fn view(&self) -> ErrorKind {
        match self {
            CustomError::MongoError => ErrorKind::MongoError,
            CustomError::DuplicateKey(key) => ErrorKind::DuplicateKey(key@),
            CustomError::InvalidIDError(id) => ErrorKind::InvalidIDError(id@),
            CustomError::NotFoundError(what) => ErrorKind::NotFoundError(what@),
            CustomError::WrongCredentials => ErrorKind::WrongCredentials,
            CustomError::MissingCredentials => ErrorKind::MissingCredentials,
            CustomError::TokenCreation => ErrorKind::TokenCreation,
            CustomError::InvalidToken => ErrorKind::InvalidToken,
            CustomError::TokenExpired => ErrorKind::TokenExpired,
            CustomError::HashError => ErrorKind::HashError,
            CustomError::EmailTemplateError => ErrorKind::EmailTemplateError,
            CustomError::R2Error => ErrorKind::R2Error,
            CustomError::ReqwestError => ErrorKind::ReqwestError,
            CustomError::SendEmailError => ErrorKind::SendEmailError,
        }
    }
}

impl ErrorKind {
    /// The HTTP status that the failure is answered with.
    pub open spec fn status(self) -> u16 {
        match self {
            ErrorKind::WrongCredentials => 401,
            ErrorKind::MissingCredentials => 400,
            ErrorKind::TokenCreation => 500,
            ErrorKind::InvalidToken => 401,
            ErrorKind::TokenExpired => 401,
            ErrorKind::MongoError => 500,
            ErrorKind::DuplicateKey(_) => 409,
            ErrorKind::InvalidIDError(_) => 400,
            ErrorKind::NotFoundError(_) => 404,
            ErrorKind::HashError => 406,
            ErrorKind::EmailTemplateError => 500,
            ErrorKind::R2Error => 500,
            ErrorKind::ReqwestError => 500,
            ErrorKind::SendEmailError => 500,
        }
    }

    /// The text that the failure is answered with.
    pub open spec fn message(self) -> Seq<char> {
        match self {
            ErrorKind::WrongCredentials => "Wrong credentials"@,
            ErrorKind::MissingCredentials => "Missing credentials"@,
            ErrorKind::TokenCreation => "RefreshToken creation error"@,
            ErrorKind::InvalidToken => "Invalid token"@,
            ErrorKind::TokenExpired => "RefreshToken is expired"@,
            ErrorKind::MongoError => "MongoDB error"@,
            ErrorKind::DuplicateKey(key) => key + " already exists"@,
            ErrorKind::InvalidIDError(id) => "Id "@ + id + " is invalid"@,
            ErrorKind::NotFoundError(what) => "Doc with "@ + what + " not found"@,
            ErrorKind::HashError => "Error when hashing"@,
            ErrorKind::EmailTemplateError => "Error when preparing email template"@,
            ErrorKind::R2Error => "Object storage error"@,
            ErrorKind::ReqwestError => "Error sending request"@,
            ErrorKind::SendEmailError => "Error sending email"@,
        }
    }

    /// The failure in words, as it is logged.
    pub open spec fn describe(self) -> Seq<char> {
        match self {
            ErrorKind::MongoError => "MongoDB error"@,
            ErrorKind::DuplicateKey(key) => "Duplicate key error: "@ + key,
            ErrorKind::InvalidIDError(id) => "Invalid ID: "@ + id,
            ErrorKind::NotFoundError(what) => "Not found: "@ + what,
            ErrorKind::WrongCredentials => "Wrong credentials"@,
            ErrorKind::MissingCredentials => "Missing credentials"@,
            ErrorKind::TokenCreation => "Error during token creation"@,
            ErrorKind::InvalidToken => "Invalid token"@,
            ErrorKind::TokenExpired => "RefreshToken expired"@,
            ErrorKind::HashError => "Hash error"@,
            ErrorKind::EmailTemplateError => "Email Template Error"@,
            ErrorKind::R2Error => "R2 error"@,
            ErrorKind::ReqwestError => "Reqwest error"@,
            ErrorKind::SendEmailError => "Error sending email"@,
        }
    }
}

/// The code with which the store refuses a write that would break a unique
/// index.
pub const DUPLICATE_KEY_CODE: i32 = 11000;

/// What a write that the store refused with `code` means, for a write of
/// the value `key`.
pub open spec fn write_failure_spec(code: i32, key: Seq<char>) -> ErrorKind {
    if code == DUPLICATE_KEY_CODE {
        ErrorKind::DuplicateKey(key)
    } else {
        ErrorKind::MongoError
    }
}

/// What a write that the store refused with `code` means, for a write of
/// the value `key`: a duplicate of the key where the code says so, else a
/// failure of the store.
pub fn write_failure(code: i32, key: String) -> (e: CustomError)
    ensures
        e@ == write_failure_spec(code, key@),
{
    if code == DUPLICATE_KEY_CODE {
        CustomError::DuplicateKey(key)
    } else {
        CustomError::MongoError
    }
}

impl CustomError {
    /// The failure in words, as it is logged.
    pub fn describe(&self) -> (text: String)
        ensures
            text@ == self@.describe(),
    {
        match self {
            CustomError::MongoError => "MongoDB error".to_owned(),
            CustomError::DuplicateKey(key) => "Duplicate key error: ".to_owned().concat(
                key.as_str(),
            ),
            CustomError::InvalidIDError(id) => "Invalid ID: ".to_owned().concat(id.as_str()),
            CustomError::NotFoundError(what) => "Not found: ".to_owned().concat(what.as_str()),
            CustomError::WrongCredentials => "Wrong credentials".to_owned(),
            CustomError::MissingCredentials => "Missing credentials".to_owned(),
            CustomError::TokenCreation => "Error during token creation".to_owned(),
            CustomError::InvalidToken => "Invalid token".to_owned(),
            CustomError::TokenExpired => "RefreshToken expired".to_owned(),
            CustomError::HashError => "Hash error".to_owned(),
            CustomError::EmailTemplateError => "Email Template Error".to_owned(),
            CustomError::R2Error => "R2 error".to_owned(),
            CustomError::ReqwestError => "Reqwest error".to_owned(),
            CustomError::SendEmailError => "Error sending email".to_owned(),
        }
    }

    /// The status code and the message that answer this failure.
    pub fn status_and_message(&self) -> (r: (u16, String))
        ensures
            r.0 == self@.status(),
            r.1@ == self@.message(),
    {
        match self {
            CustomError::WrongCredentials => (401, "Wrong credentials".to_owned()),
            CustomError::MissingCredentials => (400, "Missing credentials".to_owned()),
            CustomError::TokenCreation => (500, "RefreshToken creation error".to_owned()),
            CustomError::InvalidToken => (401, "Invalid token".to_owned()),
            CustomError::TokenExpired => (401, "RefreshToken is expired".to_owned()),
            CustomError::MongoError => (500, "MongoDB error".to_owned()),
            CustomError::DuplicateKey(key) => {
                let text = key.clone().concat(" already exists");
                (409, text)
            },
            CustomError::InvalidIDError(id) => {
                let text = "Id ".to_owned().concat(id.as_str()).concat(" is invalid");
                (400, text)
            },
            CustomError::NotFoundError(what) => {
                let text = "Doc with ".to_owned().concat(what.as_str()).concat(" not found");
                (404, text)
            },
            CustomError::HashError => (406, "Error when hashing".to_owned()),
            CustomError::EmailTemplateError => (
                500,
                "Error when preparing email template".to_owned(),
            ),
            CustomError::R2Error => (500, "Object storage error".to_owned()),
            CustomError::ReqwestError => (500, "Error sending request".to_owned()),
            CustomError::SendEmailError => (500, "Error sending email".to_owned()),
        }
    }
}

} // verus!
