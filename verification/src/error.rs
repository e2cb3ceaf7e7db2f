//! The failures of the client.

use crate::text::{decimal, decimal_text, join2};
use vstd::prelude::*;
use vstd::string::StringExecFns;

verus! {

/// A failed operation on a file.
#[derive(Debug, Clone, PartialEq, Eq)]
pub struct IoError {
    /// Whether the operation failed because the file does not exist.
    pub not_found: bool,
    /// What the system said.
    pub message: String,
}

/// The mathematical value of an [`IoError`].
pub ghost struct IoErrorView {
    pub not_found: bool,
    pub message: Seq<char>,
}

impl View for IoError {
    type V = IoErrorView;

    open spec fn view(&self) -> IoErrorView {
        IoErrorView { not_found: self.not_found, message: self.message@ }
    }
}

/// The mathematical value of the result of an operation on a file.
pub open spec fn file_outcome<T>(r: Result<T, IoError>) -> Result<T, IoErrorView> {
    match r {
        Ok(value) => Ok(value),
        Err(failure) => Err(failure@),
    }
}

/// The mathematical value of what was read from a file.
pub open spec fn read_outcome(read: Result<String, IoError>) -> Result<
    Seq<char>,
    IoErrorView,
> {
    match read {
        Ok(text) => Ok(text@),
        Err(failure) => Err(failure@),
    }
}

/// Why a command failed.
#[derive(Debug, Clone, PartialEq, Eq)]
pub enum ZitadelCLIError {
    /// A request did not reach the server or its answer did not arrive.
    Reqwest(String),
    /// The server answered 401: the credential is not valid and the user has to
    /// log in again. Holds the answer's body.
    Unauthorized(String),
    /// The server answered with another status than the expected one.
    UnexpectedStatus { status: u16, body: String },
    /// A file could not be read, written or removed.
    IO(IoError),
    /// A text is not an absolute URL.
    URLParse(String),
    /// A text is not JSON, or not JSON of the expected shape.
    JSONParse(String),
    /// A required configuration variable is not set. Holds its name.
    Configuration(String),
}

/// The mathematical value of a [`ZitadelCLIError`].
pub ghost enum ErrorView {
    Reqwest(Seq<char>),
    Unauthorized(Seq<char>),
    UnexpectedStatus { status: u16, body: Seq<char> },
    IO(IoErrorView),
    URLParse(Seq<char>),
    JSONParse(Seq<char>),
    Configuration(Seq<char>),
}

impl View for ZitadelCLIError {
    type V = ErrorView;

    open spec fn view(&self) -> ErrorView {
        match self {
            ZitadelCLIError::Reqwest(m) => ErrorView::Reqwest(m@),
            ZitadelCLIError::Unauthorized(b) => ErrorView::Unauthorized(b@),
            ZitadelCLIError::UnexpectedStatus { status, body } => ErrorView::UnexpectedStatus {
                status: *status,
                body: body@,
            },
            ZitadelCLIError::IO(f) => ErrorView::IO(f@),
            ZitadelCLIError::URLParse(m) => ErrorView::URLParse(m@),
            ZitadelCLIError::JSONParse(m) => ErrorView::JSONParse(m@),
            ZitadelCLIError::Configuration(n) => ErrorView::Configuration(n@),
        }
    }
}

/// The mathematical value of a result of the library.
pub open spec fn outcome<T: View>(r: Result<T, ZitadelCLIError>) -> Result<T::V, ErrorView> {
    match r {
        Ok(value) => Ok(value@),
        Err(e) => Err(e@),
    }
}

/// The mathematical value of a result that holds texts, numbers or lists of
/// them.
pub open spec fn deep_outcome<T: DeepView>(r: Result<T, ZitadelCLIError>) -> Result<
    T::V,
    ErrorView,
> {
    match r {
        Ok(value) => Ok(value.deep_view()),
        Err(e) => Err(e@),
    }
}

/// The sentence that reports an error to the user.
pub open spec fn error_message(e: ErrorView) -> Seq<char> {
    match e {
        ErrorView::Reqwest(m) => "Network error: "@ + m,
        ErrorView::Unauthorized(b) =>
            "Invalid response: Invalid token or unauthorized access, please log in again: "@ + b,
        ErrorView::UnexpectedStatus { status, body } => "Invalid response: Unhandled status code "@
            + decimal(status as nat) + ": "@ + body,
        ErrorView::IO(f) => "IO error: "@ + f.message,
        ErrorView::URLParse(m) => "Failed to parse url: "@ + m,
        ErrorView::JSONParse(m) => "Failed to parse json:  "@ + m,
        ErrorView::Configuration(n) => n + " env variable not found"@,
    }
}

impl ZitadelCLIError {
    /// The sentence that reports this error to the user.
    pub fn message(&self) -> (text: String)
        ensures
            text@ == error_message(self@),
    {
        match self {
            ZitadelCLIError::Reqwest(m) => join2("Network error: ", m.as_str()),
            ZitadelCLIError::Unauthorized(b) => join2(
                "Invalid response: Invalid token or unauthorized access, please log in again: ",
                b.as_str(),
            ),
            ZitadelCLIError::UnexpectedStatus { status, body } => {
                let mut text = String::from_str("Invalid response: Unhandled status code ");
                text.append(decimal_text(*status as u64).as_str());
                text.append(": ");
                text.append(body.as_str());
                text
            },
            ZitadelCLIError::IO(f) => join2("IO error: ", f.message.as_str()),
            ZitadelCLIError::URLParse(m) => join2("Failed to parse url: ", m.as_str()),
            ZitadelCLIError::JSONParse(m) => join2("Failed to parse json:  ", m.as_str()),
            ZitadelCLIError::Configuration(n) => join2(n.as_str(), " env variable not found"),
        }
    }
}

} // verus!
