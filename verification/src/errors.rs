//! What can go wrong.

use vstd::prelude::*;
use vstd::string::StringExecFns;

verus! {

/// A text or a response body that could not be read.
#[derive(Debug, Clone, Copy, PartialEq, Eq, Structural)]
pub enum ParseError {
    /// The last character of a window is neither `h` nor `d`, or there is none.
    InvalidUnit,
    /// What stands before the unit of a window is no number that fits.
    InvalidNumber,
    /// A response body does not hold the structured data that was asked for.
    InvalidBody,
}

/// Why an operation ended without its result.
#[derive(Debug, Clone, PartialEq, Eq)]
pub enum Error {
    /// No project of the group has the name that was asked for.
    NotFound(String),
    /// The platform answered with a status that is no success.
    HttpStatus { code: u16, message: String },
    /// A window or a response body could not be read.
    Parse(ParseError),
    /// Pipelines were asked for without a branch.
    MissingBranch,
    /// A request did not reach the platform, or no response came back.
    Transport(String),
    /// No token is stored: nobody has logged in.
    NotLoggedIn,
    /// The place where the token is stored could not be read or written.
    Storage(String),
}

/// What an error holds.
pub enum ErrorView {
    NotFound(Seq<char>),
    HttpStatus { code: u16, message: Seq<char> },
    Parse(ParseError),
    MissingBranch,
    Transport(Seq<char>),
    NotLoggedIn,
    Storage(Seq<char>),
}

impl View for Error {
    type V = ErrorView;

    open spec fn view(&self) -> ErrorView {
        match self {
            Error::NotFound(name) => ErrorView::NotFound(name@),
            Error::HttpStatus { code, message } => ErrorView::HttpStatus {
                code: *code,
                message: message@,
            },
            Error::Parse(e) => ErrorView::Parse(*e),
            Error::MissingBranch => ErrorView::MissingBranch,
            Error::Transport(message) => ErrorView::Transport(message@),
            Error::NotLoggedIn => ErrorView::NotLoggedIn,
            Error::Storage(message) => ErrorView::Storage(message@),
        }
    }
}

/// What is said of a text or body that could not be read.
pub open spec fn parse_message(e: ParseError) -> Seq<char> {
    match e {
        ParseError::InvalidUnit => "Invalid time unit, use 'h' for hours or 'd' for days."@,
        ParseError::InvalidNumber => "Invalid number format"@,
        ParseError::InvalidBody => "Invalid response body"@,
    }
}

impl ErrorView {
    /// What is said of the error.
    pub open spec fn message(self) -> Seq<char> {
        match self {
            ErrorView::NotFound(name) => "Project '"@ + name + "' not found"@,
            ErrorView::HttpStatus { code, message } => message,
            ErrorView::Parse(e) => parse_message(e),
            ErrorView::MissingBranch => "A branch is required to list pipelines"@,
            ErrorView::Transport(message) => message,
            ErrorView::NotLoggedIn =>
                "Please login first using 'devopscli login --token' command"@,
            ErrorView::Storage(message) => message,
        }
    }
}

impl ParseError {
    /// What is said of the error.
    pub fn message(&self) -> (said: String)
        ensures
            said@ == parse_message(*self),
    {
        match self {
            ParseError::InvalidUnit => String::from_str(
                "Invalid time unit, use 'h' for hours or 'd' for days.",
            ),
            ParseError::InvalidNumber => String::from_str("Invalid number format"),
            ParseError::InvalidBody => String::from_str("Invalid response body"),
        }
    }
}

impl Error {
    /// What is said of the error.
    pub fn message(&self) -> (said: String)
        ensures
            said@ == self@.message(),
    {
        match self {
            Error::NotFound(name) => {
                let mut said = String::from_str("Project '");
                said.append(name.as_str());
                said.append("' not found");
                said
            },
            Error::HttpStatus { code, message } => message.clone(),
            Error::Parse(e) => e.message(),
            Error::MissingBranch => String::from_str("A branch is required to list pipelines"),
            Error::Transport(message) => message.clone(),
            Error::NotLoggedIn => String::from_str(
                "Please login first using 'devopscli login --token' command",
            ),
            Error::Storage(message) => message.clone(),
        }
    }
}

} // verus!
