//! Failures: their kinds, and the messages they carry.

use vstd::prelude::*;
use crate::pos::Range;

verus! {

/// Why a line is no command.
#[derive(Debug, Clone, Copy, PartialEq, Eq, Structural)]
pub enum ParseError {
    /// The range is not of the grammar. The error's message is the text at
    /// fault.
    InvalidRange,
    /// An argument follows a command that takes none.
    UnexpectedArgument,
    /// No command goes by that character.
    UnknownCommand,
}

/// The kinds of failure.
#[derive(Debug, Clone, Copy, PartialEq, Eq, Structural)]
pub enum ErrorType {
    /// A failure that none of the other kinds names; the message says more.
    Unknown,
    /// The line is no command.
    ParseError(ParseError),
    /// Reading or writing a file failed.
    IoError,
    /// A position or a span of lines lies outside the buffer.
    OutOfBounds,
    /// The range, once resolved, selects no lines of the buffer.
    InvalidRange(Range),
    /// The action does not fit the mode the session is in.
    InvalidState,
    /// The current line was asked for and there is none.
    UndefinedCurrentLine,
    /// A write without a path, and no path on record.
    NoAssociatedPath,
}

/// A failure: its kind, and a message that may be empty.
#[derive(Debug, PartialEq, Eq)]
pub struct Error {
    pub msg: String,
    pub error: ErrorType,
}

/// An `Error` with its message as a sequence of characters.
pub struct ErrorView {
    pub msg: Seq<char>,
    pub error: ErrorType,
}

impl View for Error {
    type V = ErrorView;

    open spec fn view(&self) -> ErrorView {
        ErrorView { msg: self.msg@, error: self.error }
    }
}

impl ErrorView {
    /// The failure of kind `error` without a message.
    pub open spec fn bare(error: ErrorType) -> ErrorView {
        ErrorView { msg: Seq::empty(), error }
    }
}

/// A result whose value is plain, with its failure as a view.
pub open spec fn plain<T>(r: Result<T, Error>) -> Result<T, ErrorView> {
    match r {
        Ok(t) => Ok(t),
        Err(e) => Err(e@),
    }
}

/// A result with its value and its failure as views.
pub open spec fn viewed<T: View>(r: Result<T, Error>) -> Result<T::V, ErrorView> {
    match r {
        Ok(t) => Ok(t@),
        Err(e) => Err(e@),
    }
}

impl Error {
    /// A failure of no named kind, with a message.
    pub fn unknown(msg: &str) -> (e: Error)
        ensures
            e@ == (ErrorView { msg: msg@, error: ErrorType::Unknown }),
    {
        Error { msg: msg.to_owned(), error: ErrorType::Unknown }
    }

    /// A failure of the given kind, without a message.
    pub fn new(error: ErrorType) -> (e: Error)
        ensures
            e@ == ErrorView::bare(error),
    {
        Error { msg: String::new(), error }
    }

    /// A failure of the given kind, with a message.
    pub fn detailed(error: ErrorType, msg: &str) -> (e: Error)
        ensures
            e@ == (ErrorView { msg: msg@, error }),
    {
        Error { msg: msg.to_owned(), error }
    }
}

} // verus!
