//! The core commands: those that neither show lines nor name a file.

use vstd::prelude::*;
use vstd::string::StrSliceExecFns;
use crate::cmd::first_char;
use crate::pattern::{captured, search, Captures, CapturesView};
use crate::pos::{Pos, Range};
use crate::error::{Error, ErrorType, ErrorView, ParseError, plain};

verus! {

/// A core command. Each is also a command of the full set, `cmd::Cmd`.
#[derive(Debug, Clone, Copy, PartialEq, Eq, Structural)]
pub enum Command {
    /// Take the lines that follow as text, to go in after the line that ends
    /// the range.
    EnterInsertMode(Range),
    /// End the session.
    Quit,
    /// Show how the range resolves.
    Debug(Range),
    /// Make the end of the range the current line.
    Jump(Range),
    /// Make the next line the current line.
    JumpNext,
}

/// The grammar of a line that holds a core command: a range and a command
/// character; either may be missing.
pub const COMMAND_RE: &'static str = r"^(?P<range>[%.,$\d]+)?(?P<cmd>[a-zA-Z?])?$";

/// The names of the groups of `COMMAND_RE`, in the order in which they are
/// read.
pub open spec fn command_groups() -> Seq<Seq<char>> {
    seq!["range"@, "cmd"@]
}

/// The failure for a line that holds no core command, with the line, or the
/// part of it at fault, as its message.
pub open spec fn unknown_command(text: Seq<char>) -> ErrorView {
    ErrorView { msg: text, error: ErrorType::ParseError(ParseError::UnknownCommand) }
}

impl Command {
    /// The core command that goes by the character `c`: `i`, `q` or `?`.
    pub open spec fn of_char(c: char, range: Range) -> Result<Command, ErrorView> {
        if c == 'i' {
            Ok(Command::EnterInsertMode(range))
        } else if c == 'q' {
            Ok(Command::Quit)
        } else if c == '?' {
            Ok(Command::Debug(range))
        } else {
            Err(ErrorView::bare(ErrorType::ParseError(ParseError::UnknownCommand)))
        }
    }

    /// The command that the groups of `COMMAND_RE` stand for, `text` being
    /// the line that was searched: the one that goes by the first character
    /// of `cmd`, or a jump where `cmd` took no part; on the range that
    /// `range` writes, or on the current line where `range` took no part.
    pub open spec fn of_captures(text: Seq<char>, found: CapturesView) -> Result<
        Command,
        ErrorView,
    > {
        match found {
            CapturesView::BadPattern(words) => Err(
                ErrorView { msg: words, error: ErrorType::Unknown },
            ),
            CapturesView::NoMatch => Err(unknown_command(text)),
            CapturesView::Groups(groups) => if groups.len() != 2 {
                Err(unknown_command(text))
            } else {
                match match groups[0] {
                    Some(range) => Range::parsed(range),
                    None => Ok(Range::Line(Pos::Current)),
                } {
                    Ok(range) => match groups[1] {
                        Some(cmd) => match first_char(cmd) {
                            Some(c) => Command::of_char(c, range),
                            None => Err(unknown_command(cmd)),
                        },
                        None => Ok(Command::Jump(range)),
                    },
                    Err(e) => Err(e),
                }
            },
        }
    }

    /// The core command that the line `text` writes; an empty line asks for
    /// the next line.
    pub open spec fn parsed(text: Seq<char>) -> Result<Command, ErrorView> {
        if text.len() == 0 {
            Ok(Command::JumpNext)
        } else {
            Command::of_captures(text, captured(COMMAND_RE@, text, command_groups()))
        }
    }

    /// The core command that goes by the character `c`, on `range`.
    pub fn from_char_and_range(c: char, range: Range) -> (r: Result<Command, Error>)
        ensures
            plain(r) == Command::of_char(c, range),
    {
        match c {
            'i' => Ok(Command::EnterInsertMode(range)),
            'q' => Ok(Command::Quit),
            '?' => Ok(Command::Debug(range)),
            _ => Err(Error::new(ErrorType::ParseError(ParseError::UnknownCommand))),
        }
    }

    /// Reads a core command from what a search of the line `text` for
    /// `COMMAND_RE` gave.
    pub fn from_captures(text: &str, found: Captures) -> (r: Result<Command, Error>)
        ensures
            plain(r) == Command::of_captures(text@, found@),
    {
        match found {
            Captures::BadPattern(words) => Err(Error::unknown(words.as_str())),
            Captures::NoMatch => Err(
                Error::detailed(ErrorType::ParseError(ParseError::UnknownCommand), text),
            ),
            Captures::Groups(groups) => {
                if groups.len() != 2 {
                    return Err(
                        Error::detailed(ErrorType::ParseError(ParseError::UnknownCommand), text),
                    );
                }
                let cmd_range = match &groups[0] {
                    Some(range) => match Range::from_str(range.as_str()) {
                        Ok(r) => r,
                        Err(e) => {
                            return Err(e);
                        },
                    },
                    None => Range::Line(Pos::Current),
                };
                match &groups[1] {
                    Some(cmd) => {
                        if cmd.as_str().unicode_len() > 0 {
                            Command::from_char_and_range(cmd.as_str().get_char(0), cmd_range)
                        } else {
                            Err(
                                Error::detailed(
                                    ErrorType::ParseError(ParseError::UnknownCommand),
                                    cmd.as_str(),
                                ),
                            )
                        }
                    },
                    None => Ok(Command::Jump(cmd_range)),
                }
            },
        }
    }

    /// Reads a line as a core command.
    pub fn from_str(s: &str) -> (r: Result<Command, Error>)
        ensures
            plain(r) == Command::parsed(s@),
    {
        if s.is_empty() {
            return Ok(Command::JumpNext);
        }
        let names = ["range", "cmd"];
        let found = search(COMMAND_RE, s, &names);
        Command::from_captures(s, found)
    }
}

} // verus!
