//! Commands, and how a line of input is read as one.

use vstd::prelude::*;
use vstd::string::StrSliceExecFns;
use crate::pattern::{captured, search, text_view, Captures, CapturesView};
use crate::pos::{Pos, Range};
use crate::ui::PrintOption;
use crate::util::FlipResultOption;
use crate::error::{viewed, Error, ErrorType, ErrorView, ParseError};

verus! {

/// What the user asks of the session.
#[derive(Debug, PartialEq, Eq)]
pub enum Cmd {
    /// Take the lines that follow as text, to go in after the line that ends
    /// the range. (In `ed` itself `i` puts the text before that line.)
    EnterInsertMode(Range),
    /// End the session.
    Quit,
    /// Show how the range resolves.
    Debug(Range),
    /// Make the end of the range the current line, and show it.
    Jump(Range),
    /// Make the next line the current line, and show it.
    JumpNext,
    /// Show the lines of the range.
    Print(Range, PrintOption),
    /// Show the number of the line that ends the range.
    PrintLineNumber(Range),
    /// Replace the buffer by the file at that path.
    Read(String),
    /// Write the buffer to the file at that path, or to the path on record.
    Write(Option<String>),
}

/// A `Cmd` with its strings as sequences of characters.
pub enum CmdView {
    EnterInsertMode(Range),
    Quit,
    Debug(Range),
    Jump(Range),
    JumpNext,
    Print(Range, PrintOption),
    PrintLineNumber(Range),
    Read(Seq<char>),
    Write(Option<Seq<char>>),
}

impl View for Cmd {
    type V = CmdView;

    open spec fn view(&self) -> CmdView {
        match *self {
            Cmd::EnterInsertMode(r) => CmdView::EnterInsertMode(r),
            Cmd::Quit => CmdView::Quit,
            Cmd::Debug(r) => CmdView::Debug(r),
            Cmd::Jump(r) => CmdView::Jump(r),
            Cmd::JumpNext => CmdView::JumpNext,
            Cmd::Print(r, option) => CmdView::Print(r, option),
            Cmd::PrintLineNumber(r) => CmdView::PrintLineNumber(r),
            Cmd::Read(path) => CmdView::Read(path@),
            Cmd::Write(path) => CmdView::Write(text_view(path)),
        }
    }
}

/// The grammar of a line of input: a range, a command character and, after
/// one space, an argument; each may be missing.
pub const COMMAND_RE: &'static str =
    r"^((?P<range>[%.,$\d]+)?(?P<cmd>[a-zA-Z?=])?( (?P<arg>.*))?)$";

/// The names of the groups of `COMMAND_RE`, in the order in which they are
/// read.
pub open spec fn command_groups() -> Seq<Seq<char>> {
    seq!["range"@, "cmd"@, "arg"@]
}

/// The parts of a line of input.
#[derive(Debug, PartialEq, Eq)]
pub struct ParsedData {
    pub cmd_char: Option<char>,
    pub range: Option<Range>,
    pub arg: Option<String>,
}

/// A `ParsedData` with its argument as a sequence of characters.
pub struct ParsedDataView {
    pub cmd_char: Option<char>,
    pub range: Option<Range>,
    pub arg: Option<Seq<char>>,
}

impl View for ParsedData {
    type V = ParsedDataView;

    open spec fn view(&self) -> ParsedDataView {
        ParsedDataView { cmd_char: self.cmd_char, range: self.range, arg: text_view(self.arg) }
    }
}

/// The failure of that kind of misreading, without a message.
pub open spec fn misread(kind: ParseError) -> ErrorView {
    ErrorView::bare(ErrorType::ParseError(kind))
}

/// The first character of a text.
pub open spec fn first_char(text: Seq<char>) -> Option<char> {
    if text.len() > 0 {
        Some(text[0])
    } else {
        None
    }
}

impl ParsedDataView {
    /// The range of the command: the one given, else the current line.
    pub open spec fn range_or_current(self) -> Range {
        match self.range {
            Some(r) => r,
            None => Range::Line(Pos::Current),
        }
    }

    /// `cmd`, for a command that takes no argument.
    pub open spec fn without_arg(self, cmd: CmdView) -> Result<CmdView, ErrorView> {
        match self.arg {
            None => Ok(cmd),
            Some(_) => Err(misread(ParseError::UnexpectedArgument)),
        }
    }

    /// The command that the parts make.
    ///
    /// No parts at all ask for the next line. A range alone is a jump. `i`,
    /// `q`, `p`, `n`, `l`, `=` and `?` take no argument. `e` and `w` take a
    /// path and pay no heed to a range; without an argument `e` names the
    /// empty path and `w` names none. Another character is no command,
    /// whatever follows it.
    pub open spec fn command(self) -> Result<CmdView, ErrorView> {
        let range = self.range_or_current();
        match self.cmd_char {
            None => if self.range is None && self.arg is None {
                Ok(CmdView::JumpNext)
            } else {
                self.without_arg(CmdView::Jump(range))
            },
            Some(c) => if c == 'i' {
                self.without_arg(CmdView::EnterInsertMode(range))
            } else if c == 'q' {
                self.without_arg(CmdView::Quit)
            } else if c == 'p' {
                self.without_arg(CmdView::Print(range, PrintOption::Normal))
            } else if c == 'n' {
                self.without_arg(CmdView::Print(range, PrintOption::Numbered))
            } else if c == 'l' {
                self.without_arg(CmdView::Print(range, PrintOption::LineEndings))
            } else if c == '=' {
                self.without_arg(CmdView::PrintLineNumber(range))
            } else if c == '?' {
                self.without_arg(CmdView::Debug(range))
            } else if c == 'e' {
                Ok(
                    CmdView::Read(
                        match self.arg {
                            Some(path) => path,
                            None => Seq::empty(),
                        },
                    ),
                )
            } else if c == 'w' {
                Ok(CmdView::Write(self.arg))
            } else {
                Err(misread(ParseError::UnknownCommand))
            },
        }
    }

    /// The parts that the groups of `COMMAND_RE` stand for: the range that
    /// `range` writes, the first character of `cmd`, and `arg` as it is. A
    /// line that the pattern does not match holds no known command.
    pub open spec fn of_captures(found: CapturesView) -> Result<ParsedDataView, ErrorView> {
        match found {
            CapturesView::BadPattern(words) => Err(
                ErrorView { msg: words, error: ErrorType::Unknown },
            ),
            CapturesView::NoMatch => Err(misread(ParseError::UnknownCommand)),
            CapturesView::Groups(groups) => if groups.len() != 3 {
                Err(misread(ParseError::UnknownCommand))
            } else {
                let cmd_char = match groups[1] {
                    Some(c) => first_char(c),
                    None => None,
                };
                match groups[0] {
                    Some(text) => match Range::parsed(text) {
                        Ok(r) => Ok(
                            ParsedDataView { cmd_char, range: Some(r), arg: groups[2] },
                        ),
                        Err(e) => Err(e),
                    },
                    None => Ok(ParsedDataView { cmd_char, range: None, arg: groups[2] }),
                }
            },
        }
    }

    /// The parts of the line `text`.
    pub open spec fn parsed(text: Seq<char>) -> Result<ParsedDataView, ErrorView> {
        if text.len() == 0 {
            Ok(ParsedDataView { cmd_char: None, range: None, arg: None })
        } else {
            ParsedDataView::of_captures(captured(COMMAND_RE@, text, command_groups()))
        }
    }
}

/// `cmd`, where there is no argument.
pub fn expect_no_arg(arg: &Option<String>, cmd: Cmd) -> (r: Result<Cmd, Error>)
    ensures
        viewed(r) == match text_view(*arg) {
            None => Ok::<CmdView, ErrorView>(cmd@),
            Some(_) => Err(misread(ParseError::UnexpectedArgument)),
        },
{
    match *arg {
        None => Ok(cmd),
        _ => Err(Error::new(ErrorType::ParseError(ParseError::UnexpectedArgument))),
    }
}

impl ParsedData {
    /// Whether no part is there.
    pub fn is_empty(&self) -> (b: bool)
        ensures
            b == (self.cmd_char is None && self.range is None && self.arg is None),
    {
        self.cmd_char.is_none() && self.range.is_none() && self.arg.is_none()
    }

    /// No parts: what an empty line holds.
    pub fn empty() -> (data: ParsedData)
        ensures
            data@ == (ParsedDataView { cmd_char: None, range: None, arg: None }),
    {
        ParsedData { cmd_char: None, range: None, arg: None }
    }

    /// The command that the parts make.
    pub fn to_cmd(self) -> (r: Result<Cmd, Error>)
        ensures
            viewed(r) == self@.command(),
    {
        if self.is_empty() {
            return Ok(Cmd::JumpNext);
        }
        let range = match self.range {
            Some(r) => r,
            None => Range::current_line(),
        };
        if let Some(c) = self.cmd_char {
            match c {
                'i' => expect_no_arg(&self.arg, Cmd::EnterInsertMode(range)),
                'q' => expect_no_arg(&self.arg, Cmd::Quit),
                'p' => expect_no_arg(&self.arg, Cmd::Print(range, PrintOption::Normal)),
                'n' => expect_no_arg(&self.arg, Cmd::Print(range, PrintOption::Numbered)),
                'l' => expect_no_arg(&self.arg, Cmd::Print(range, PrintOption::LineEndings)),
                '=' => expect_no_arg(&self.arg, Cmd::PrintLineNumber(range)),
                '?' => expect_no_arg(&self.arg, Cmd::Debug(range)),
                'e' => Ok(
                    Cmd::Read(
                        match self.arg {
                            Some(path) => path,
                            None => String::new(),
                        },
                    ),
                ),
                'w' => Ok(Cmd::Write(self.arg)),
                _ => Err(Error::new(ErrorType::ParseError(ParseError::UnknownCommand))),
            }
        } else {
            expect_no_arg(&self.arg, Cmd::Jump(range))
        }
    }

    /// Reads the parts of a line from what a search of it for `COMMAND_RE`
    /// gave.
    pub fn from_captures(found: Captures) -> (r: Result<ParsedData, Error>)
        ensures
            viewed(r) == ParsedDataView::of_captures(found@),
    {
        match found {
            Captures::BadPattern(words) => Err(Error::unknown(words.as_str())),
            Captures::NoMatch => Err(
                Error::new(ErrorType::ParseError(ParseError::UnknownCommand)),
            ),
            Captures::Groups(groups) => {
                if groups.len() != 3 {
                    return Err(Error::new(ErrorType::ParseError(ParseError::UnknownCommand)));
                }
                let mut groups = groups;
                let cmd_arg = groups.pop().unwrap();
                let cmd_text = groups.pop().unwrap();
                let range_text = groups.pop().unwrap();
                let cmd_range = match range_text {
                    Some(text) => Some(Range::from_str(text.as_str())),
                    None => None,
                };
                let cmd_range = match cmd_range.flip() {
                    Ok(r) => r,
                    Err(e) => {
                        return Err(e);
                    },
                };
                let cmd_char = match cmd_text {
                    Some(c) => if c.as_str().unicode_len() > 0 {
                        Some(c.as_str().get_char(0))
                    } else {
                        None
                    },
                    None => None,
                };
                Ok(ParsedData { cmd_char, range: cmd_range, arg: cmd_arg })
            },
        }
    }

    /// Reads the parts of a line of input.
    pub fn from_str(s: &str) -> (r: Result<ParsedData, Error>)
        ensures
            viewed(r) == ParsedDataView::parsed(s@),
    {
        if s.is_empty() {
            return Ok(ParsedData::empty());
        }
        let names = ["range", "cmd", "arg"];
        let found = search(COMMAND_RE, s, &names);
        ParsedData::from_captures(found)
    }
}

impl Cmd {
    /// The command that the line `text` writes. Being a function of the
    /// characters of the line, it is the same for the same line, whenever and
    /// wherever it is read.
    pub open spec fn parsed(text: Seq<char>) -> Result<CmdView, ErrorView> {
        match ParsedDataView::parsed(text) {
            Ok(data) => data.command(),
            Err(e) => Err(e),
        }
    }

    /// Reading is a function of the line: whatever two readings of lines
    /// with the same characters return, it is the same command or the same
    /// failure.
    pub proof fn reading_is_a_function(
        a: Seq<char>,
        b: Seq<char>,
        read_a: Result<Cmd, Error>,
        read_b: Result<Cmd, Error>,
    )
        requires
            a == b,
            viewed(read_a) == Cmd::parsed(a),
            viewed(read_b) == Cmd::parsed(b),
        ensures
            viewed(read_a) == viewed(read_b),
    {
    }

    /// Reads a line of input as a command.
    pub fn from_str(s: &str) -> (r: Result<Cmd, Error>)
        ensures
            viewed(r) == Cmd::parsed(s@),
    {
        match ParsedData::from_str(s) {
            Ok(data) => data.to_cmd(),
            Err(e) => Err(e),
        }
    }
}

} // verus!
