//! The face of the session: how a line of input is read in each mode, and
//! how lines are shown.

use vstd::prelude::*;
use vstd::string::{StrSliceExecFns, StringExecFns};
use crate::buffer::{selected, texts, Buffer};
use crate::cmd::{Cmd, CmdView};
use crate::error::{Error, ErrorType, ErrorView, viewed};

verus! {

/// How the session reads its input.
#[derive(Debug, Clone, Copy, PartialEq, Eq, Structural)]
pub enum Mode {
    /// A line is a command.
    Command,
    /// A line is text for the buffer.
    Insert,
}

/// How lines are shown.
#[derive(Debug, Clone, Copy, PartialEq, Eq, Structural)]
pub enum PrintOption {
    /// The text of the line.
    Normal,
    /// The number of the line, a tab, and the text.
    Numbered,
    /// The text, and a `$` where the line ends.
    LineEndings,
}

/// What a line of input asks for.
#[derive(Debug, PartialEq, Eq)]
pub enum Action {
    /// Carry out the command.
    Command(Cmd),
    /// Take the text as one more line.
    Insert(String),
    /// No more text: put the lines taken into the buffer.
    InsertEnd,
}

/// An `Action` with its strings as sequences of characters.
pub enum ActionView {
    Command(CmdView),
    Insert(Seq<char>),
    InsertEnd,
}

impl View for Action {
    type V = ActionView;

    open spec fn view(&self) -> ActionView {
        match *self {
            Action::Command(cmd) => ActionView::Command(cmd@),
            Action::Insert(text) => ActionView::Insert(text@),
            Action::InsertEnd => ActionView::InsertEnd,
        }
    }
}

/// Lines of a buffer to show, and how.
#[derive(Debug)]
pub struct DisplayModel<'a> {
    pub buffer: &'a Buffer,
    pub range: std::ops::Range<usize>,
    pub option: PrintOption,
}

impl<'a> DisplayModel<'a> {
    /// The lines of `buffer` from `range.start` up to, not including,
    /// `range.end`, to show in the manner of `option`.
    pub fn new(buffer: &'a Buffer, range: std::ops::Range<usize>, option: PrintOption) -> (model:
        DisplayModel<'a>)
        ensures
            model.buffer == buffer,
            model.range == range,
            model.option == option,
    {
        DisplayModel { buffer: buffer, range: range, option: option }
    }

    /// The lines to show.
    pub open spec fn lines(&self) -> Seq<Seq<char>> {
        selected(self.buffer@, self.range.start as int, self.range.end as int)
    }

    /// Whether the lines to show are there: neither end of the range lies
    /// beyond the end of the buffer.
    pub open spec fn in_bounds(&self) -> bool {
        self.range.start <= self.buffer@.len() && self.range.end <= self.buffer@.len()
    }
}

/// The character that writes a number below ten.
pub open spec fn digit_char(d: nat) -> char {
    if d == 0 {
        '0'
    } else if d == 1 {
        '1'
    } else if d == 2 {
        '2'
    } else if d == 3 {
        '3'
    } else if d == 4 {
        '4'
    } else if d == 5 {
        '5'
    } else if d == 6 {
        '6'
    } else if d == 7 {
        '7'
    } else if d == 8 {
        '8'
    } else {
        '9'
    }
}

/// A number in decimal digits, without leading zeros.
pub open spec fn decimal(n: nat) -> Seq<char>
    decreases n,
{
    if n < 10 {
        seq![digit_char(n)]
    } else {
        decimal(n / 10).push(digit_char(n % 10))
    }
}

/// A line as it is shown: its text, with its number and a tab before it, or
/// with a `$` after it.
pub open spec fn shown_line(line: Seq<char>, number: nat, option: PrintOption) -> Seq<char> {
    match option {
        PrintOption::Normal => line,
        PrintOption::Numbered => decimal(number) + seq!['\t'] + line,
        PrintOption::LineEndings => line + seq!['$'],
    }
}

/// Lines as they are shown, `first` being the number of the first of them.
pub open spec fn shown(lines: Seq<Seq<char>>, first: nat, option: PrintOption) -> Seq<Seq<char>> {
    Seq::new(lines.len(), |i: int| shown_line(lines[i], (first + i) as nat, option))
}

fn digit_str(d: usize) -> (s: &'static str)
    requires
        d < 10,
    ensures
        s@ == seq![digit_char(d as nat)],
{
    proof {
        reveal_strlit("0");
        reveal_strlit("1");
        reveal_strlit("2");
        reveal_strlit("3");
        reveal_strlit("4");
        reveal_strlit("5");
        reveal_strlit("6");
        reveal_strlit("7");
        reveal_strlit("8");
        reveal_strlit("9");
    }
    match d {
        0 => "0",
        1 => "1",
        2 => "2",
        3 => "3",
        4 => "4",
        5 => "5",
        6 => "6",
        7 => "7",
        8 => "8",
        _ => "9",
    }
}

/// Writes a number in decimal digits.
pub fn decimal_string(n: usize) -> (s: String)
    ensures
        s@ == decimal(n as nat),
    decreases n,
{
    if n < 10 {
        String::from_str(digit_str(n))
    } else {
        decimal_string(n / 10).concat(digit_str(n % 10))
    }
}

fn show_line(line: &String, number: usize, option: PrintOption) -> (s: String)
    ensures
        s@ == shown_line(line@, number as nat, option),
{
    proof {
        reveal_strlit("\t");
        reveal_strlit("$");
    }
    match option {
        PrintOption::Normal => line.clone(),
        PrintOption::Numbered => decimal_string(number).concat("\t").concat(line.as_str()),
        PrintOption::LineEndings => line.clone().concat("$"),
    }
}

/// What `str::trim_end` leaves of a text: the text without the white space
/// at its end.
pub uninterp spec fn trimmed_end(text: Seq<char>) -> Seq<char>;

/// Calls `str::trim_end`.
///
/// Trusted: the contract only gives a name to what the call returns, and
/// claims that it is determined by the characters of `text`.
#[verifier::external_body]
fn trim_end(text: &str) -> (rest: &str)
    ensures
        rest@ == trimmed_end(text@),
{
    text.trim_end()
}

/// How input is read: in which mode.
#[derive(Debug, Clone, Copy, PartialEq, Eq, Structural)]
pub struct Ui {
    mode: Mode,
}

impl Ui {
    /// The mode in which input is read.
    pub closed spec fn mode_of(&self) -> Mode {
        self.mode
    }

    /// What a line asks for once the white space at its end is gone.
    ///
    /// In command mode the line is a command. In insert mode a lone `.` ends
    /// the text, and any other line is text.
    pub open spec fn interpreted(mode: Mode, line: Seq<char>) -> Result<ActionView, ErrorView> {
        match mode {
            Mode::Command => match Cmd::parsed(line) {
                Ok(cmd) => Ok(ActionView::Command(cmd)),
                Err(e) => Err(e),
            },
            Mode::Insert => if line == seq!['.'] {
                Ok(ActionView::InsertEnd)
            } else {
                Ok(ActionView::Insert(line))
            },
        }
    }

    /// What the input asks for, as it was read: with the end of its line
    /// still on it, and empty where the input has ended.
    ///
    /// The end of the input ends the session in command mode, and the text in
    /// insert mode.
    pub open spec fn input(mode: Mode, input: Seq<char>) -> Result<ActionView, ErrorView> {
        if input.len() == 0 {
            match mode {
                Mode::Command => Ok(ActionView::Command(CmdView::Quit)),
                Mode::Insert => Ok(ActionView::InsertEnd),
            }
        } else {
            Ui::interpreted(mode, trimmed_end(input))
        }
    }

    /// Input is read in command mode.
    pub fn new() -> (ui: Ui)
        ensures
            ui.mode_of() == Mode::Command,
    {
        Ui { mode: Mode::Command }
    }

    /// The mode in which input is read.
    pub fn mode(&self) -> (mode: Mode)
        ensures
            mode == self.mode_of(),
    {
        self.mode
    }

    /// From now on input is read in `mode`.
    pub fn set_mode(&mut self, mode: Mode)
        ensures
            final(self).mode_of() == mode,
    {
        self.mode = mode;
    }

    /// The lines of `model` as they are to be shown, first to last. Lines
    /// that are not there are out of bounds.
    pub fn display<'a>(&self, model: DisplayModel<'a>) -> (r: Result<Vec<String>, Error>)
        requires
            model.buffer.wf(),
        ensures
            match r {
                Ok(output) => model.in_bounds() && output@.len() == model.lines().len() && texts(
                    output@,
                ) == shown(model.lines(), (model.range.start + 1) as nat, model.option),
                Err(e) => !model.in_bounds() && e@ == ErrorView::bare(ErrorType::OutOfBounds),
            },
    {
        let lines = match model.buffer.get_lines(&model.range) {
            Ok(lines) => lines,
            Err(e) => {
                return Err(e);
            },
        };
        let n = lines.len();
        let mut output: Vec<String> = Vec::new();
        let mut line_nr: usize = 0;
        while line_nr < n
            invariant
                0 <= line_nr <= n,
                n == lines@.len(),
                model.in_bounds(),
                texts(lines@) == model.lines(),
                output@.len() == line_nr,
                forall|i: int|
                    0 <= i < line_nr ==> (#[trigger] output@[i])@ == shown_line(
                        lines@[i]@,
                        (model.range.start + 1 + i) as nat,
                        model.option,
                    ),
            decreases n - line_nr,
        {
            assert(texts(lines@).len() == n);
            output.push(show_line(&lines[line_nr], line_nr + model.range.start + 1, model.option));
            line_nr = line_nr + 1;
        }
        proof {
            assert forall|i: int| 0 <= i < n implies texts(lines@)[i] == lines@[i]@ by {}
        }
        Ok(output)
    }

    /// What a line asks for, the white space at its end being gone.
    pub fn interpret(&self, line: &str) -> (r: Result<Action, Error>)
        ensures
            viewed(r) == Ui::interpreted(self.mode_of(), line@),
    {
        match self.mode {
            Mode::Command => match Cmd::from_str(line) {
                Ok(cmd) => Ok(Action::Command(cmd)),
                Err(e) => Err(e),
            },
            Mode::Insert => {
                if line.unicode_len() == 1 && line.get_char(0) == '.' {
                    assert(line@ =~= seq!['.']);
                    Ok(Action::InsertEnd)
                } else {
                    Ok(Action::Insert(line.to_owned()))
                }
            },
        }
    }

    /// What the input asks for. `input` is the line as it was read, with
    /// the end of the line still on it; it is empty where the input has
    /// ended.
    pub fn get_input(&self, input: &str) -> (r: Result<Action, Error>)
        ensures
            viewed(r) == Ui::input(self.mode_of(), input@),
    {
        if input.is_empty() {
            return match self.mode {
                Mode::Command => Ok(Action::Command(Cmd::Quit)),
                Mode::Insert => Ok(Action::InsertEnd),
            };
        }
        let trim_input = trim_end(input);
        self.interpret(trim_input)
    }
}

} // verus!
