//! Addresses and ranges: how a line, or a span of lines, is named.

use vstd::prelude::*;
use vstd::string::StrSliceExecFns;
use crate::pattern::{captured, search, Captures, CapturesView};
use crate::error::{Error, ErrorType, ErrorView, ParseError, plain};

verus! {

/// The address of one line.
#[derive(Debug, Clone, Copy, PartialEq, Eq, Structural)]
pub enum Pos {
    /// The line of that number, counted from 1.
    Line(usize),
    /// The current line.
    Current,
    /// The last line.
    End,
}

/// One address, or two that bound a span of lines, both ends included.
#[derive(Debug, Clone, Copy, PartialEq, Eq, Structural)]
pub enum Range {
    /// The one line at that address.
    Line(Pos),
    /// The lines from the first address to the second.
    Range(Pos, Pos),
}

/// Something that turns a value of `F` into one of `T`: for addresses, the
/// session, which knows the current line and the length of the buffer.
pub trait Converter<F, T> {
    /// What `convert` returns.
    spec fn converted(&self, from: F) -> T;

    fn convert(&self, from: F) -> (to: T)
        ensures
            to == self.converted(from),
    ;
}

/// The grammar of an address.
pub const POS_RE: &'static str = r"^((?P<current>\.)|(?P<end>\$)|(?P<line>\d+))$";

/// The grammar of a range.
pub const RANGE_RE: &'static str =
    r"^((?P<all>%{1})|(?P<first>[.$0-9]+)(,(?P<second>[.$0-9]+))?)$";

/// The value of a decimal digit.
pub open spec fn digit_value(c: char) -> Option<nat> {
    if c == '0' {
        Some(0)
    } else if c == '1' {
        Some(1)
    } else if c == '2' {
        Some(2)
    } else if c == '3' {
        Some(3)
    } else if c == '4' {
        Some(4)
    } else if c == '5' {
        Some(5)
    } else if c == '6' {
        Some(6)
    } else if c == '7' {
        Some(7)
    } else if c == '8' {
        Some(8)
    } else if c == '9' {
        Some(9)
    } else {
        None
    }
}

/// Whether every character is a decimal digit.
pub open spec fn all_digits(text: Seq<char>) -> bool {
    forall|i: int| 0 <= i < text.len() ==> digit_value(#[trigger] text[i]) is Some
}

/// The number that a sequence of decimal digits writes.
pub open spec fn decimal_value(digits: Seq<char>) -> nat
    decreases digits.len(),
{
    if digits.len() == 0 {
        0
    } else {
        decimal_value(digits.drop_last()) * 10 + digit_value(digits.last()).unwrap_or(0)
    }
}

/// The line number that `text` writes: `text` is one or more decimal digits
/// and their value fits a `usize`.
pub open spec fn line_number(text: Seq<char>) -> Option<usize> {
    if text.len() > 0 && all_digits(text) && decimal_value(text) <= usize::MAX {
        Some(decimal_value(text) as usize)
    } else {
        None
    }
}

/// A longer number is no smaller than its beginning.
proof fn lemma_decimal_value_grows(digits: Seq<char>, n: int)
    requires
        0 <= n <= digits.len(),
    ensures
        decimal_value(digits.take(n)) <= decimal_value(digits),
    decreases digits.len() - n,
{
    if n < digits.len() {
        lemma_decimal_value_grows(digits, n + 1);
        assert(digits.take(n + 1).drop_last() =~= digits.take(n));
    } else {
        assert(digits.take(n) =~= digits);
    }
}

fn digit(c: char) -> (d: Option<usize>)
    ensures
        match d {
            Some(v) => digit_value(c) == Some(v as nat),
            None => digit_value(c) is None,
        },
{
    match c {
        '0' => Some(0),
        '1' => Some(1),
        '2' => Some(2),
        '3' => Some(3),
        '4' => Some(4),
        '5' => Some(5),
        '6' => Some(6),
        '7' => Some(7),
        '8' => Some(8),
        '9' => Some(9),
        _ => None,
    }
}

/// Reads a line number written in decimal digits.
pub fn parse_line_number(text: &str) -> (n: Option<usize>)
    ensures
        n == line_number(text@),
{
    let len: usize = text.unicode_len();
    if len == 0 {
        return None;
    }
    let mut value: usize = 0;
    let mut i: usize = 0;
    while i < len
        invariant
            0 <= i <= len,
            len == text@.len(),
            all_digits(text@.take(i as int)),
            value == decimal_value(text@.take(i as int)),
        decreases len - i,
    {
        let c = text.get_char(i);
        proof {
            assert(text@.take(i + 1).drop_last() =~= text@.take(i as int));
            lemma_decimal_value_grows(text@, i + 1);
        }
        let d = match digit(c) {
            Some(d) => d,
            None => {
                return None;
            },
        };
        let tens = match value.checked_mul(10) {
            Some(t) => t,
            None => {
                return None;
            },
        };
        value = match tens.checked_add(d) {
            Some(v) => v,
            None => {
                return None;
            },
        };
        i = i + 1;
        proof {
            assert forall|j: int| 0 <= j < i implies digit_value(
                #[trigger] text@.take(i as int)[j],
            ) is Some by {
                if j < i - 1 {
                }
            }
        }
    }
    proof {
        assert(text@.take(len as int) =~= text@);
    }
    Some(value)
}

/// The failure for a text that is no address and no range.
pub open spec fn invalid_range(text: Seq<char>) -> ErrorView {
    ErrorView { msg: text, error: ErrorType::ParseError(ParseError::InvalidRange) }
}

fn invalid(text: &str) -> (e: Error)
    ensures
        e@ == invalid_range(text@),
{
    Error::detailed(ErrorType::ParseError(ParseError::InvalidRange), text)
}

/// The names of the groups of `POS_RE`, in the order in which they are read.
pub open spec fn pos_groups() -> Seq<Seq<char>> {
    seq!["current"@, "end"@, "line"@]
}

/// The names of the groups of `RANGE_RE`, in the order in which they are read.
pub open spec fn range_groups() -> Seq<Seq<char>> {
    seq!["all"@, "first"@, "second"@]
}

impl Pos {
    /// The address that the groups of `POS_RE` stand for, `text` being what
    /// was searched: the current line where `current` took part, else the
    /// last line where `end` did, else the line whose number `line` writes.
    /// Where none took part, or the number does not fit, the text is no
    /// address. A pattern that did not compile is a failure of no named kind,
    /// in the matcher's words.
    pub open spec fn of_captures(text: Seq<char>, found: CapturesView) -> Result<Pos, ErrorView> {
        match found {
            CapturesView::BadPattern(words) => Err(
                ErrorView { msg: words, error: ErrorType::Unknown },
            ),
            CapturesView::NoMatch => Err(invalid_range(text)),
            CapturesView::Groups(groups) => if groups.len() != 3 {
                Err(invalid_range(text))
            } else if groups[0] is Some {
                Ok(Pos::Current)
            } else if groups[1] is Some {
                Ok(Pos::End)
            } else {
                match groups[2] {
                    Some(digits) => match line_number(digits) {
                        Some(n) => Ok(Pos::Line(n)),
                        None => Err(invalid_range(text)),
                    },
                    None => Err(invalid_range(text)),
                }
            },
        }
    }

    /// The address that `text` writes.
    pub open spec fn parsed(text: Seq<char>) -> Result<Pos, ErrorView> {
        Pos::of_captures(text, captured(POS_RE@, text, pos_groups()))
    }

    /// Reads an address from what a search of `text` for `POS_RE` gave.
    pub fn from_captures(text: &str, found: Captures) -> (r: Result<Pos, Error>)
        ensures
            plain(r) == Pos::of_captures(text@, found@),
    {
        match found {
            Captures::BadPattern(words) => Err(Error::unknown(words.as_str())),
            Captures::NoMatch => Err(invalid(text)),
            Captures::Groups(groups) => {
                if groups.len() != 3 {
                    return Err(invalid(text));
                }
                if groups[0].is_some() {
                    return Ok(Pos::Current);
                }
                if groups[1].is_some() {
                    return Ok(Pos::End);
                }
                match &groups[2] {
                    Some(digits) => match parse_line_number(digits.as_str()) {
                        Some(n) => Ok(Pos::Line(n)),
                        None => Err(invalid(text)),
                    },
                    None => Err(invalid(text)),
                }
            },
        }
    }

    /// Reads an address: `.` for the current line, `$` for the last, or a
    /// line number in decimal digits.
    pub fn from_str(s: &str) -> (r: Result<Pos, Error>)
        ensures
            plain(r) == Pos::parsed(s@),
    {
        let names = ["current", "end", "line"];
        let found = search(POS_RE, s, &names);
        Pos::from_captures(s, found)
    }
}

impl Range {
    /// The address that ends the range.
    pub open spec fn last(self) -> Pos {
        match self {
            Range::Line(p) => p,
            Range::Range(_, p) => p,
        }
    }

    /// The address that begins the range.
    pub open spec fn first(self) -> Pos {
        match self {
            Range::Line(p) => p,
            Range::Range(p, _) => p,
        }
    }

    /// The whole buffer: from line 1 to the last line.
    pub open spec fn whole() -> Range {
        Range::Range(Pos::Line(1), Pos::End)
    }

    /// The range that the groups of `RANGE_RE` stand for, `text` being what
    /// was searched: the whole buffer where `all` took part; else the
    /// addresses that `first` and `second` write, or the one that `first`
    /// writes where `second` took no part.
    pub open spec fn of_captures(text: Seq<char>, found: CapturesView) -> Result<Range, ErrorView> {
        match found {
            CapturesView::BadPattern(words) => Err(
                ErrorView { msg: words, error: ErrorType::Unknown },
            ),
            CapturesView::NoMatch => Err(invalid_range(text)),
            CapturesView::Groups(groups) => if groups.len() != 3 {
                Err(invalid_range(text))
            } else if groups[0] is Some {
                Ok(Range::whole())
            } else {
                match groups[1] {
                    Some(first) => match Pos::parsed(first) {
                        Ok(from) => match groups[2] {
                            Some(second) => match Pos::parsed(second) {
                                Ok(to) => Ok(Range::Range(from, to)),
                                Err(e) => Err(e),
                            },
                            None => Ok(Range::Line(from)),
                        },
                        Err(e) => Err(e),
                    },
                    None => Err(invalid_range(text)),
                }
            },
        }
    }

    /// `%` is the whole buffer: where the group `all` took part, the range
    /// runs from line 1 to the last line.
    pub proof fn percent_is_the_whole_buffer(text: Seq<char>, groups: Seq<Option<Seq<char>>>)
        requires
            groups.len() == 3,
            groups[0] is Some,
        ensures
            Range::of_captures(text, CapturesView::Groups(groups)) == Ok::<Range, ErrorView>(
                Range::whole(),
            ),
    {
    }

    /// The range that `text` writes.
    pub open spec fn parsed(text: Seq<char>) -> Result<Range, ErrorView> {
        Range::of_captures(text, captured(RANGE_RE@, text, range_groups()))
    }

    /// Reads a range from what a search of `text` for `RANGE_RE` gave.
    pub fn from_captures(text: &str, found: Captures) -> (r: Result<Range, Error>)
        ensures
            plain(r) == Range::of_captures(text@, found@),
    {
        match found {
            Captures::BadPattern(words) => Err(Error::unknown(words.as_str())),
            Captures::NoMatch => Err(invalid(text)),
            Captures::Groups(groups) => {
                if groups.len() != 3 {
                    return Err(invalid(text));
                }
                if groups[0].is_some() {
                    return Ok(Range::Range(Pos::Line(1), Pos::End));
                }
                match &groups[1] {
                    Some(first) => {
                        let from = match Pos::from_str(first.as_str()) {
                            Ok(p) => p,
                            Err(e) => {
                                return Err(e);
                            },
                        };
                        match &groups[2] {
                            Some(second) => match Pos::from_str(second.as_str()) {
                                Ok(to) => Ok(Range::Range(from, to)),
                                Err(e) => Err(e),
                            },
                            None => Ok(Range::Line(from)),
                        }
                    },
                    None => Err(invalid(text)),
                }
            },
        }
    }

    /// Reads a range: `%` for the whole buffer, one address, or two
    /// addresses with a comma between them.
    pub fn from_str(s: &str) -> (r: Result<Range, Error>)
        ensures
            plain(r) == Range::parsed(s@),
    {
        let names = ["all", "first", "second"];
        let found = search(RANGE_RE, s, &names);
        Range::from_captures(s, found)
    }

    /// The numbers of the first and the last line of the range, counted from
    /// 1, as `conv` resolves its addresses. Neither is held against the
    /// buffer, and the first may come after the last.
    pub open spec fn resolved<'a, C: Converter<&'a Pos, Result<usize, ErrorType>>>(
        &'a self,
        conv: &C,
    ) -> Result<(usize, usize), ErrorType> {
        match *self {
            Range::Line(ref p) => match conv.converted(p) {
                Ok(n) => Ok((n, n)),
                Err(e) => Err(e),
            },
            Range::Range(ref f, ref t) => match conv.converted(f) {
                Ok(from) => match conv.converted(t) {
                    Ok(to) => Ok((from, to)),
                    Err(e) => Err(e),
                },
                Err(e) => Err(e),
            },
        }
    }

    /// The lines of the range as indices counted from 0, the first included
    /// and the last excluded. A range that begins at line 0 has no such form.
    pub open spec fn span<'a, C: Converter<&'a Pos, Result<usize, ErrorType>>>(
        &'a self,
        conv: &C,
    ) -> Result<std::ops::Range<usize>, ErrorView> {
        match self.resolved(conv) {
            Ok((from, to)) => if from == 0 {
                Err(ErrorView::bare(ErrorType::InvalidRange(*self)))
            } else {
                Ok(std::ops::Range { start: (from - 1) as usize, end: to })
            },
            Err(e) => Err(ErrorView::bare(e)),
        }
    }

    /// Resolves both ends of the range to line numbers counted from 1.
    pub fn resolve<'a, C>(&'a self, conv: &C) -> (r: Result<(usize, usize), ErrorType>) where
        C: Converter<&'a Pos, Result<usize, ErrorType>>,

        ensures
            r == self.resolved(conv),
    {
        match *self {
            Range::Line(ref p) => match conv.convert(p) {
                Ok(n) => Ok((n, n)),
                Err(e) => Err(e),
            },
            Range::Range(ref f, ref t) => {
                let from = match conv.convert(f) {
                    Ok(n) => n,
                    Err(e) => {
                        return Err(e);
                    },
                };
                match conv.convert(t) {
                    Ok(to) => Ok((from, to)),
                    Err(e) => Err(e),
                }
            },
        }
    }

    /// Resolves the range to indices counted from 0, the first included and
    /// the last excluded.
    pub fn to_range<'a, C>(&'a self, conv: &C) -> (r: Result<std::ops::Range<usize>, Error>) where
        C: Converter<&'a Pos, Result<usize, ErrorType>>,

        ensures
            plain(r) == self.span(conv),
    {
        let (from, to) = match self.resolve(conv) {
            Ok(lines) => lines,
            Err(e) => {
                return Err(Error::new(e));
            },
        };
        if from == 0 {
            return Err(Error::new(ErrorType::InvalidRange(*self)));
        }
        Ok(std::ops::Range { start: from - 1, end: to })
    }

    /// The range of a command that names none: the current line.
    pub fn current_line() -> (r: Range)
        ensures
            r == Range::Line(Pos::Current),
    {
        Range::Line(Pos::Current)
    }
}

impl From<Range> for Pos {
    /// The address that ends the range.
    fn from(r: Range) -> (p: Pos) {
        match r {
            Range::Line(p) => p,
            Range::Range(_, p) => p,
        }
    }
}

impl vstd::std_specs::convert::FromSpecImpl<Range> for Pos {
    open spec fn obeys_from_spec() -> bool {
        true
    }

    open spec fn from_spec(r: Range) -> Pos {
        r.last()
    }
}

} // verus!
