//! Matching a line of text against a pattern.
//!
//! The grammars of this crate are written down as regular expressions with
//! named groups. The matching itself is done by the `regex` crate; this module
//! is the one place that calls it. Nothing is proved of the matching: what it
//! gives is named by the three functions below, and the rest of the crate is
//! verified for whatever those functions are.

use vstd::prelude::*;

verus! {

/// The words in which `regex::Regex::new` refuses `pattern`, or `None` where
/// it compiles the pattern.
pub uninterp spec fn pattern_error(pattern: Seq<char>) -> Option<Seq<char>>;

/// Whether the compiled `pattern` matches somewhere in `text`: whether
/// `regex::Regex::captures` returns `Some`.
pub uninterp spec fn is_match(pattern: Seq<char>, text: Seq<char>) -> bool;

/// The part of `text` that the group called `name` matched, as
/// `regex::Captures::name` gives it for the leftmost match of `pattern` in
/// `text`; `None` where the group took no part in the match or the pattern
/// has no group of that name.
pub uninterp spec fn group(pattern: Seq<char>, text: Seq<char>, name: Seq<char>) -> Option<
    Seq<char>,
>;

/// What matching a text against a pattern gave.
#[derive(Debug, PartialEq, Eq)]
pub enum Captures {
    /// The pattern is no regular expression; the words are the matcher's.
    BadPattern(String),
    /// The pattern matches nowhere in the text.
    NoMatch,
    /// The pattern matches. For each name that was asked for, in the order
    /// asked, the text its group matched, if the group took part.
    Groups(Vec<Option<String>>),
}

/// `Captures` with its strings as sequences of characters.
pub enum CapturesView {
    BadPattern(Seq<char>),
    NoMatch,
    Groups(Seq<Option<Seq<char>>>),
}

/// An optional string as an optional sequence of characters.
pub open spec fn text_view(text: Option<String>) -> Option<Seq<char>> {
    match text {
        Some(t) => Some(t@),
        None => None,
    }
}

impl View for Captures {
    type V = CapturesView;

    open spec fn view(&self) -> CapturesView {
        match *self {
            Captures::BadPattern(words) => CapturesView::BadPattern(words@),
            Captures::NoMatch => CapturesView::NoMatch,
            Captures::Groups(groups) => CapturesView::Groups(
                groups@.map_values(|g: Option<String>| text_view(g)),
            ),
        }
    }
}

/// What a search gives, over the three names above.
pub open spec fn captured(
    pattern: Seq<char>,
    text: Seq<char>,
    names: Seq<Seq<char>>,
) -> CapturesView {
    match pattern_error(pattern) {
        Some(words) => CapturesView::BadPattern(words),
        None => if is_match(pattern, text) {
            CapturesView::Groups(Seq::new(names.len(), |i: int| group(pattern, text, names[i])))
        } else {
            CapturesView::NoMatch
        },
    }
}

/// The names of groups as sequences of characters.
pub open spec fn names_view(names: Seq<&str>) -> Seq<Seq<char>> {
    names.map_values(|n: &str| n@)
}

/// Compiles `pattern` with `regex::Regex::new`, searches `text` with
/// `regex::Regex::captures`, and reads each of `names` with
/// `regex::Captures::name`, taking the text of a group with
/// `regex::Match::as_str`. Where the pattern is refused, the words are the
/// error as it displays itself.
///
/// Trusted: the contract only gives names to what these calls return. It
/// claims that each is determined by the characters handed in, and that the
/// groups come back one for each name, in the order of `names`.
#[verifier::external_body]
fn captures(pattern: &str, text: &str, names: &[&str]) -> (found: Captures)
    ensures
        match found {
            Captures::BadPattern(words) => pattern_error(pattern@) == Some(words@),
            Captures::NoMatch => pattern_error(pattern@) is None && !is_match(pattern@, text@),
            Captures::Groups(groups) => {
                &&& pattern_error(pattern@) is None
                &&& is_match(pattern@, text@)
                &&& groups@.len() == names@.len()
                &&& forall|i: int|
                    0 <= i < names@.len() ==> text_view(#[trigger] groups@[i]) == group(
                        pattern@,
                        text@,
                        names@[i]@,
                    )
            },
        },
{
    match regex::Regex::new(pattern) {
        Err(e) => Captures::BadPattern(e.to_string()),
        Ok(re) => match re.captures(text) {
            None => Captures::NoMatch,
            Some(c) => Captures::Groups(
                names.iter().map(|n| c.name(n).map(|m| m.as_str().to_string())).collect(),
            ),
        },
    }
}

/// Searches `text` for `pattern` and reads the groups called `names`.
pub fn search(pattern: &str, text: &str, names: &[&str]) -> (found: Captures)
    ensures
        found@ == captured(pattern@, text@, names_view(names@)),
{
    let found = captures(pattern, text, names);
    proof {
        if let Captures::Groups(groups) = &found {
            assert(groups@.map_values(|g: Option<String>| text_view(g)) =~= Seq::new(
                names@.len(),
                |i: int| group(pattern@, text@, names_view(names@)[i]),
            ));
        }
    }
    found
}

} // verus!
