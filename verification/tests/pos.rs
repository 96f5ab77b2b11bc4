use rsed::pattern::Captures;
use rsed::pos::{parse_line_number, Converter, Pos, Range};
use rsed::{ErrorType, ParseError, Rsed};

fn session_of(lines: &[&str]) -> Rsed {
    Rsed::from_path("text".to_string(), lines.iter().map(|l| l.to_string()).collect()).unwrap()
}

fn groups(texts: &[Option<&str>]) -> Captures {
    Captures::Groups(texts.iter().map(|t| t.map(|s| s.to_string())).collect())
}

#[test]
fn line_number_of_digits() {
    assert_eq!(parse_line_number("0"), Some(0));
    assert_eq!(parse_line_number("7"), Some(7));
    assert_eq!(parse_line_number("42"), Some(42));
    assert_eq!(parse_line_number("1234567890"), Some(1234567890));
}

#[test]
fn line_number_with_leading_zeros() {
    assert_eq!(parse_line_number("007"), Some(7));
    assert_eq!(parse_line_number("000"), Some(0));
}

#[test]
fn line_number_of_nothing_is_none() {
    assert_eq!(parse_line_number(""), None);
}

#[test]
fn line_number_with_another_character_is_none() {
    assert_eq!(parse_line_number("4a"), None);
    assert_eq!(parse_line_number("a4"), None);
    assert_eq!(parse_line_number("+4"), None);
    assert_eq!(parse_line_number("-4"), None);
    assert_eq!(parse_line_number(" 4"), None);
    assert_eq!(parse_line_number("\u{661}"), None);
}

#[test]
fn line_number_at_the_limit_of_usize() {
    let max = format!("{}", usize::MAX);
    assert_eq!(parse_line_number(&max), Some(usize::MAX));
    let zeros = format!("000{}", usize::MAX);
    assert_eq!(parse_line_number(&zeros), Some(usize::MAX));
}

#[test]
fn line_number_beyond_usize_is_none() {
    let beyond = format!("{}", usize::MAX as u128 + 1);
    assert_eq!(parse_line_number(&beyond), None);
    let tenfold = format!("{}0", usize::MAX);
    assert_eq!(parse_line_number(&tenfold), None);
    assert_eq!(parse_line_number("99999999999999999999999999999999999999999"), None);
}

#[test]
fn pos_of_a_dot_is_current() {
    assert_eq!(Pos::from_str(".").unwrap(), Pos::Current);
}

#[test]
fn pos_of_a_dollar_is_end() {
    assert_eq!(Pos::from_str("$").unwrap(), Pos::End);
}

#[test]
fn pos_of_digits_is_a_line() {
    assert_eq!(Pos::from_str("12").unwrap(), Pos::Line(12));
    assert_eq!(Pos::from_str("0").unwrap(), Pos::Line(0));
}

#[test]
fn pos_of_something_else_is_an_invalid_range() {
    for text in ["x", "", "..", "1.", "$1", "1 ", "-1"] {
        let err = Pos::from_str(text).unwrap_err();
        assert_eq!(err.error, ErrorType::ParseError(ParseError::InvalidRange));
        assert_eq!(err.msg, text);
    }
}

#[test]
fn pos_of_a_number_too_large_is_an_invalid_range() {
    let text = "99999999999999999999999999999999999999999";
    let err = Pos::from_str(text).unwrap_err();
    assert_eq!(err.error, ErrorType::ParseError(ParseError::InvalidRange));
    assert_eq!(err.msg, text);
}

#[test]
fn pos_of_digits_of_another_script_is_an_invalid_range() {
    let err = Pos::from_str("\u{661}\u{662}").unwrap_err();
    assert_eq!(err.error, ErrorType::ParseError(ParseError::InvalidRange));
    assert_eq!(err.msg, "\u{661}\u{662}");
}

#[test]
fn pos_from_captures_reads_the_groups_in_order() {
    assert_eq!(Pos::from_captures(".", groups(&[Some("."), None, None])).unwrap(), Pos::Current);
    assert_eq!(Pos::from_captures("$", groups(&[None, Some("$"), None])).unwrap(), Pos::End);
    assert_eq!(Pos::from_captures("31", groups(&[None, None, Some("31")])).unwrap(), Pos::Line(31));
    assert_eq!(
        Pos::from_captures("x", groups(&[Some("."), Some("$"), Some("31")])).unwrap(),
        Pos::Current
    );
}

#[test]
fn pos_from_captures_without_a_group_is_an_invalid_range() {
    let err = Pos::from_captures("abc", groups(&[None, None, None])).unwrap_err();
    assert_eq!(err.error, ErrorType::ParseError(ParseError::InvalidRange));
    assert_eq!(err.msg, "abc");
    let err = Pos::from_captures("abc", groups(&[None, None])).unwrap_err();
    assert_eq!(err.error, ErrorType::ParseError(ParseError::InvalidRange));
    let err = Pos::from_captures("abc", groups(&[None, None, Some("1x")])).unwrap_err();
    assert_eq!(err.error, ErrorType::ParseError(ParseError::InvalidRange));
    assert_eq!(err.msg, "abc");
}

#[test]
fn pos_from_captures_without_a_match_is_an_invalid_range() {
    let err = Pos::from_captures("abc", Captures::NoMatch).unwrap_err();
    assert_eq!(err.error, ErrorType::ParseError(ParseError::InvalidRange));
    assert_eq!(err.msg, "abc");
}

#[test]
fn pos_from_captures_of_a_bad_pattern_is_unknown() {
    let err = Pos::from_captures("1", Captures::BadPattern("unclosed group".to_string()))
        .unwrap_err();
    assert_eq!(err.error, ErrorType::Unknown);
    assert_eq!(err.msg, "unclosed group");
}

#[test]
fn range_of_a_percent_is_the_whole_buffer() {
    assert_eq!(Range::from_str("%").unwrap(), Range::Range(Pos::Line(1), Pos::End));
}

#[test]
fn range_of_one_address() {
    assert_eq!(Range::from_str("5").unwrap(), Range::Line(Pos::Line(5)));
    assert_eq!(Range::from_str(".").unwrap(), Range::Line(Pos::Current));
    assert_eq!(Range::from_str("$").unwrap(), Range::Line(Pos::End));
}

#[test]
fn range_of_two_addresses() {
    assert_eq!(Range::from_str("1,3").unwrap(), Range::Range(Pos::Line(1), Pos::Line(3)));
    assert_eq!(Range::from_str(".,$").unwrap(), Range::Range(Pos::Current, Pos::End));
    assert_eq!(Range::from_str("3,1").unwrap(), Range::Range(Pos::Line(3), Pos::Line(1)));
}

#[test]
fn range_that_is_malformed_carries_its_text() {
    for text in ["1,2,3", ",", "1,", ",2", "%%", "%1", "", "a"] {
        let err = Range::from_str(text).unwrap_err();
        assert_eq!(err.error, ErrorType::ParseError(ParseError::InvalidRange));
        assert_eq!(err.msg, text);
    }
}

#[test]
fn range_with_a_malformed_address_carries_the_address() {
    let err = Range::from_str("1.,2").unwrap_err();
    assert_eq!(err.error, ErrorType::ParseError(ParseError::InvalidRange));
    assert_eq!(err.msg, "1.");
    let err = Range::from_str("1,$$").unwrap_err();
    assert_eq!(err.error, ErrorType::ParseError(ParseError::InvalidRange));
    assert_eq!(err.msg, "$$");
}

#[test]
fn range_from_captures_reads_the_groups() {
    assert_eq!(
        Range::from_captures("%", groups(&[Some("%"), None, None])).unwrap(),
        Range::Range(Pos::Line(1), Pos::End)
    );
    assert_eq!(
        Range::from_captures("2", groups(&[None, Some("2"), None])).unwrap(),
        Range::Line(Pos::Line(2))
    );
    assert_eq!(
        Range::from_captures("2,$", groups(&[None, Some("2"), Some("$")])).unwrap(),
        Range::Range(Pos::Line(2), Pos::End)
    );
}

#[test]
fn range_from_captures_without_a_first_address_is_an_invalid_range() {
    let err = Range::from_captures("q", groups(&[None, None, Some("2")])).unwrap_err();
    assert_eq!(err.error, ErrorType::ParseError(ParseError::InvalidRange));
    assert_eq!(err.msg, "q");
    let err = Range::from_captures("q", Captures::NoMatch).unwrap_err();
    assert_eq!(err.msg, "q");
    let err = Range::from_captures("q", groups(&[])).unwrap_err();
    assert_eq!(err.error, ErrorType::ParseError(ParseError::InvalidRange));
}

#[test]
fn range_from_captures_of_a_bad_pattern_is_unknown() {
    let err = Range::from_captures("1", Captures::BadPattern("bad".to_string())).unwrap_err();
    assert_eq!(err.error, ErrorType::Unknown);
    assert_eq!(err.msg, "bad");
}

#[test]
fn the_range_of_a_command_without_one_is_the_current_line() {
    assert_eq!(Range::current_line(), Range::Line(Pos::Current));
}

#[test]
fn the_pos_of_a_range_is_its_last_address() {
    assert_eq!(Pos::from(Range::Line(Pos::Line(4))), Pos::Line(4));
    assert_eq!(Pos::from(Range::Range(Pos::Line(1), Pos::End)), Pos::End);
}

#[test]
fn a_line_number_resolves_to_itself_wherever_the_cursor_is() {
    let mut session = session_of(&["x", "y", "z"]);
    for n in 1..=3 {
        assert_eq!(session.convert(&Pos::Line(n)), Ok(n));
    }
    assert!(session
        .handle_action(rsed::ui::Action::Command(rsed::cmd::Cmd::Jump(Range::Line(Pos::Line(3)))))
        .is_ok());
    for n in 1..=3 {
        assert_eq!(session.convert(&Pos::Line(n)), Ok(n));
    }
    assert_eq!(Rsed::new().convert(&Pos::Line(2)), Ok(2));
}

#[test]
fn a_line_number_is_not_held_against_the_buffer() {
    let session = session_of(&["x"]);
    assert_eq!(session.convert(&Pos::Line(0)), Ok(0));
    assert_eq!(session.convert(&Pos::Line(9)), Ok(9));
}

#[test]
fn the_current_line_resolves_to_the_cursor() {
    let mut session = session_of(&["x", "y", "z"]);
    assert_eq!(session.current_line(), 1);
    assert_eq!(session.convert(&Pos::Current), Ok(1));
    assert!(session.handle_action(rsed::ui::Action::Command(rsed::cmd::Cmd::JumpNext)).is_ok());
    assert_eq!(session.current_line(), 2);
    assert_eq!(session.convert(&Pos::Current), Ok(2));
}

#[test]
fn the_current_line_of_a_new_session_is_undefined() {
    let session = Rsed::new();
    assert_eq!(session.current_line(), 0);
    assert_eq!(session.convert(&Pos::Current), Err(ErrorType::UndefinedCurrentLine));
}

#[test]
fn the_last_line_resolves_to_the_length() {
    assert_eq!(session_of(&["x", "y", "z"]).convert(&Pos::End), Ok(3));
    assert_eq!(Rsed::new().convert(&Pos::End), Ok(0));
}

#[test]
fn the_whole_buffer_resolves_to_all_lines_wherever_the_cursor_is() {
    let whole = Range::from_str("%").unwrap();
    let mut session = session_of(&["x", "y", "z"]);
    assert_eq!(whole.resolve(&session), Ok((1, 3)));
    assert_eq!(whole.to_range(&session).unwrap(), 0..3);
    assert!(session
        .handle_action(rsed::ui::Action::Command(rsed::cmd::Cmd::Jump(Range::Line(Pos::Line(2)))))
        .is_ok());
    assert_eq!(whole.resolve(&session), Ok((1, 3)));
    assert_eq!(whole.to_range(&session).unwrap(), 0..3);
    assert_eq!(whole.resolve(&Rsed::new()), Ok((1, 0)));
}

#[test]
fn to_range_of_one_line() {
    let session = session_of(&["x", "y", "z"]);
    assert_eq!(Range::Line(Pos::Line(2)).to_range(&session).unwrap(), 1..2);
    assert_eq!(Range::Line(Pos::Current).to_range(&session).unwrap(), 0..1);
    assert_eq!(Range::Line(Pos::End).to_range(&session).unwrap(), 2..3);
}

#[test]
fn to_range_of_two_addresses_is_not_reordered() {
    let session = session_of(&["x", "y", "z"]);
    assert_eq!(Range::Range(Pos::Line(1), Pos::Line(2)).to_range(&session).unwrap(), 0..2);
    let inverted = Range::Range(Pos::Line(3), Pos::Line(1)).to_range(&session).unwrap();
    assert_eq!(inverted.start, 2);
    assert_eq!(inverted.end, 1);
    assert_eq!(Range::Range(Pos::Line(3), Pos::Line(1)).resolve(&session), Ok((3, 1)));
}

#[test]
fn to_range_is_not_held_against_the_buffer() {
    let session = session_of(&["x"]);
    assert_eq!(Range::Line(Pos::Line(9)).to_range(&session).unwrap(), 8..9);
}

#[test]
fn to_range_from_line_zero_is_an_invalid_range() {
    let session = session_of(&["x"]);
    let range = Range::Range(Pos::Line(0), Pos::Line(1));
    let err = range.to_range(&session).unwrap_err();
    assert_eq!(err.error, ErrorType::InvalidRange(range));
    assert_eq!(range.resolve(&session), Ok((0, 1)));
}

#[test]
fn to_range_without_a_current_line_is_undefined() {
    let session = Rsed::new();
    let err = Range::Line(Pos::Current).to_range(&session).unwrap_err();
    assert_eq!(err.error, ErrorType::UndefinedCurrentLine);
    let err = Range::Range(Pos::Line(1), Pos::Current).to_range(&session).unwrap_err();
    assert_eq!(err.error, ErrorType::UndefinedCurrentLine);
    assert_eq!(
        Range::Range(Pos::Current, Pos::Line(1)).resolve(&session),
        Err(ErrorType::UndefinedCurrentLine)
    );
}
