use rsed::buffer::Buffer;
use rsed::cmd::Cmd;
use rsed::pos::{Pos, Range};
use rsed::ui::{decimal_string, Action, DisplayModel, Mode, PrintOption, Ui};
use rsed::{ErrorType, ParseError};

fn text_of(lines: &[&str]) -> Buffer {
    Buffer::from_buf_read(lines.iter().map(|l| l.to_string()).collect()).unwrap()
}

fn insert_ui() -> Ui {
    let mut ui = Ui::new();
    ui.set_mode(Mode::Insert);
    ui
}

#[test]
fn a_new_ui_reads_commands() {
    assert_eq!(Ui::new().mode(), Mode::Command);
}

#[test]
fn set_mode_changes_the_mode() {
    let mut ui = Ui::new();
    ui.set_mode(Mode::Insert);
    assert_eq!(ui.mode(), Mode::Insert);
    ui.set_mode(Mode::Command);
    assert_eq!(ui.mode(), Mode::Command);
}

#[test]
fn the_end_of_input_in_command_mode_is_quit() {
    assert_eq!(Ui::new().get_input("").unwrap(), Action::Command(Cmd::Quit));
}

#[test]
fn the_end_of_input_in_insert_mode_ends_the_text() {
    assert_eq!(insert_ui().get_input("").unwrap(), Action::InsertEnd);
}

#[test]
fn a_blank_line_in_command_mode_asks_for_the_next_line() {
    assert_eq!(Ui::new().get_input("\n").unwrap(), Action::Command(Cmd::JumpNext));
    assert_eq!(Ui::new().get_input("  \r\n").unwrap(), Action::Command(Cmd::JumpNext));
}

#[test]
fn a_line_in_command_mode_is_read_as_a_command_without_its_end() {
    assert_eq!(
        Ui::new().get_input("%p\n").unwrap(),
        Action::Command(Cmd::Print(Range::Range(Pos::Line(1), Pos::End), PrintOption::Normal))
    );
    assert_eq!(
        Ui::new().get_input("2n \t\r\n").unwrap(),
        Action::Command(Cmd::Print(Range::Line(Pos::Line(2)), PrintOption::Numbered))
    );
    assert_eq!(Ui::new().get_input("q").unwrap(), Action::Command(Cmd::Quit));
    assert_eq!(
        Ui::new().get_input("w out.txt  \n").unwrap(),
        Action::Command(Cmd::Write(Some("out.txt".to_string())))
    );
}

#[test]
fn a_line_that_is_no_command_fails_in_command_mode() {
    let err = Ui::new().get_input("hello\n").unwrap_err();
    assert_eq!(err.error, ErrorType::ParseError(ParseError::UnknownCommand));
    let err = Ui::new().get_input("p x\n").unwrap_err();
    assert_eq!(err.error, ErrorType::ParseError(ParseError::UnexpectedArgument));
    let err = Ui::new().get_input("1,,p\n").unwrap_err();
    assert_eq!(err.error, ErrorType::ParseError(ParseError::InvalidRange));
    assert_eq!(err.msg, "1,,");
}

#[test]
fn a_line_in_insert_mode_is_text_without_its_end() {
    assert_eq!(insert_ui().get_input("hello\n").unwrap(), Action::Insert("hello".to_string()));
    assert_eq!(
        insert_ui().get_input("  two words \r\n").unwrap(),
        Action::Insert("  two words".to_string())
    );
    assert_eq!(insert_ui().get_input("%p\n").unwrap(), Action::Insert("%p".to_string()));
    assert_eq!(insert_ui().get_input("\n").unwrap(), Action::Insert(String::new()));
}

#[test]
fn a_lone_dot_in_insert_mode_ends_the_text() {
    assert_eq!(insert_ui().get_input(".\n").unwrap(), Action::InsertEnd);
    assert_eq!(insert_ui().get_input(".").unwrap(), Action::InsertEnd);
    assert_eq!(insert_ui().get_input(". \n").unwrap(), Action::InsertEnd);
}

#[test]
fn a_dot_with_more_in_insert_mode_is_text() {
    assert_eq!(insert_ui().get_input("..\n").unwrap(), Action::Insert("..".to_string()));
    assert_eq!(insert_ui().get_input(" .\n").unwrap(), Action::Insert(" .".to_string()));
    assert_eq!(insert_ui().get_input(".a\n").unwrap(), Action::Insert(".a".to_string()));
}

#[test]
fn interpret_takes_the_line_as_it_is() {
    assert_eq!(Ui::new().interpret("").unwrap(), Action::Command(Cmd::JumpNext));
    assert_eq!(Ui::new().interpret("q").unwrap(), Action::Command(Cmd::Quit));
    assert_eq!(
        Ui::new().interpret("q ").unwrap_err().error,
        ErrorType::ParseError(ParseError::UnexpectedArgument)
    );
    assert_eq!(insert_ui().interpret("").unwrap(), Action::Insert(String::new()));
    assert_eq!(insert_ui().interpret(".").unwrap(), Action::InsertEnd);
    assert_eq!(insert_ui().interpret(". ").unwrap(), Action::Insert(". ".to_string()));
    assert_eq!(insert_ui().interpret("q").unwrap(), Action::Insert("q".to_string()));
}

#[test]
fn decimal_of_numbers() {
    assert_eq!(decimal_string(0), "0");
    assert_eq!(decimal_string(7), "7");
    assert_eq!(decimal_string(9), "9");
    assert_eq!(decimal_string(10), "10");
    assert_eq!(decimal_string(101), "101");
    assert_eq!(decimal_string(1234567890), "1234567890");
    assert_eq!(decimal_string(usize::MAX), format!("{}", usize::MAX));
}

#[test]
fn display_model_holds_what_it_was_made_of() {
    let buffer = text_of(&["x", "y"]);
    let model = DisplayModel::new(&buffer, 0..2, PrintOption::Numbered);
    assert_eq!(model.range, 0..2);
    assert_eq!(model.option, PrintOption::Numbered);
    assert_eq!(model.buffer.len(), 2);
}

#[test]
fn display_plain() {
    let buffer = text_of(&["x", "y", "z"]);
    let model = DisplayModel::new(&buffer, 0..3, PrintOption::Normal);
    assert_eq!(Ui::new().display(model).unwrap(), vec!["x", "y", "z"]);
}

#[test]
fn display_numbered_counts_from_one() {
    let buffer = text_of(&["x", "y", "z"]);
    let model = DisplayModel::new(&buffer, 0..3, PrintOption::Numbered);
    assert_eq!(Ui::new().display(model).unwrap(), vec!["1\tx", "2\ty", "3\tz"]);
}

#[test]
fn display_numbered_of_a_part_keeps_the_numbers_of_the_lines() {
    let buffer = text_of(&["x", "y", "z"]);
    let model = DisplayModel::new(&buffer, 1..3, PrintOption::Numbered);
    assert_eq!(Ui::new().display(model).unwrap(), vec!["2\ty", "3\tz"]);
}

#[test]
fn display_numbered_beyond_nine() {
    let lines: Vec<String> = (1..=12).map(|n| format!("line {}", n)).collect();
    let buffer = Buffer::from_buf_read(lines).unwrap();
    let model = DisplayModel::new(&buffer, 8..12, PrintOption::Numbered);
    assert_eq!(
        Ui::new().display(model).unwrap(),
        vec!["9\tline 9", "10\tline 10", "11\tline 11", "12\tline 12"]
    );
}

#[test]
fn display_line_endings() {
    let buffer = text_of(&["x", "", "z "]);
    let model = DisplayModel::new(&buffer, 0..3, PrintOption::LineEndings);
    assert_eq!(Ui::new().display(model).unwrap(), vec!["x$", "$", "z $"]);
}

#[test]
fn display_of_no_lines() {
    let buffer = text_of(&["x"]);
    let model = DisplayModel::new(&buffer, 1..1, PrintOption::Normal);
    assert_eq!(Ui::new().display(model).unwrap(), Vec::<String>::new());
}

#[test]
fn display_beyond_the_buffer_is_out_of_bounds() {
    let buffer = text_of(&["x", "y", "z"]);
    let model = DisplayModel::new(&buffer, 0..4, PrintOption::Normal);
    assert_eq!(Ui::new().display(model).unwrap_err().error, ErrorType::OutOfBounds);
    let model = DisplayModel::new(&buffer, 4..5, PrintOption::Numbered);
    assert_eq!(Ui::new().display(model).unwrap_err().error, ErrorType::OutOfBounds);
}
