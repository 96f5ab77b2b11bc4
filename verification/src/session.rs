//! The session: a buffer, a cursor and a mode, and what each action does to
//! them.
//!
//! The session does no input or output itself. It is handed one action at a
//! time, changes its state, and hands back a request where something is to
//! be shown, read or written.

use vstd::prelude::*;
use crate::buffer::{spliced, texts, Buffer};
use crate::cmd::{Cmd, CmdView};
use crate::error::{Error, ErrorType, ErrorView};
use crate::pattern::text_view;
use crate::pos::{Converter, Pos, Range};
use crate::ui::{Action, ActionView, DisplayModel, Mode, PrintOption, Ui};

verus! {

/// Text that is being typed in: where it is to go, and the lines so far.
#[derive(Debug)]
struct InputInformation {
    position: usize,
    input_buffer: Buffer,
}

impl InputInformation {
    fn new(pos: usize) -> (info: InputInformation)
        ensures
            info.position == pos,
            info.input_buffer.wf(),
            info.input_buffer@ == Seq::<Seq<char>>::empty(),
    {
        InputInformation { position: pos, input_buffer: Buffer::new() }
    }
}

/// An editing session: a buffer, the current line, and the text that is
/// being typed in, if any.
#[derive(Debug)]
pub struct Rsed {
    current_buffer: Buffer,
    input_info: Option<InputInformation>,
    current_line: usize,
    running: bool,
    path: Option<String>,
}

/// What the session asks of its surroundings.
#[derive(Debug)]
pub enum Request<'a> {
    /// Show these lines.
    Display(DisplayModel<'a>),
    /// Show this number.
    LineNumber(usize),
    /// Show the range as it was read, and the numbers of its first and last
    /// line as they resolve, if they do.
    Debug(Range, Option<(usize, usize)>),
    /// Read the file at this path, and hand its lines to `read_file`.
    Read(String),
    /// Write the buffer to the file at this path.
    Write(String),
}

/// A `Request` as plain values. The lines to show are lines of the
/// session's buffer.
pub enum RequestView {
    Display(std::ops::Range<usize>, PrintOption),
    LineNumber(usize),
    Debug(Range, Option<(usize, usize)>),
    Read(Seq<char>),
    Write(Seq<char>),
}

impl<'a> View for Request<'a> {
    type V = RequestView;

    open spec fn view(&self) -> RequestView {
        match *self {
            Request::Display(model) => RequestView::Display(model.range, model.option),
            Request::LineNumber(n) => RequestView::LineNumber(n),
            Request::Debug(r, lines) => RequestView::Debug(r, lines),
            Request::Read(path) => RequestView::Read(path@),
            Request::Write(path) => RequestView::Write(path@),
        }
    }
}

/// What a dispatch gives, as plain values.
pub open spec fn outcome<'a>(r: Result<Option<Request<'a>>, Error>) -> Result<
    Option<RequestView>,
    ErrorView,
> {
    match r {
        Ok(Some(request)) => Ok(Some(request@)),
        Ok(None) => Ok(None),
        Err(e) => Err(e@),
    }
}

/// Text that is being typed in: the index in the buffer at which it is to go
/// in, and the lines so far.
pub struct Pending {
    pub target: usize,
    pub lines: Seq<Seq<char>>,
}

/// The state of a session.
pub struct RsedView {
    /// The lines of the buffer.
    pub buffer: Seq<Seq<char>>,
    /// Whether the buffer was changed.
    pub modified: bool,
    /// The number of the current line, counted from 1; 0 where there is none.
    pub current_line: usize,
    /// The text that is being typed in. The session is in insert mode while
    /// there is one, and in command mode while there is none.
    pub pending: Option<Pending>,
    /// Whether the session goes on.
    pub running: bool,
    /// The path on record.
    pub path: Option<Seq<char>>,
}

/// The failure of that kind, without a message, that leaves the state as it
/// is.
pub open spec fn refused(s: RsedView, error: ErrorType) -> (RsedView, Result<
    Option<RequestView>,
    ErrorView,
>) {
    (s, Err(ErrorView::bare(error)))
}

impl RsedView {
    /// The mode of the session.
    pub open spec fn mode(self) -> Mode {
        if self.pending is Some {
            Mode::Insert
        } else {
            Mode::Command
        }
    }

    /// The number of the line that `pos` names. A line number names itself,
    /// whether or not the buffer has such a line.
    pub open spec fn resolve(self, pos: Pos) -> Result<usize, ErrorType> {
        match pos {
            Pos::Line(n) => Ok(n),
            Pos::Current => if self.current_line == 0 {
                Err(ErrorType::UndefinedCurrentLine)
            } else {
                Ok(self.current_line)
            },
            Pos::End => Ok(self.buffer.len() as usize),
        }
    }

    /// The numbers of the first and the last line of `r`. The first may come
    /// after the last, and neither need be a line of the buffer.
    pub open spec fn resolve_range(self, r: Range) -> Result<(usize, usize), ErrorType> {
        match self.resolve(r.first()) {
            Ok(from) => match self.resolve(r.last()) {
                Ok(to) => Ok((from, to)),
                Err(e) => Err(e),
            },
            Err(e) => Err(e),
        }
    }

    /// Whether the lines numbered `from` to `to` are lines of the buffer, and
    /// at least one.
    pub open spec fn has_lines(self, from: usize, to: usize) -> bool {
        1 <= from <= to <= self.buffer.len()
    }

    /// Showing the lines of `r`.
    pub open spec fn print(self, r: Range, option: PrintOption) -> Result<
        Option<RequestView>,
        ErrorView,
    > {
        match self.resolve_range(r) {
            Ok((from, to)) => if self.has_lines(from, to) {
                Ok(
                    Some(
                        RequestView::Display(
                            std::ops::Range { start: (from - 1) as usize, end: to },
                            option,
                        ),
                    ),
                )
            } else {
                Err(ErrorView::bare(ErrorType::InvalidRange(r)))
            },
            Err(e) => Err(ErrorView::bare(e)),
        }
    }

    /// The state with `current_line` as its current line, and the request to
    /// show that line.
    pub open spec fn at_line(self, current_line: usize) -> (RsedView, Result<
        Option<RequestView>,
        ErrorView,
    >) {
        (
            RsedView { current_line, ..self },
            Ok(
                Some(
                    RequestView::Display(
                        std::ops::Range { start: (current_line - 1) as usize, end: current_line },
                        PrintOption::Normal,
                    ),
                ),
            ),
        )
    }

    /// What a command does to a session in command mode.
    pub open spec fn dispatch(self, cmd: CmdView) -> (RsedView, Result<
        Option<RequestView>,
        ErrorView,
    >) {
        match cmd {
            CmdView::Quit => (RsedView { running: false, ..self }, Ok(None)),
            CmdView::Print(r, option) => (self, self.print(r, option)),
            CmdView::Jump(r) => match self.resolve_range(r) {
                Ok((_, to)) => if self.has_lines(to, to) {
                    self.at_line(to)
                } else {
                    refused(self, ErrorType::InvalidRange(r))
                },
                Err(e) => refused(self, e),
            },
            CmdView::JumpNext => if self.current_line == 0 {
                refused(self, ErrorType::UndefinedCurrentLine)
            } else if self.current_line < self.buffer.len() {
                self.at_line((self.current_line + 1) as usize)
            } else {
                refused(self, ErrorType::InvalidRange(Range::Line(Pos::Current)))
            },
            CmdView::PrintLineNumber(r) => match self.resolve_range(r) {
                Ok((from, to)) => if self.has_lines(from, to) {
                    (self, Ok(Some(RequestView::LineNumber(to))))
                } else {
                    refused(self, ErrorType::InvalidRange(r))
                },
                Err(e) => refused(self, e),
            },
            CmdView::Debug(r) => (
                self,
                Ok(
                    Some(
                        RequestView::Debug(
                            r,
                            match self.resolve_range(r) {
                                Ok(lines) => Some(lines),
                                Err(_) => None,
                            },
                        ),
                    ),
                ),
            ),
            CmdView::Read(path) => (self, Ok(Some(RequestView::Read(path)))),
            CmdView::Write(Some(path)) => (
                RsedView {
                    path: if self.path is None {
                        Some(path)
                    } else {
                        self.path
                    },
                    ..self
                },
                Ok(Some(RequestView::Write(path))),
            ),
            CmdView::Write(None) => match self.path {
                Some(path) => (self, Ok(Some(RequestView::Write(path)))),
                None => refused(self, ErrorType::NoAssociatedPath),
            },
            CmdView::EnterInsertMode(r) => match self.resolve(r.last()) {
                Ok(target) => (
                    RsedView { pending: Some(Pending { target, lines: Seq::empty() }), ..self },
                    Ok(None),
                ),
                Err(e) => refused(self, e),
            },
        }
    }

    /// What the end of the text does: the lines typed go into the buffer at
    /// the index that was recorded, and the last of them becomes the current
    /// line. The index is the number of the line that was addressed, so the
    /// text comes to stand after that line, not before it as in `ed`. An
    /// index beyond the end of the buffer is out of bounds; the text is
    /// dropped then, and nothing else changes.
    pub open spec fn end_insert(self, pending: Pending) -> (RsedView, Result<
        Option<RequestView>,
        ErrorView,
    >) {
        if pending.target <= self.buffer.len() {
            (
                RsedView {
                    buffer: spliced(self.buffer, pending.target as int, pending.lines),
                    modified: true,
                    current_line: (pending.target + pending.lines.len()) as usize,
                    pending: None,
                    ..self
                },
                Ok(None),
            )
        } else {
            (RsedView { pending: None, ..self }, Err(ErrorView::bare(ErrorType::OutOfBounds)))
        }
    }

    /// What an action does: the state after it, and the request or the
    /// failure that it gives. A command in insert mode, or text in command
    /// mode, does not fit the state.
    pub open spec fn step(self, action: ActionView) -> (RsedView, Result<
        Option<RequestView>,
        ErrorView,
    >) {
        match action {
            ActionView::Command(cmd) => match self.pending {
                None => self.dispatch(cmd),
                Some(_) => refused(self, ErrorType::InvalidState),
            },
            ActionView::Insert(text) => match self.pending {
                Some(pending) => (
                    RsedView {
                        pending: Some(Pending { lines: pending.lines.push(text), ..pending }),
                        ..self
                    },
                    Ok(None),
                ),
                None => refused(self, ErrorType::InvalidState),
            },
            ActionView::InsertEnd => match self.pending {
                Some(pending) => self.end_insert(pending),
                None => refused(self, ErrorType::InvalidState),
            },
        }
    }
}

impl RsedView {
    /// The state after each of `lines` was typed in, in order.
    pub open spec fn typed(self, lines: Seq<Seq<char>>) -> RsedView
        decreases lines.len(),
    {
        if lines.len() == 0 {
            self
        } else {
            self.typed(lines.drop_last()).step(ActionView::Insert(lines.last())).0
        }
    }

    /// In insert mode, typing lines adds them to the text that is being
    /// typed in, and changes nothing else.
    pub proof fn typing_gathers_lines(self, lines: Seq<Seq<char>>)
        requires
            self.pending is Some,
        ensures
            self.typed(lines) == (RsedView {
                pending: Some(
                    Pending {
                        target: self.pending->0.target,
                        lines: self.pending->0.lines + lines,
                    },
                ),
                ..self
            }),
        decreases lines.len(),
    {
        if lines.len() == 0 {
        } else {
            self.typing_gathers_lines(lines.drop_last());
            assert((self.pending->0.lines + lines.drop_last()).push(lines.last())
                =~= self.pending->0.lines + lines);
        }
    }

    /// A line number of the buffer names itself, wherever the cursor is: in
    /// any two states, whatever their current lines, it resolves to the same
    /// number, its own.
    pub proof fn line_number_names_itself(self, other: RsedView, n: usize)
        requires
            1 <= n <= self.buffer.len(),
        ensures
            self.resolve(Pos::Line(n)) == Ok::<usize, ErrorType>(n),
            other.resolve(Pos::Line(n)) == self.resolve(Pos::Line(n)),
    {
    }

    /// The current line resolves to the cursor as it is at that moment:
    /// before an action to the cursor before it, after the action to the
    /// cursor after it. This holds wherever there is a current line.
    pub proof fn current_line_is_the_cursor(self, action: ActionView)
        ensures
            self.current_line != 0 ==> self.resolve(Pos::Current) == Ok::<usize, ErrorType>(
                self.current_line,
            ),
            self.step(action).0.current_line != 0 ==> self.step(action).0.resolve(Pos::Current)
                == Ok::<usize, ErrorType>(self.step(action).0.current_line),
    {
    }

    /// The whole buffer resolves to line 1 and the number of lines, wherever
    /// the cursor is, and also where there is no current line.
    pub proof fn whole_buffer_is_every_line(self)
        requires
            self.buffer.len() <= usize::MAX,
        ensures
            self.resolve_range(Range::whole()) == Ok::<(usize, usize), ErrorType>(
                (1usize, self.buffer.len() as usize),
            ),
    {
    }

    /// Text that is typed in reads back: after a command to insert at an
    /// address that resolves to `target`, the typing of `lines` and the end
    /// of the text, the buffer holds `lines` from index `target` on, between
    /// what came before that index and what came after it; the last line
    /// typed is the current line; and the session is in command mode again.
    pub proof fn typed_text_reads_back(self, r: Range, target: usize, lines: Seq<Seq<char>>)
        requires
            self.pending is None,
            self.resolve(r.last()) == Ok::<usize, ErrorType>(target),
            target <= self.buffer.len(),
            target + lines.len() <= usize::MAX,
        ensures
            ({
                let entered = self.step(ActionView::Command(CmdView::EnterInsertMode(r)));
                let ended = entered.0.typed(lines).step(ActionView::InsertEnd);
                &&& entered.1 == Ok::<Option<RequestView>, ErrorView>(None)
                &&& ended.1 == Ok::<Option<RequestView>, ErrorView>(None)
                &&& ended.0.buffer == spliced(self.buffer, target as int, lines)
                &&& ended.0.current_line == target + lines.len()
                &&& ended.0.mode() == Mode::Command
            }),
    {
        let entered = self.step(ActionView::Command(CmdView::EnterInsertMode(r)));
        entered.0.typing_gathers_lines(lines);
    }

    /// An action that fails changes neither the buffer, nor the cursor, nor
    /// whether the session goes on, nor the path on record. The mode stays
    /// too, but for the end of a text that cannot go in: that text is
    /// dropped.
    pub proof fn failure_changes_nothing(self, action: ActionView)
        requires
            self.step(action).1 is Err,
        ensures
            self.step(action).0 == (RsedView { pending: self.step(action).0.pending, ..self }),
            action != ActionView::InsertEnd ==> self.step(action).0 == self,
    {
    }

    /// In insert mode no command is carried out: each fails, the state does
    /// not fit it. So of two commands to insert, with no end of the text
    /// between them, the second fails.
    pub proof fn insert_mode_takes_no_command(self, first: Range, cmd: CmdView)
        requires
            self.pending is None,
            self.step(ActionView::Command(CmdView::EnterInsertMode(first))).1 is Ok,
        ensures
            ({
                let entered = self.step(ActionView::Command(CmdView::EnterInsertMode(first))).0;
                entered.step(ActionView::Command(cmd)) == refused(entered, ErrorType::InvalidState)
            }),
    {
    }
}

impl View for Rsed {
    type V = RsedView;

    closed spec fn view(&self) -> RsedView {
        RsedView {
            buffer: self.current_buffer@,
            modified: self.current_buffer.modified(),
            current_line: self.current_line,
            pending: match self.input_info {
                Some(info) => Some(Pending { target: info.position, lines: info.input_buffer@ }),
                None => None,
            },
            running: self.running,
            path: text_view(self.path),
        }
    }
}

impl<'a> Converter<&'a Pos, Result<usize, ErrorType>> for Rsed {
    /// The number of the line that `pos` names: as `RsedView::resolve` has
    /// it, with the count that the buffer keeps for the number of its lines.
    closed spec fn converted(&self, pos: &'a Pos) -> Result<usize, ErrorType> {
        match *pos {
            Pos::Line(n) => Ok(n),
            Pos::Current => if self.current_line == 0 {
                Err(ErrorType::UndefinedCurrentLine)
            } else {
                Ok(self.current_line)
            },
            Pos::End => Ok(self.current_buffer.count()),
        }
    }

    fn convert(&self, pos: &'a Pos) -> (to: Result<usize, ErrorType>) {
        match *pos {
            Pos::Line(n) => Ok(n),
            Pos::Current => if self.current_line == 0 {
                Err(ErrorType::UndefinedCurrentLine)
            } else {
                Ok(self.current_line)
            },
            Pos::End => Ok(self.current_buffer.len()),
        }
    }
}

impl Rsed {
    /// The buffers of the session keep the right counts.
    pub closed spec fn wf(&self) -> bool {
        &&& self.current_buffer.wf()
        &&& match self.input_info {
            Some(info) => info.input_buffer.wf(),
            None => true,
        }
    }

    /// The buffer of the session.
    pub closed spec fn spec_buffer(&self) -> Buffer {
        self.current_buffer
    }

    /// The session resolves an address as its state does.
    pub proof fn converts_as_resolved(&self, pos: Pos)
        requires
            self.wf(),
        ensures
            self.converted(&pos) == self@.resolve(pos),
            self.spec_buffer().wf(),
            self.spec_buffer()@ == self@.buffer,
            self.spec_buffer().modified() == self@.modified,
    {
        self.current_buffer.count_is_length();
    }

    /// For the session too, the whole buffer is every line: its range
    /// resolves to line 1 and the number of lines, and spans the indices from
    /// 0 up to that number, wherever the cursor is.
    pub proof fn whole_buffer_spans_every_line(&self)
        requires
            self.wf(),
        ensures
            Range::whole().resolved(self) == Ok::<(usize, usize), ErrorType>(
                (1usize, self@.buffer.len() as usize),
            ),
            Range::whole().span(self) == Ok::<std::ops::Range<usize>, ErrorView>(
                std::ops::Range { start: 0usize, end: self@.buffer.len() as usize },
            ),
    {
        self.current_buffer.count_is_length();
    }

    /// A session with an empty buffer, no current line and no path on
    /// record, in command mode.
    pub fn new() -> (session: Rsed)
        ensures
            session.wf(),
            session@ == (RsedView {
                buffer: Seq::empty(),
                modified: false,
                current_line: 0,
                pending: None,
                running: true,
                path: None,
            }),
    {
        Rsed {
            current_buffer: Buffer::new(),
            input_info: None,
            current_line: 0,
            running: true,
            path: None,
        }
    }

    /// A session on the text that was read from the file at `path`, in
    /// command mode. The first line is the current line, if there is one.
    pub fn from_path(path: String, lines: Vec<String>) -> (r: Result<Rsed, Error>)
        ensures
            r matches Ok(session) && session.wf() && session@ == (RsedView {
                buffer: texts(lines@),
                modified: false,
                current_line: if lines@.len() > 0 {
                    1usize
                } else {
                    0usize
                },
                pending: None,
                running: true,
                path: Some(path@),
            }),
    {
        let buffer = match Buffer::from_buf_read(lines) {
            Ok(buffer) => buffer,
            Err(e) => {
                return Err(e);
            },
        };
        let current_line: usize = if buffer.is_empty() {
            0
        } else {
            1
        };
        Ok(
            Rsed {
                current_buffer: buffer,
                input_info: None,
                current_line,
                running: true,
                path: Some(path),
            },
        )
    }

    /// Replaces the buffer by the text that was read from the file at
    /// `path`, and puts the path on record. The rest of the state stays.
    pub fn read_file(&mut self, path: String, lines: Vec<String>) -> (r: Result<(), Error>)
        requires
            old(self).wf(),
        ensures
            r is Ok,
            final(self).wf(),
            final(self)@ == (RsedView {
                buffer: texts(lines@),
                modified: false,
                path: Some(path@),
                ..old(self)@
            }),
    {
        let buffer = match Buffer::from_buf_read(lines) {
            Ok(buffer) => buffer,
            Err(e) => {
                return Err(e);
            },
        };
        self.current_buffer = buffer;
        self.path = Some(path);
        Ok(())
    }

    /// Whether the session goes on: no command has ended it.
    pub fn is_running(&self) -> (running: bool)
        ensures
            running == self@.running,
    {
        self.running
    }

    /// The number of the current line, counted from 1; 0 where there is
    /// none.
    pub fn current_line(&self) -> (line: usize)
        ensures
            line == self@.current_line,
    {
        self.current_line
    }

    /// The buffer.
    pub fn buffer(&self) -> (buffer: &Buffer)
        ensures
            *buffer == self.spec_buffer(),
            self.wf() ==> buffer.wf() && buffer@ == self@.buffer && buffer.modified()
                == self@.modified,
    {
        &self.current_buffer
    }

    /// How the next line of input is to be read.
    pub fn ui(&self) -> (ui: Ui)
        ensures
            ui.mode_of() == self@.mode(),
    {
        let mut ui = Ui::new();
        if self.input_info.is_some() {
            ui.set_mode(Mode::Insert);
        }
        ui
    }

    /// Carries out `action`.
    ///
    /// The state afterwards, and the request or failure given, are those of
    /// `RsedView::step`. The lines of a request to show lines are lines of the
    /// buffer as it is afterwards, and they are there.
    pub fn handle_action<'a>(&'a mut self, action: Action) -> (r: Result<
        Option<Request<'a>>,
        Error,
    >)
        requires
            old(self).wf(),
        ensures
            final(self).wf(),
            (final(self)@, outcome(r)) == old(self)@.step(action@),
            r matches Ok(Some(Request::Display(model))) ==> {
                &&& *model.buffer == final(self).spec_buffer()
                &&& model.buffer.wf()
                &&& model.buffer@ == final(self)@.buffer
                &&& model.in_bounds()
                &&& model.range.start < model.range.end
            },
    {
        match action {
            Action::Command(cmd) => {
                if self.input_info.is_some() {
                    return Err(Error::new(ErrorType::InvalidState));
                }
                match cmd {
                    Cmd::Quit => {
                        self.running = false;
                        Ok(None)
                    },
                    Cmd::Print(r, option) => match self.print_range(r, option) {
                        Ok(model) => Ok(Some(Request::Display(model))),
                        Err(e) => Err(e),
                    },
                    Cmd::Jump(r) => match self.jump_to(r) {
                        Ok(model) => Ok(Some(Request::Display(model))),
                        Err(e) => Err(e),
                    },
                    Cmd::PrintLineNumber(r) => match self.print_line_number(r) {
                        Ok(n) => Ok(Some(Request::LineNumber(n))),
                        Err(e) => Err(e),
                    },
                    Cmd::JumpNext => match self.jump_next() {
                        Ok(model) => Ok(Some(Request::Display(model))),
                        Err(e) => Err(e),
                    },
                    Cmd::Debug(r) => Ok(Some(self.debug(r))),
                    Cmd::Read(f) => Ok(Some(Request::Read(f))),
                    Cmd::Write(f) => match self.write_to(f) {
                        Ok(path) => Ok(Some(Request::Write(path))),
                        Err(e) => Err(e),
                    },
                    Cmd::EnterInsertMode(r) => match self.enter_insert_mode(r) {
                        Ok(()) => Ok(None),
                        Err(e) => Err(e),
                    },
                }
            },
            Action::Insert(s) => match self.insert_line(s) {
                Ok(()) => Ok(None),
                Err(e) => Err(e),
            },
            Action::InsertEnd => match self.end_insert_mode() {
                Ok(()) => Ok(None),
                Err(e) => Err(e),
            },
        }
    }

    fn enter_insert_mode(&mut self, r: Range) -> (res: Result<(), Error>)
        requires
            old(self).wf(),
        ensures
            final(self).wf(),
            (final(self)@, outcome(match res {
                Ok(()) => Ok(None),
                Err(e) => Err(e),
            })) == old(self)@.step(ActionView::Command(CmdView::EnterInsertMode(r))),
    {
        if self.input_info.is_some() {
            return Err(Error::new(ErrorType::InvalidState));
        }
        let pos = Pos::from(r);
        proof {
            self.converts_as_resolved(pos);
        }
        let target = match self.convert(&pos) {
            Ok(target) => target,
            Err(e) => {
                return Err(Error::new(e));
            },
        };
        self.input_info = Some(InputInformation::new(target));
        Ok(())
    }

    fn insert_line(&mut self, s: String) -> (res: Result<(), Error>)
        requires
            old(self).wf(),
        ensures
            final(self).wf(),
            (final(self)@, outcome(match res {
                Ok(()) => Ok(None),
                Err(e) => Err(e),
            })) == old(self)@.step(ActionView::Insert(s@)),
    {
        match self.input_info.take() {
            Some(input_info) => {
                let mut input_info = input_info;
                input_info.input_buffer.add_line(s);
                self.input_info = Some(input_info);
                Ok(())
            },
            None => Err(Error::new(ErrorType::InvalidState)),
        }
    }

    fn end_insert_mode(&mut self) -> (res: Result<(), Error>)
        requires
            old(self).wf(),
        ensures
            final(self).wf(),
            (final(self)@, outcome(match res {
                Ok(()) => Ok(None),
                Err(e) => Err(e),
            })) == old(self)@.step(ActionView::InsertEnd),
    {
        match self.input_info.take() {
            Some(input_info) => {
                let pos = input_info.position;
                let input_buffer = input_info.input_buffer;
                let added = input_buffer.len();
                match self.current_buffer.insert_buffer(pos, input_buffer) {
                    Ok(()) => {
                        proof {
                            self.current_buffer.count_is_length();
                        }
                        self.current_line = pos + added;
                        Ok(())
                    },
                    Err(e) => Err(e),
                }
            },
            None => Err(Error::new(ErrorType::InvalidState)),
        }
    }

    fn print_line_number(&self, r: Range) -> (res: Result<usize, Error>)
        requires
            self.wf(),
            self@.pending is None,
        ensures
            outcome(match res {
                Ok(n) => Ok(Some(Request::LineNumber(n))),
                Err(e) => Err(e),
            }) == self@.step(ActionView::Command(CmdView::PrintLineNumber(r))).1,
    {
        proof {
            self.converts_as_resolved(r.first());
            self.converts_as_resolved(r.last());
        }
        let range = match r.to_range(self) {
            Ok(range) => range,
            Err(e) => {
                return Err(e);
            },
        };
        if self.current_buffer.is_range_out_of_bounds(&range) || range.start >= range.end {
            return Err(Error::new(ErrorType::InvalidRange(r)));
        }
        Ok(range.end)
    }

    fn print_range<'a>(&'a self, r: Range, option: PrintOption) -> (res: Result<
        DisplayModel<'a>,
        Error,
    >)
        requires
            self.wf(),
        ensures
            outcome(match res {
                Ok(model) => Ok(Some(Request::Display(model))),
                Err(e) => Err(e),
            }) == self@.print(r, option),
            res matches Ok(model) ==> *model.buffer == self.spec_buffer() && model.in_bounds()
                && model.range.start < model.range.end,
    {
        proof {
            self.converts_as_resolved(r.first());
            self.converts_as_resolved(r.last());
        }
        let range = match r.to_range(self) {
            Ok(range) => range,
            Err(e) => {
                return Err(e);
            },
        };
        if self.current_buffer.is_range_out_of_bounds(&range) || range.start >= range.end {
            return Err(Error::new(ErrorType::InvalidRange(r)));
        }
        Ok(DisplayModel::new(&self.current_buffer, range, option))
    }

    fn show_current<'a>(&'a mut self, line: usize) -> (model: DisplayModel<'a>)
        requires
            old(self).wf(),
            1 <= line <= old(self)@.buffer.len(),
        ensures
            final(self).wf(),
            (final(self)@, Ok::<Option<RequestView>, ErrorView>(Some(Request::Display(model)@)))
                == old(self)@.at_line(line),
            *model.buffer == final(self).spec_buffer(),
            model.in_bounds(),
            model.range.start < model.range.end,
    {
        self.current_line = line;
        DisplayModel::new(
            &self.current_buffer,
            std::ops::Range { start: line - 1, end: line },
            PrintOption::Normal,
        )
    }

    fn jump_to<'a>(&'a mut self, r: Range) -> (res: Result<DisplayModel<'a>, Error>)
        requires
            old(self).wf(),
            old(self)@.pending is None,
        ensures
            final(self).wf(),
            (final(self)@, outcome(match res {
                Ok(model) => Ok(Some(Request::Display(model))),
                Err(e) => Err(e),
            })) == old(self)@.step(ActionView::Command(CmdView::Jump(r))),
            res matches Ok(model) ==> *model.buffer == final(self).spec_buffer()
                && model.in_bounds() && model.range.start < model.range.end,
    {
        proof {
            self.converts_as_resolved(r.first());
            self.converts_as_resolved(r.last());
        }
        let line = match r.resolve(&*self) {
            Ok((_, to)) => to,
            Err(e) => {
                return Err(Error::new(e));
            },
        };
        if line == 0 || self.current_buffer.is_out_of_bounds(line) {
            return Err(Error::new(ErrorType::InvalidRange(r)));
        }
        Ok(self.show_current(line))
    }

    fn jump_next<'a>(&'a mut self) -> (res: Result<DisplayModel<'a>, Error>)
        requires
            old(self).wf(),
            old(self)@.pending is None,
        ensures
            final(self).wf(),
            (final(self)@, outcome(match res {
                Ok(model) => Ok(Some(Request::Display(model))),
                Err(e) => Err(e),
            })) == old(self)@.step(ActionView::Command(CmdView::JumpNext)),
            res matches Ok(model) ==> *model.buffer == final(self).spec_buffer()
                && model.in_bounds() && model.range.start < model.range.end,
    {
        if self.current_line == 0 {
            return Err(Error::new(ErrorType::UndefinedCurrentLine));
        }
        if self.current_line >= self.current_buffer.len() {
            return Err(Error::new(ErrorType::InvalidRange(Range::current_line())));
        }
        let line = self.current_line + 1;
        Ok(self.show_current(line))
    }

    fn debug<'a>(&'a self, r: Range) -> (request: Request<'a>)
        requires
            self.wf(),
            self@.pending is None,
        ensures
            Ok::<Option<RequestView>, ErrorView>(Some(request@)) == self@.step(
                ActionView::Command(CmdView::Debug(r)),
            ).1,
            !(request is Display),
    {
        proof {
            self.converts_as_resolved(r.first());
            self.converts_as_resolved(r.last());
        }
        let lines = match r.resolve(self) {
            Ok(lines) => Some(lines),
            Err(_) => None,
        };
        Request::Debug(r, lines)
    }

    fn write_to(&mut self, path: Option<String>) -> (res: Result<String, Error>)
        requires
            old(self).wf(),
            old(self)@.pending is None,
        ensures
            final(self).wf(),
            (final(self)@, outcome(match res {
                Ok(to) => Ok(Some(Request::Write(to))),
                Err(e) => Err(e),
            })) == old(self)@.step(ActionView::Command(CmdView::Write(text_view(path)))),
    {
        match path {
            Some(path) => {
                if self.path.is_none() {
                    self.path = Some(path.clone());
                }
                Ok(path)
            },
            None => match &self.path {
                Some(path) => Ok(path.clone()),
                None => Err(Error::new(ErrorType::NoAssociatedPath)),
            },
        }
    }
}

} // verus!
