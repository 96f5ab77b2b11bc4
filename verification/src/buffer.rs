//! The lines of a text, in order.
//!
//! Positions count from 0. A span of lines is given by the index of its
//! first line and the index after its last.

use vstd::prelude::*;
use vstd::slice::slice_subrange;
use vstd::utf8::encode_utf8;
use crate::error::{Error, ErrorType, ErrorView, plain};

verus! {

/// The lines of a text, the number of them, and whether any was inserted or
/// deleted since the buffer was made.
#[derive(Debug)]
pub struct Buffer {
    lines: Vec<String>,
    cached_num_lines: usize,
    modified: bool,
}

/// Strings as sequences of characters.
pub open spec fn texts(lines: Seq<String>) -> Seq<Seq<char>> {
    lines.map_values(|line: String| line@)
}

/// `lines` with `insert` put in before the line at `pos`.
pub open spec fn spliced<T>(lines: Seq<T>, pos: int, insert: Seq<T>) -> Seq<T> {
    lines.subrange(0, pos) + insert + lines.subrange(pos, lines.len() as int)
}

/// `lines` without those from `start` up to, not including, `end`.
pub open spec fn without<T>(lines: Seq<T>, start: int, end: int) -> Seq<T> {
    lines.subrange(0, start) + lines.subrange(end, lines.len() as int)
}

/// The lines from `start` up to, not including, `end`; none where `end` is
/// not after `start`.
pub open spec fn selected<T>(lines: Seq<T>, start: int, end: int) -> Seq<T> {
    if start <= end {
        lines.subrange(start, end)
    } else {
        Seq::empty()
    }
}

/// The bytes of a text file that holds `lines`: each line in UTF-8, with a
/// line feed after it.
pub open spec fn written(lines: Seq<Seq<char>>) -> Seq<u8>
    decreases lines.len(),
{
    if lines.len() == 0 {
        Seq::empty()
    } else {
        written(lines.drop_last()) + encode_utf8(lines.last()) + seq![10u8]
    }
}

/// What is inserted reads back: the lines put in at `pos` are the lines
/// selected from `pos` on, as many as were put in.
pub proof fn inserted_lines_read_back<T>(lines: Seq<T>, pos: int, insert: Seq<T>)
    requires
        0 <= pos <= lines.len(),
    ensures
        selected(spliced(lines, pos, insert), pos, pos + insert.len()) == insert,
        spliced(lines, pos, insert).len() == lines.len() + insert.len(),
        without(spliced(lines, pos, insert), pos, pos + insert.len()) == lines,
{
}

/// Puts the items of `insert` into `v` before the item at `pos`, and says how
/// many they were.
fn insert_all<T>(v: &mut Vec<T>, pos: usize, insert: Vec<T>) -> (count: usize)
    requires
        pos <= old(v)@.len(),
    ensures
        final(v)@ == spliced(old(v)@, pos as int, insert@),
        count == insert@.len(),
{
    let mut insert = insert;
    let count = insert.len();
    let mut tail = v.split_off(pos);
    v.append(&mut insert);
    v.append(&mut tail);
    count
}

impl View for Buffer {
    type V = Seq<Seq<char>>;

    /// The lines, first to last.
    closed spec fn view(&self) -> Seq<Seq<char>> {
        texts(self.lines@)
    }
}

impl Buffer {
    /// The count that the buffer keeps is the number of its lines.
    pub closed spec fn wf(&self) -> bool {
        self.cached_num_lines == self.lines@.len()
    }

    /// The count that the buffer keeps.
    pub closed spec fn count(&self) -> usize {
        self.cached_num_lines
    }

    /// Whether a line was inserted or deleted since the buffer was made.
    pub closed spec fn modified(&self) -> bool {
        self.modified
    }

    /// The count of a well-formed buffer is the number of its lines.
    pub proof fn count_is_length(&self)
        requires
            self.wf(),
        ensures
            self.count() == self@.len(),
    {
    }

    /// An empty buffer.
    pub fn new() -> (buffer: Buffer)
        ensures
            buffer.wf(),
            buffer@ == Seq::<Seq<char>>::empty(),
            buffer.count() == 0,
            !buffer.modified(),
    {
        Buffer { lines: Vec::new(), cached_num_lines: 0, modified: false }
    }

    /// The buffer of a text that was read line by line.
    pub fn from_buf_read(lines: Vec<String>) -> (r: Result<Buffer, Error>)
        ensures
            r matches Ok(buffer) && buffer.wf() && buffer@ == texts(lines@) && buffer.count()
                == lines@.len() && !buffer.modified(),
    {
        let cached_len = lines.len();
        Ok(Buffer { lines, cached_num_lines: cached_len, modified: false })
    }

    /// Inserts `insert` before the line at `pos`; at the end where `pos` is
    /// the number of lines. A `pos` beyond that is out of bounds, and nothing
    /// changes.
    pub fn insert_lines(&mut self, pos: usize, insert: Vec<String>) -> (r: Result<(), Error>)
        requires
            old(self).wf(),
        ensures
            final(self).wf(),
            pos <= old(self)@.len() ==> r is Ok && final(self)@ == spliced(
                old(self)@,
                pos as int,
                texts(insert@),
            ) && final(self).modified(),
            pos > old(self)@.len() ==> plain(r) == Err::<(), ErrorView>(
                ErrorView::bare(ErrorType::OutOfBounds),
            ) && *final(self) == *old(self),
    {
        if self.is_out_of_bounds(pos) {
            return Err(Error::new(ErrorType::OutOfBounds));
        }
        let added_lines = insert_all(&mut self.lines, pos, insert);
        proof {
            assert(self.lines.len() == self.lines@.len());
        }
        self.cached_num_lines = self.cached_num_lines + added_lines;
        self.modified = true;
        Ok(())
    }

    /// Inserts the lines of `buffer` before the line at `pos`; at the end
    /// where `pos` is the number of lines. A `pos` beyond that is out of
    /// bounds, and nothing changes.
    pub fn insert_buffer(&mut self, pos: usize, buffer: Buffer) -> (r: Result<(), Error>)
        requires
            old(self).wf(),
            buffer.wf(),
        ensures
            final(self).wf(),
            pos <= old(self)@.len() ==> r is Ok && final(self)@ == spliced(
                old(self)@,
                pos as int,
                buffer@,
            ) && final(self).modified(),
            pos > old(self)@.len() ==> plain(r) == Err::<(), ErrorView>(
                ErrorView::bare(ErrorType::OutOfBounds),
            ) && *final(self) == *old(self),
    {
        if self.is_out_of_bounds(pos) {
            return Err(Error::new(ErrorType::OutOfBounds));
        }
        insert_all(&mut self.lines, pos, buffer.lines);
        proof {
            assert(self.lines.len() == self.lines@.len());
        }
        self.cached_num_lines = self.cached_num_lines + buffer.cached_num_lines;
        self.modified = true;
        Ok(())
    }

    /// Adds `line` after the last line.
    pub fn add_line(&mut self, line: String)
        requires
            old(self).wf(),
        ensures
            final(self).wf(),
            final(self)@ == old(self)@.push(line@),
            final(self).modified(),
    {
        self.lines.push(line);
        proof {
            assert(self.lines.len() == self.lines@.len());
        }
        self.cached_num_lines = self.cached_num_lines + 1;
        self.modified = true;
    }

    /// Deletes the lines from `start` up to, not including, `end`. An index
    /// beyond the number of lines, or a `start` after `end`, is out of
    /// bounds, and nothing changes.
    pub fn delete_lines(&mut self, start: usize, end: usize) -> (r: Result<(), Error>)
        requires
            old(self).wf(),
        ensures
            final(self).wf(),
            start <= end <= old(self)@.len() ==> r is Ok && final(self)@ == without(
                old(self)@,
                start as int,
                end as int,
            ) && final(self).modified(),
            !(start <= end <= old(self)@.len()) ==> plain(r) == Err::<(), ErrorView>(
                ErrorView::bare(ErrorType::OutOfBounds),
            ) && *final(self) == *old(self),
    {
        if self.is_out_of_bounds(start) || self.is_out_of_bounds(end) || start > end {
            return Err(Error::new(ErrorType::OutOfBounds));
        }
        let mut tail = self.lines.split_off(end);
        self.lines.truncate(start);
        self.lines.append(&mut tail);
        self.cached_num_lines = self.cached_num_lines - (end - start);
        self.modified = true;
        Ok(())
    }

    /// Whether the buffer holds no line.
    pub fn is_empty(&self) -> (b: bool)
        ensures
            b == (self.count() == 0),
            self.wf() ==> b == (self@.len() == 0),
    {
        self.cached_num_lines == 0
    }

    /// Whether a line was inserted or deleted since the buffer was made.
    pub fn has_changes(&self) -> (b: bool)
        ensures
            b == self.modified(),
    {
        self.modified
    }

    /// The number of lines.
    pub fn len(&self) -> (n: usize)
        ensures
            n == self.count(),
            self.wf() ==> n == self@.len(),
    {
        self.cached_num_lines
    }

    /// Whether `pos` lies beyond the end. The number of lines itself is a
    /// position: the one after the last line.
    pub fn is_out_of_bounds(&self, pos: usize) -> (b: bool)
        ensures
            b == (pos > self.count()),
            self.wf() ==> b == (pos > self@.len()),
    {
        pos > self.len()
    }

    /// Whether either end of `range` lies beyond the end of the buffer.
    pub fn is_range_out_of_bounds(&self, range: &std::ops::Range<usize>) -> (b: bool)
        ensures
            b == (range.start > self.count() || range.end > self.count()),
            self.wf() ==> b == (range.start > self@.len() || range.end > self@.len()),
    {
        self.is_out_of_bounds(range.start) || self.is_out_of_bounds(range.end)
    }

    /// The lines from `range.start` up to, not including, `range.end`. An end
    /// of the range beyond the end of the buffer is out of bounds.
    pub fn get_lines(&self, range: &std::ops::Range<usize>) -> (r: Result<&[String], Error>)
        requires
            self.wf(),
        ensures
            match r {
                Ok(lines) => range.start <= self@.len() && range.end <= self@.len() && texts(
                    lines@,
                ) == selected(self@, range.start as int, range.end as int),
                Err(e) => (range.start > self@.len() || range.end > self@.len()) && e@
                    == ErrorView::bare(ErrorType::OutOfBounds),
            },
    {
        if self.is_range_out_of_bounds(range) {
            return Err(Error::new(ErrorType::OutOfBounds));
        }
        let end = if range.start <= range.end {
            range.end
        } else {
            range.start
        };
        let lines = slice_subrange(self.lines.as_slice(), range.start, end);
        Ok(lines)
    }

    /// Appends to `w` the bytes of a text file that holds the lines.
    pub fn write(&self, w: &mut Vec<u8>) -> (r: Result<(), Error>)
        ensures
            r is Ok,
            final(w)@ == old(w)@ + written(self@),
    {
        let n = self.lines.len();
        let mut i: usize = 0;
        while i < n
            invariant
                0 <= i <= n,
                n == self.lines@.len(),
                w@ == old(w)@ + written(self@.take(i as int)),
            decreases n - i,
        {
            w.extend_from_slice(self.lines[i].as_str().as_bytes());
            w.push(10u8);
            proof {
                assert(self@.take(i + 1).drop_last() =~= self@.take(i as int));
            }
            i = i + 1;
        }
        proof {
            assert(self@.take(n as int) =~= self@);
        }
        Ok(())
    }
}

} // verus!
