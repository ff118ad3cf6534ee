//! The buffer: lines, cursor and mode, with its abstract state and the
//! cursor primitives.
use vstd::prelude::*;
use crate::keys::Mode;

verus! {

/// The character appended to a line where an explicit line break was made.
pub const LINE_END: char = '\n';

/// One row of the buffer.
pub struct Line {
    pub chars: Vec<char>,
}

impl Line {
    /// Number of characters on the line.
    pub fn len(&self) -> (r: usize)
        ensures
            r == self.chars@.len(),
    {
        self.chars.len()
    }
}

/// The edit position: a row index and a column index into that row.
#[derive(Clone, Copy, Debug, PartialEq, Eq, Structural)]
pub struct Cursor {
    pub row: usize,
    pub col: usize,
}

/// The abstract editor state: the text as a sequence of rows, the cursor, and the mode.
pub struct BufferState {
    pub text: Seq<Seq<char>>,
    pub row: int,
    pub col: int,
    pub mode: Mode,
}

impl BufferState {
    /// At least one line, the cursor on a line, and its column at most one
    /// past the last character of that line.
    pub open spec fn wf(self) -> bool {
        &&& self.text.len() >= 1
        &&& 0 <= self.row < self.text.len()
        &&& 0 <= self.col <= self.text[self.row].len()
    }

    /// The row the cursor is on.
    pub open spec fn line(self) -> Seq<char> {
        self.text[self.row]
    }

    pub open spec fn at(self, row: int, col: int) -> BufferState {
        BufferState { row, col, ..self }
    }

    /// Clamps the column to the length of the cursor's row.
    pub open spec fn clamp_col(self) -> BufferState {
        if self.line().len() < self.col {
            self.at(self.row, self.line().len() as int)
        } else {
            self
        }
    }

    pub open spec fn move_up(self) -> BufferState {
        if self.row > 0 {
            self.at(self.row - 1, self.col).clamp_col()
        } else {
            self
        }
    }

    /// Moves down one row when that row exists and lies below `limit`.
    pub open spec fn move_down(self, limit: int) -> BufferState {
        if self.row + 1 < self.text.len() && self.row + 1 < limit {
            self.at(self.row + 1, self.col).clamp_col()
        } else {
            self
        }
    }

    pub open spec fn move_left(self) -> BufferState {
        if self.col > 0 {
            self.at(self.row, self.col - 1)
        } else {
            self
        }
    }

    pub open spec fn move_right(self) -> BufferState {
        if self.col < self.line().len() {
            self.at(self.row, self.col + 1)
        } else {
            self
        }
    }

    /// The character under the cursor, none past the end of the line.
    pub open spec fn char_at(self) -> Option<char> {
        if 0 <= self.col < self.line().len() {
            Some(self.line()[self.col])
        } else {
            None
        }
    }
}

/// The whole editing state: lines, cursor and mode.
pub struct Global {
    pub lines: Vec<Line>,
    pub cursor: Cursor,
    pub mode: Mode,
}

impl View for Global {
    type V = BufferState;

    open spec fn view(&self) -> BufferState {
        BufferState {
            text: self.lines@.map_values(|l: Line| l.chars@),
            row: self.cursor.row as int,
            col: self.cursor.col as int,
            mode: self.mode,
        }
    }
}

impl Global {
    pub open spec fn wf(&self) -> bool {
        self@.wf()
    }

    /// A buffer of one empty line, the cursor at its start, in Normal mode.
    pub fn new() -> (r: Global)
        ensures
            r.wf(),
            r@.text == seq![Seq::<char>::empty()],
            r@.row == 0,
            r@.col == 0,
            r@.mode == Mode::Normal,
    {
        let mut lines: Vec<Line> = Vec::new();
        lines.push(Line { chars: Vec::new() });
        let r = Global { lines, cursor: Cursor { row: 0, col: 0 }, mode: Mode::Normal };
        assert(r@.text =~= seq![Seq::<char>::empty()]);
        r
    }

    /// A mutable handle on the row under the cursor. Whatever is done
    /// through it lands in that row; the cursor and mode stay as they are.
    pub fn current_line(&mut self) -> (r: &mut Line)
        requires
            old(self).cursor.row < old(self).lines@.len(),
        ensures
            *r == old(self).lines@[old(self).cursor.row as int],
            final(self).lines@ == old(self).lines@.update(old(self).cursor.row as int, *final(r)),
            final(self).cursor == old(self).cursor,
            final(self).mode == old(self).mode,
    {
        &mut self.lines[self.cursor.row]
    }

    pub fn amount_of_lines(&self) -> (r: usize)
        ensures
            r == self.lines@.len(),
    {
        self.lines.len()
    }
    /// Clamps the column to the length of the cursor's row.
    pub fn reset_cursor(&mut self)
        requires
            old(self).cursor.row < old(self).lines@.len(),
        ensures
            final(self)@ == old(self)@.clamp_col(),
            final(self).lines == old(self).lines,
    {
        let len = self.lines[self.cursor.row].len();
        if len < self.cursor.col {
            self.cursor.col = len;
        }
    }

    pub fn move_up(&mut self)
        requires
            old(self).wf(),
        ensures
            final(self).wf(),
            final(self)@ == old(self)@.move_up(),
            final(self).lines == old(self).lines,
    {
        if self.cursor.row > 0 {
            self.cursor.row -= 1;
            self.reset_cursor();
        }
    }

    /// Moves down one row when that row exists and its index is below
    /// `limit`, the bound that the visible region sets.
    pub fn move_down(&mut self, limit: usize)
        requires
            old(self).wf(),
        ensures
            final(self).wf(),
            final(self)@ == old(self)@.move_down(limit as int),
            final(self).lines == old(self).lines,
    {
        let n = self.lines.len();
        if self.cursor.row + 1 < n && self.cursor.row + 1 < limit {
            self.cursor.row += 1;
            self.reset_cursor();
        }
    }

    pub fn move_left(&mut self)
        requires
            old(self).wf(),
        ensures
            final(self).wf(),
            final(self)@ == old(self)@.move_left(),
            final(self).lines == old(self).lines,
    {
        if self.cursor.col > 0 {
            self.cursor.col -= 1;
        }
    }

    pub fn move_right(&mut self)
        requires
            old(self).wf(),
        ensures
            final(self).wf(),
            final(self)@ == old(self)@.move_right(),
            final(self).lines == old(self).lines,
    {
        if self.cursor.col < self.lines[self.cursor.row].len() {
            self.cursor.col += 1;
        }
    }

    /// The character under the cursor, or `None` when the cursor sits past
    /// the end of its line.
    pub fn current_char(&self) -> (r: Option<char>)
        requires
            self.wf(),
        ensures
            r == self@.char_at(),
    {
        let line = &self.lines[self.cursor.row];
        if self.cursor.col < line.len() {
            Some(line.chars[self.cursor.col])
        } else {
            None
        }
    }
}

} // verus!
