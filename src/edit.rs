//! Edit operations: character insertion and deletion, backspace with line
//! joining, newline with line splitting, opening a line below, and tab.
use vstd::prelude::*;
use crate::buffer::{BufferState, Global, Line, LINE_END};
use crate::keys::Mode;

verus! {

/// The character that Tab inserts, `TAB_WIDTH` times over.
pub const TAB_CHAR: char = '\t';

pub const TAB_WIDTH: usize = 4;

impl BufferState {
    /// `c` enters the line at the cursor and the cursor steps past it.
    pub open spec fn insert_char(self, c: char) -> BufferState {
        BufferState {
            text: self.text.update(self.row, self.line().insert(self.col, c)),
            col: self.col + 1,
            ..self
        }
    }

    /// `n` insertions of `c` in a row.
    pub open spec fn insert_repeated(self, c: char, n: nat) -> BufferState
        decreases n,
    {
        if n == 0 {
            self
        } else {
            self.insert_repeated(c, (n - 1) as nat).insert_char(c)
        }
    }

    pub open spec fn tab(self) -> BufferState {
        self.insert_repeated(TAB_CHAR, TAB_WIDTH as nat)
    }

    /// The character under the cursor leaves the line; nothing happens at
    /// the end of the line.
    pub open spec fn delete(self) -> BufferState {
        if self.col < self.line().len() {
            BufferState { text: self.text.update(self.row, self.line().remove(self.col)), ..self }
        } else {
            self
        }
    }

    /// Inside a line: the character left of the cursor leaves and the cursor
    /// steps left. At the start of a later line: the line is appended to the
    /// one above and removed, and the cursor lands on the seam. At the very
    /// start of the buffer: nothing happens.
    pub open spec fn backspace(self) -> BufferState {
        if self.col > 0 {
            BufferState {
                text: self.text.update(self.row, self.line().remove(self.col - 1)),
                col: self.col - 1,
                ..self
            }
        } else if self.row > 0 {
            let above = self.text[self.row - 1];
            BufferState {
                text: self.text.remove(self.row).update(self.row - 1, above + self.line()),
                row: self.row - 1,
                col: above.len() as int,
                ..self
            }
        } else {
            self
        }
    }

    /// What lies from the cursor on moves to a new line below; the line left
    /// behind gets a line-end marker; the cursor goes to the start of the new line.
    pub open spec fn new_line(self) -> BufferState {
        BufferState {
            text: self.text.update(self.row, self.line().take(self.col).push(LINE_END)).insert(
                self.row + 1,
                self.line().skip(self.col),
            ),
            row: self.row + 1,
            col: 0,
            ..self
        }
    }

    /// An empty line opens below, the current line gets a line-end marker,
    /// the cursor moves onto the new line, and Insert mode begins.
    pub open spec fn open_below(self) -> BufferState {
        BufferState {
            text: self.text.update(self.row, self.line().push(LINE_END)).insert(
                self.row + 1,
                Seq::empty(),
            ),
            row: self.row + 1,
            col: 0,
            mode: Mode::Insert,
        }
    }
}

impl Global {
    /// Inserts `c` at the cursor and moves the cursor right past it.
    pub fn insert_char(&mut self, c: char)
        requires
            old(self).wf(),
        ensures
            final(self).wf(),
            final(self)@ == old(self)@.insert_char(c),
    {
        let col = self.cursor.col;
        self.current_line().chars.insert(col, c);
        proof {
            assert(self@.text =~= old(self)@.insert_char(c).text);
        }
        self.move_right();
    }

    /// Inserts `TAB_WIDTH` tab characters, one at a time.
    pub fn tab(&mut self)
        requires
            old(self).wf(),
        ensures
            final(self).wf(),
            final(self)@ == old(self)@.tab(),
    {
        let mut i: usize = 0;
        while i < TAB_WIDTH
            invariant
                i <= TAB_WIDTH,
                self.wf(),
                self@ == old(self)@.insert_repeated(TAB_CHAR, i as nat),
            decreases TAB_WIDTH - i,
        {
            self.insert_char(TAB_CHAR);
            i += 1;
        }
    }

    /// Removes the character under the cursor; no-op at the end of the line.
    pub fn delete(&mut self)
        requires
            old(self).wf(),
        ensures
            final(self).wf(),
            final(self)@ == old(self)@.delete(),
    {
        let col = self.cursor.col;
        if col < self.lines[self.cursor.row].len() {
            self.current_line().chars.remove(col);
            proof {
                assert(self@.text =~= old(self)@.delete().text);
            }
        }
    }

    /// Removes the character left of the cursor, or joins the line onto the
    /// one above when the cursor is at the start of a later line.
    pub fn backspace(&mut self)
        requires
            old(self).wf(),
        ensures
            final(self).wf(),
            final(self)@ == old(self)@.backspace(),
    {
        if self.cursor.col > 0 {
            let col = self.cursor.col - 1;
            self.current_line().chars.remove(col);
            proof {
                assert(self@.text =~= old(self)@.backspace().text);
            }
            self.cursor.col = col;
        } else {
            let row = self.cursor.row;
            if row > 0 {
                let mut moved = self.lines.remove(row);
                let moved_len = moved.len();
                self.cursor.row = row - 1;
                self.cursor.col = 0;
                self.current_line().chars.append(&mut moved.chars);
                let joined_len = self.lines[row - 1].len();
                self.cursor.col = joined_len - moved_len;
                proof {
                    assert(self@.text =~= old(self)@.backspace().text);
                }
            }
        }
    }

    /// Splits the line at the cursor: the part from the cursor on goes to a
    /// new line below, a line-end marker closes the part left behind, and
    /// the cursor moves to the start of the new line.
    pub fn new_line(&mut self)
        requires
            old(self).wf(),
        ensures
            final(self).wf(),
            final(self)@ == old(self)@.new_line(),
    {
        let row = self.cursor.row;
        let col = self.cursor.col;
        // the line count bounds `row + 1`
        let n = self.lines.len();
        proof {
            assert(row < n);
        }
        let rest = self.current_line().chars.split_off(col);
        self.current_line().chars.push(LINE_END);
        self.lines.insert(row + 1, Line { chars: rest });
        self.cursor.row = row + 1;
        self.cursor.col = 0;
        proof {
            assert(self@.text =~= old(self)@.new_line().text);
        }
    }

    /// Opens an empty line below the cursor's line, closes the cursor's line
    /// with a line-end marker, moves onto the new line and enters Insert mode.
    pub fn new_line_below(&mut self)
        requires
            old(self).wf(),
        ensures
            final(self).wf(),
            final(self)@ == old(self)@.open_below(),
    {
        let row = self.cursor.row;
        // the line count bounds `row + 1`
        let n = self.lines.len();
        proof {
            assert(row < n);
        }
        self.current_line().chars.push(LINE_END);
        self.lines.insert(row + 1, Line { chars: Vec::new() });
        self.cursor.row = row + 1;
        self.cursor.col = 0;
        self.mode = Mode::Insert;
        proof {
            assert(self@.text =~= old(self)@.open_below().text);
        }
    }
}

} // verus!
