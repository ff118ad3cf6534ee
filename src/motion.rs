//! Word motions: bounded scans forward to the start of the next word and
//! backward to the end of the previous one.
use vstd::prelude::*;
use crate::buffer::{BufferState, Global};

verus! {

/// The most characters a word motion steps over. The cap keeps the work of
/// one keystroke small whatever the buffer holds.
pub const WORD_SCAN_LIMIT: usize = 100;

/// Line-end markers, spaces and tabs separate words.
pub open spec fn space_char(c: char) -> bool {
    c == '\n' || c == ' ' || c == '\t'
}

/// Brackets, braces, parentheses, commas, double quotes and periods each
/// form a word of their own.
pub open spec fn punct_char(c: char) -> bool {
    c == '{' || c == '}' || c == '(' || c == ')' || c == ',' || c == '[' || c == ']' || c == '"'
        || c == '.'
}

pub fn is_space(c: char) -> (r: bool)
    ensures
        r == space_char(c),
{
    c == '\n' || c == ' ' || c == '\t'
}

pub fn is_punctuation(c: char) -> (r: bool)
    ensures
        r == punct_char(c),
{
    c == '{' || c == '}' || c == '(' || c == ')' || c == ',' || c == '[' || c == ']' || c == '"'
        || c == '.'
}

impl BufferState {
    /// Whether a scan that has taken `steps` steps, and has crossed a space
    /// when `crossed` holds, stops on the character `c` under the cursor:
    /// on punctuation once it has moved, or on a non-space after a space.
    pub open spec fn scan_stops_on(c: char, steps: nat, crossed: bool) -> bool {
        (punct_char(c) && steps > 0) || (!space_char(c) && crossed)
    }

    /// The forward scan from this position: the position where it stops
    /// and the number of steps it took.
    pub open spec fn scan_forward(self, steps: nat, crossed: bool) -> (BufferState, nat)
        decreases WORD_SCAN_LIMIT - steps,
    {
        if steps >= WORD_SCAN_LIMIT {
            (self, steps)
        } else {
            match self.char_at() {
                None => (self, steps),
                Some(c) => {
                    if Self::scan_stops_on(c, steps, crossed) {
                        (self, steps)
                    } else if self.col + 1 >= self.line().len() {
                        if self.row + 1 >= self.text.len() {
                            (self, steps)
                        } else {
                            self.at(self.row + 1, 0).scan_forward(steps + 1, crossed || space_char(c))
                        }
                    } else {
                        self.at(self.row, self.col + 1).scan_forward(steps + 1, crossed || space_char(c))
                    }
                },
            }
        }
    }

    /// The backward scan from this position, the mirror of `scan_forward`:
    /// it leaves a line for the last character of the line above (the start
    /// of that line, when it is empty).
    pub open spec fn scan_backward(self, steps: nat, crossed: bool) -> (BufferState, nat)
        decreases WORD_SCAN_LIMIT - steps,
    {
        if steps >= WORD_SCAN_LIMIT {
            (self, steps)
        } else {
            match self.char_at() {
                None => (self, steps),
                Some(c) => {
                    if Self::scan_stops_on(c, steps, crossed) {
                        (self, steps)
                    } else if self.col < 1 {
                        if self.row < 1 {
                            (self, steps)
                        } else {
                            let above = self.text[self.row - 1].len();
                            self.at(self.row - 1, if above > 0 { above - 1 } else { 0 }).scan_backward(
                                steps + 1,
                                crossed || space_char(c),
                            )
                        }
                    } else {
                        self.at(self.row, self.col - 1).scan_backward(steps + 1, crossed || space_char(c))
                    }
                },
            }
        }
    }

    pub open spec fn next_word_start(self) -> BufferState {
        self.scan_forward(0, false).0
    }

    pub open spec fn previous_word_end(self) -> BufferState {
        self.scan_backward(0, false).0
    }
}

impl Global {
    /// Moves the cursor forward to the start of the next word and returns
    /// the number of steps taken, at most `WORD_SCAN_LIMIT`.
    pub fn next_word_start(&mut self) -> (steps: usize)
        requires
            old(self).wf(),
        ensures
            final(self).wf(),
            (final(self)@, steps as nat) == old(self)@.scan_forward(0, false),
            steps <= WORD_SCAN_LIMIT,
    {
        let mut crossed = false;
        let mut counter: usize = 0;
        loop
            invariant
                self.wf(),
                counter <= WORD_SCAN_LIMIT,
                self@.scan_forward(counter as nat, crossed) == old(self)@.scan_forward(0, false),
            ensures
                self.wf(),
                counter <= WORD_SCAN_LIMIT,
                (self@, counter as nat) == old(self)@.scan_forward(0, false),
            decreases WORD_SCAN_LIMIT - counter,
        {
            if counter >= WORD_SCAN_LIMIT {
                break;
            }
            let c = match self.current_char() {
                Some(c) => c,
                None => break,
            };
            if is_punctuation(c) && counter > 0 {
                break;
            }
            let space = is_space(c);
            if !space && crossed {
                break;
            }
            let len = self.lines[self.cursor.row].len();
            let n = self.lines.len();
            if self.cursor.col + 1 >= len {
                if self.cursor.row + 1 >= n {
                    break;
                }
                crossed = crossed || space;
                self.cursor.row = self.cursor.row + 1;
                self.cursor.col = 0;
            } else {
                crossed = crossed || space;
                self.cursor.col = self.cursor.col + 1;
            }
            counter += 1;
        }
        counter
    }

    /// Moves the cursor back to the end of the previous word and returns
    /// the number of steps taken, at most `WORD_SCAN_LIMIT`.
    pub fn previous_word_end(&mut self) -> (steps: usize)
        requires
            old(self).wf(),
        ensures
            final(self).wf(),
            (final(self)@, steps as nat) == old(self)@.scan_backward(0, false),
            steps <= WORD_SCAN_LIMIT,
    {
        let mut crossed = false;
        let mut counter: usize = 0;
        loop
            invariant
                self.wf(),
                counter <= WORD_SCAN_LIMIT,
                self@.scan_backward(counter as nat, crossed) == old(self)@.scan_backward(0, false),
            ensures
                self.wf(),
                counter <= WORD_SCAN_LIMIT,
                (self@, counter as nat) == old(self)@.scan_backward(0, false),
            decreases WORD_SCAN_LIMIT - counter,
        {
            if counter >= WORD_SCAN_LIMIT {
                break;
            }
            let c = match self.current_char() {
                Some(c) => c,
                None => break,
            };
            if is_punctuation(c) && counter > 0 {
                break;
            }
            let space = is_space(c);
            if !space && crossed {
                break;
            }
            if self.cursor.col < 1 {
                if self.cursor.row < 1 {
                    break;
                }
                crossed = crossed || space;
                self.cursor.row = self.cursor.row - 1;
                let above = self.lines[self.cursor.row].len();
                self.cursor.col = if above > 0 { above - 1 } else { 0 };
            } else {
                crossed = crossed || space;
                self.cursor.col = self.cursor.col - 1;
            }
            counter += 1;
        }
        counter
    }
}

} // verus!
