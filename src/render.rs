//! What the screen shows of the buffer: the visible rows and the glyph
//! drawn for each character.
use vstd::prelude::*;
use crate::buffer::{Global, LINE_END};
use crate::viewport::{View, BOTTOM_PADDING};

verus! {

/// Drawn in place of a line-end marker.
pub const LINE_END_GLYPH: char = '\u{2192}';

/// Drawn in place of a tab.
pub const TAB_GLYPH: char = '-';

pub open spec fn glyph(c: char) -> char {
    if c == LINE_END {
        LINE_END_GLYPH
    } else if c == '\t' {
        TAB_GLYPH
    } else {
        c
    }
}

/// The character drawn for `c`: line-end markers and tabs get visible
/// stand-ins, everything else is drawn as it is.
pub fn display_char(c: char) -> (r: char)
    ensures
        r == glyph(c),
{
    if c == LINE_END {
        LINE_END_GLYPH
    } else if c == '\t' {
        TAB_GLYPH
    } else {
        c
    }
}

impl View {
    /// The buffer rows in view, as the half-open index range `[first, end)`:
    /// from the row numbered `start` on, as many as the text area holds, and
    /// none past the last line.
    pub fn visible_rows(&self, global: &Global) -> (r: (usize, usize))
        requires
            self.start >= 1,
            self.height >= BOTTOM_PADDING,
        ensures
            r.0 == self.start - 1,
            r.1 == if r.0 + self.height - BOTTOM_PADDING <= global.lines.len() {
                r.0 + self.height - BOTTOM_PADDING
            } else if r.0 <= global.lines.len() {
                global.lines.len() as int
            } else {
                r.0 as int
            },
    {
        let first = self.start - 1;
        let text_rows = self.height as usize - BOTTOM_PADDING as usize;
        let n = global.lines.len();
        let end = if first > n {
            first
        } else if n - first >= text_rows {
            first + text_rows
        } else {
            n
        };
        (first, end)
    }
}

} // verus!
