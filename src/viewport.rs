//! The viewport's scroll bookkeeping: which buffer row is shown first.
use vstd::prelude::*;
use crate::buffer::Global;

verus! {

/// Terminal rows kept free below the text, for the status line.
pub const BOTTOM_PADDING: u16 = 1;

/// The visible region of the terminal.
pub struct View {
    pub width: u16,
    pub height: u16,
    /// The 1-based number of the first buffer row in view.
    pub start: usize,
}

/// The first row in view after one scroll update, for a cursor on the
/// 1-based row `cur_row`: one row further down once the cursor reaches the
/// bottom of the text area, one row back up when the cursor is above the
/// region (never below the first row), otherwise unchanged.
pub open spec fn scrolled_start(start: int, height: int, cur_row: int) -> int {
    if cur_row >= height - BOTTOM_PADDING + start {
        start + 1
    } else if cur_row < start && start > 1 {
        start - 1
    } else {
        start
    }
}

impl View {
    /// Scrolls by at most one row so that the cursor's row stays in view.
    pub fn update_scroll(&mut self, global: &mut Global)
        requires
            old(self).height >= BOTTOM_PADDING,
            old(global).wf(),
            old(global).lines.len() < usize::MAX,
        ensures
            final(self).start == scrolled_start(
                old(self).start as int,
                old(self).height as int,
                old(global).cursor.row + 1,
            ),
            final(self).width == old(self).width,
            final(self).height == old(self).height,
            *final(global) == *old(global),
    {
        let cur_row = global.cursor.row + 1;
        let text_rows = self.height as usize - BOTTOM_PADDING as usize;
        if cur_row >= self.start && cur_row - self.start >= text_rows {
            self.start += 1;
        } else if cur_row < self.start && self.start > 1 {
            self.start -= 1;
        }
    }
}

} // verus!
