//! Properties of the editing state machine, stated over `BufferState`.
use vstd::prelude::*;
use crate::buffer::{BufferState, LINE_END};
use crate::edit::{TAB_CHAR, TAB_WIDTH};
use crate::keys::Command;
use crate::motion::WORD_SCAN_LIMIT;

verus! {

/// A forward scan from a well-formed state stops at a well-formed state,
/// having taken no more than `WORD_SCAN_LIMIT` steps in all.
pub proof fn lemma_scan_forward_bounded(s: BufferState, steps: nat, crossed: bool)
    requires
        s.wf(),
        steps <= WORD_SCAN_LIMIT,
    ensures
        s.scan_forward(steps, crossed).0.wf(),
        steps <= s.scan_forward(steps, crossed).1 <= WORD_SCAN_LIMIT,
        s.scan_forward(steps, crossed).0.text == s.text,
        s.scan_forward(steps, crossed).0.mode == s.mode,
    decreases WORD_SCAN_LIMIT - steps,
{
    if steps < WORD_SCAN_LIMIT {
        if let Some(c) = s.char_at() {
            if !BufferState::scan_stops_on(c, steps, crossed) {
                let next = crossed || crate::motion::space_char(c);
                if s.col + 1 >= s.line().len() {
                    if s.row + 1 < s.text.len() {
                        lemma_scan_forward_bounded(s.at(s.row + 1, 0), steps + 1, next);
                    }
                } else {
                    lemma_scan_forward_bounded(s.at(s.row, s.col + 1), steps + 1, next);
                }
            }
        }
    }
}

/// A backward scan from a well-formed state stops at a well-formed state,
/// having taken no more than `WORD_SCAN_LIMIT` steps in all.
pub proof fn lemma_scan_backward_bounded(s: BufferState, steps: nat, crossed: bool)
    requires
        s.wf(),
        steps <= WORD_SCAN_LIMIT,
    ensures
        s.scan_backward(steps, crossed).0.wf(),
        steps <= s.scan_backward(steps, crossed).1 <= WORD_SCAN_LIMIT,
        s.scan_backward(steps, crossed).0.text == s.text,
        s.scan_backward(steps, crossed).0.mode == s.mode,
    decreases WORD_SCAN_LIMIT - steps,
{
    if steps < WORD_SCAN_LIMIT {
        if let Some(c) = s.char_at() {
            if !BufferState::scan_stops_on(c, steps, crossed) {
                let next = crossed || crate::motion::space_char(c);
                if s.col < 1 {
                    if s.row >= 1 {
                        let above = s.text[s.row - 1].len();
                        lemma_scan_backward_bounded(
                            s.at(s.row - 1, if above > 0 { above - 1 } else { 0 }),
                            steps + 1,
                            next,
                        );
                    }
                } else {
                    lemma_scan_backward_bounded(s.at(s.row, s.col - 1), steps + 1, next);
                }
            }
        }
    }
}

/// Both word motions end within `WORD_SCAN_LIMIT` steps on any buffer, and
/// on a buffer of one empty line they take no step at all.
pub proof fn lemma_word_motion_terminates(s: BufferState)
    requires
        s.wf(),
    ensures
        s.scan_forward(0, false).1 <= WORD_SCAN_LIMIT,
        s.scan_backward(0, false).1 <= WORD_SCAN_LIMIT,
        s.text == seq![Seq::<char>::empty()] ==> s.scan_forward(0, false).1 == 0
            && s.scan_backward(0, false).1 == 0,
{
    lemma_scan_forward_bounded(s, 0, false);
    lemma_scan_backward_bounded(s, 0, false);
}

/// Inserting characters keeps a well-formed state well-formed.
pub proof fn lemma_insert_repeated_wf(s: BufferState, c: char, n: nat)
    requires
        s.wf(),
    ensures
        s.insert_repeated(c, n).wf(),
    decreases n,
{
    if n > 0 {
        lemma_insert_repeated_wf(s, c, (n - 1) as nat);
    }
}

/// Every command takes a well-formed state to a well-formed state: there
/// is always a line, the cursor is on a line, and its column is at most the
/// length of that line.
pub proof fn lemma_apply_preserves_wf(s: BufferState, cmd: Command, limit: int)
    requires
        s.wf(),
    ensures
        s.apply(cmd, limit).wf(),
{
    match cmd {
        Command::MoveToNextStart => lemma_scan_forward_bounded(s, 0, false),
        Command::MoveToPrevEnd => lemma_scan_backward_bounded(s, 0, false),
        Command::Tab => lemma_insert_repeated_wf(s, TAB_CHAR, TAB_WIDTH as nat),
        _ => {},
    }
}

/// Inserting a character and then deleting it again, by backspace or by
/// stepping left and deleting forward, restores the text and the cursor.
pub proof fn lemma_insert_then_delete(s: BufferState, c: char)
    requires
        s.wf(),
    ensures
        s.insert_char(c).backspace() == s,
        s.insert_char(c).move_left().delete() == s,
{
    let t = s.insert_char(c);
    assert(t.line() == s.line().insert(s.col, c));
    assert(t.line().remove(s.col) =~= s.line());
    assert(t.text.update(s.row, s.line()) =~= s.text);
}

/// Splitting a line at the cursor and then backspacing at the start of the
/// new line gives back one line: the line as it was, with a line-end marker at the
/// split column, the cursor just after that marker.
pub proof fn lemma_split_then_join(s: BufferState)
    requires
        s.wf(),
    ensures
        s.new_line().backspace() == (BufferState {
            text: s.text.update(s.row, s.line().insert(s.col, LINE_END)),
            col: s.col + 1,
            ..s
        }),
{
    let t = s.new_line();
    let joined = s.line().take(s.col).push(LINE_END) + s.line().skip(s.col);
    assert(joined =~= s.line().insert(s.col, LINE_END));
    assert(t.backspace().text =~= s.text.update(s.row, s.line().insert(s.col, LINE_END)));
}

} // verus!
