use modal_editor::buffer::{Cursor, Global, Line};
use modal_editor::keys::{map_key, Command, Key, Mode};
use modal_editor::motion::WORD_SCAN_LIMIT;
use modal_editor::render::display_char;
use modal_editor::viewport::View;

const NO_LIMIT: usize = usize::MAX;

fn buffer(rows: &[&str], row: usize, col: usize, mode: Mode) -> Global {
    let lines = rows.iter().map(|r| Line { chars: r.chars().collect() }).collect();
    Global { lines, cursor: Cursor { row, col }, mode }
}

fn text(g: &Global) -> Vec<String> {
    g.lines.iter().map(|l| l.chars.iter().collect()).collect()
}

fn press(g: &mut Global, keys: &[Key]) {
    for k in keys {
        assert!(g.handle_key(*k, NO_LIMIT));
    }
}

#[test]
fn typing_splitting_and_joining_from_an_empty_buffer() {
    let mut g = Global::new();
    assert_eq!(text(&g), vec![""]);
    assert_eq!(g.cursor, Cursor { row: 0, col: 0 });
    assert_eq!(g.mode, Mode::Normal);
    press(&mut g, &[Key::Char('a')]);
    assert_eq!(g.mode, Mode::Insert);
    press(&mut g, &[Key::Char('a'), Key::Char('b')]);
    assert_eq!(text(&g), vec!["ab"]);
    assert_eq!(g.cursor, Cursor { row: 0, col: 2 });
    press(&mut g, &[Key::Char('\n')]);
    assert_eq!(text(&g), vec!["ab\n", ""]);
    assert_eq!(g.cursor, Cursor { row: 1, col: 0 });
    press(&mut g, &[Key::Backspace]);
    // the join keeps the line-end marker and lands on the seam after it
    assert_eq!(text(&g), vec!["ab\n"]);
    assert_eq!(g.cursor, Cursor { row: 0, col: 3 });
}

#[test]
fn next_word_start_needs_a_space_before_it_stops() {
    let mut g = buffer(&["abc", "def"], 0, 1, Mode::Normal);
    press(&mut g, &[Key::Char('w')]);
    assert_eq!(g.cursor, Cursor { row: 1, col: 2 });
    let mut h = buffer(&["abc", "def"], 0, 1, Mode::Normal);
    assert_eq!(h.next_word_start(), 4);
    assert_eq!(h.cursor, Cursor { row: 1, col: 2 });
    assert_eq!(text(&h), vec!["abc", "def"]);
}

#[test]
fn next_word_start_stops_after_a_space() {
    let mut g = buffer(&["foo bar"], 0, 0, Mode::Normal);
    assert_eq!(g.next_word_start(), 4);
    assert_eq!(g.cursor, Cursor { row: 0, col: 4 });
}

#[test]
fn next_word_start_crosses_a_line_end_marker() {
    let mut g = buffer(&["ab\n", "cd"], 0, 0, Mode::Normal);
    assert_eq!(g.next_word_start(), 3);
    assert_eq!(g.cursor, Cursor { row: 1, col: 0 });
}

#[test]
fn next_word_start_stops_on_punctuation_once_moving() {
    let mut g = buffer(&["a.b"], 0, 0, Mode::Normal);
    assert_eq!(g.next_word_start(), 1);
    assert_eq!(g.cursor, Cursor { row: 0, col: 1 });
    // starting on punctuation is allowed
    let mut h = buffer(&["(ab cd"], 0, 0, Mode::Normal);
    assert_eq!(h.next_word_start(), 4);
    assert_eq!(h.cursor, Cursor { row: 0, col: 4 });
}

#[test]
fn word_motion_on_one_empty_line_takes_no_step() {
    let mut g = Global::new();
    assert_eq!(g.next_word_start(), 0);
    assert_eq!(g.previous_word_end(), 0);
    assert_eq!(g.cursor, Cursor { row: 0, col: 0 });
}

#[test]
fn word_motion_stops_at_the_step_cap() {
    let long: String = std::iter::repeat('a').take(150).collect();
    let mut g = buffer(&[long.as_str()], 0, 0, Mode::Normal);
    assert_eq!(g.next_word_start(), WORD_SCAN_LIMIT);
    assert_eq!(g.cursor, Cursor { row: 0, col: 100 });
    let mut h = buffer(&[long.as_str()], 0, 149, Mode::Normal);
    assert_eq!(h.previous_word_end(), WORD_SCAN_LIMIT);
    assert_eq!(h.cursor, Cursor { row: 0, col: 49 });
}

#[test]
fn next_word_start_stops_at_the_end_of_the_buffer() {
    let mut g = buffer(&["abc"], 0, 0, Mode::Normal);
    assert_eq!(g.next_word_start(), 2);
    assert_eq!(g.cursor, Cursor { row: 0, col: 2 });
}

#[test]
fn previous_word_end_stops_after_a_space() {
    let mut g = buffer(&["foo bar"], 0, 6, Mode::Normal);
    press(&mut g, &[Key::Char('b')]);
    assert_eq!(g.cursor, Cursor { row: 0, col: 2 });
    let mut h = buffer(&["foo bar"], 0, 6, Mode::Normal);
    assert_eq!(h.previous_word_end(), 4);
}

#[test]
fn previous_word_end_moves_to_the_line_above() {
    let mut g = buffer(&["ab\n", "cd"], 1, 1, Mode::Normal);
    assert_eq!(g.previous_word_end(), 3);
    assert_eq!(g.cursor, Cursor { row: 0, col: 1 });
}

#[test]
fn previous_word_end_onto_an_empty_line_above() {
    let mut g = buffer(&["", "ab"], 1, 0, Mode::Normal);
    assert_eq!(g.previous_word_end(), 1);
    assert_eq!(g.cursor, Cursor { row: 0, col: 0 });
}

#[test]
fn previous_word_end_past_the_line_end_does_not_move() {
    let mut g = buffer(&["ab"], 0, 2, Mode::Normal);
    assert_eq!(g.previous_word_end(), 0);
    assert_eq!(g.cursor, Cursor { row: 0, col: 2 });
}

#[test]
fn insert_then_backspace_restores_the_line() {
    let mut g = buffer(&["hello"], 0, 2, Mode::Insert);
    g.insert_char('X');
    assert_eq!(text(&g), vec!["heXllo"]);
    assert_eq!(g.cursor.col, 3);
    g.backspace();
    assert_eq!(text(&g), vec!["hello"]);
    assert_eq!(g.cursor.col, 2);
}

#[test]
fn insert_then_delete_at_the_same_column_restores_the_line() {
    let mut g = buffer(&["hello"], 0, 5, Mode::Insert);
    g.insert_char('!');
    assert_eq!(text(&g), vec!["hello!"]);
    g.move_left();
    g.delete();
    assert_eq!(text(&g), vec!["hello"]);
    assert_eq!(g.cursor, Cursor { row: 0, col: 5 });
}

#[test]
fn split_then_join_leaves_the_marker_at_the_split() {
    let mut g = buffer(&["hello", "world"], 0, 2, Mode::Insert);
    g.new_line();
    assert_eq!(text(&g), vec!["he\n", "llo", "world"]);
    assert_eq!(g.cursor, Cursor { row: 1, col: 0 });
    g.backspace();
    assert_eq!(text(&g), vec!["he\nllo", "world"]);
    assert_eq!(g.cursor, Cursor { row: 0, col: 3 });
}

#[test]
fn newline_at_the_end_of_a_line_opens_an_empty_line() {
    let mut g = buffer(&["ab", "cd"], 0, 2, Mode::Insert);
    g.new_line();
    assert_eq!(text(&g), vec!["ab\n", "", "cd"]);
    assert_eq!(g.cursor, Cursor { row: 1, col: 0 });
}

#[test]
fn backspace_at_the_start_of_the_buffer_does_nothing() {
    let mut g = buffer(&["ab"], 0, 0, Mode::Insert);
    g.backspace();
    assert_eq!(text(&g), vec!["ab"]);
    assert_eq!(g.cursor, Cursor { row: 0, col: 0 });
}

#[test]
fn backspace_joins_onto_an_empty_line() {
    let mut g = buffer(&["", "xy"], 1, 0, Mode::Insert);
    g.backspace();
    assert_eq!(text(&g), vec!["xy"]);
    assert_eq!(g.cursor, Cursor { row: 0, col: 0 });
}

#[test]
fn delete_at_the_end_of_a_line_does_nothing() {
    let mut g = buffer(&["ab"], 0, 2, Mode::Normal);
    press(&mut g, &[Key::Char('x')]);
    assert_eq!(text(&g), vec!["ab"]);
    let mut h = buffer(&["ab"], 0, 0, Mode::Normal);
    press(&mut h, &[Key::Char('x')]);
    assert_eq!(text(&h), vec!["b"]);
    assert_eq!(h.cursor, Cursor { row: 0, col: 0 });
}

#[test]
fn tab_inserts_four_tab_characters() {
    let mut g = buffer(&["ab"], 0, 1, Mode::Insert);
    press(&mut g, &[Key::Char('\t')]);
    assert_eq!(text(&g), vec!["a\t\t\t\tb"]);
    assert_eq!(g.cursor.col, 5);
}

#[test]
fn open_line_below_enters_insert_mode() {
    let mut g = buffer(&["abc", "def"], 0, 1, Mode::Normal);
    press(&mut g, &[Key::Char('o')]);
    assert_eq!(text(&g), vec!["abc\n", "", "def"]);
    assert_eq!(g.cursor, Cursor { row: 1, col: 0 });
    assert_eq!(g.mode, Mode::Insert);
    press(&mut g, &[Key::Esc]);
    assert_eq!(g.mode, Mode::Normal);
}

#[test]
fn vertical_motion_clamps_the_column() {
    let mut g = buffer(&["abcdef", "ab", "abcd"], 0, 5, Mode::Normal);
    press(&mut g, &[Key::Char('j')]);
    assert_eq!(g.cursor, Cursor { row: 1, col: 2 });
    press(&mut g, &[Key::Char('j'), Key::Char('j')]);
    assert_eq!(g.cursor, Cursor { row: 2, col: 2 });
    press(&mut g, &[Key::Char('k'), Key::Char('k'), Key::Char('k')]);
    assert_eq!(g.cursor, Cursor { row: 0, col: 2 });
}

#[test]
fn move_down_respects_the_row_limit() {
    let mut g = buffer(&["a", "b", "c"], 0, 0, Mode::Normal);
    g.move_down(2);
    assert_eq!(g.cursor.row, 1);
    g.move_down(2);
    assert_eq!(g.cursor.row, 1);
    assert!(g.handle_key(Key::Char('j'), 3));
    assert_eq!(g.cursor.row, 2);
}

#[test]
fn horizontal_motion_stays_on_the_line() {
    let mut g = buffer(&["ab", "cd"], 0, 0, Mode::Normal);
    press(&mut g, &[Key::Char('h')]);
    assert_eq!(g.cursor, Cursor { row: 0, col: 0 });
    press(&mut g, &[Key::Char('l'), Key::Char('l'), Key::Char('l')]);
    assert_eq!(g.cursor, Cursor { row: 0, col: 2 });
}

#[test]
fn current_char_is_none_past_the_end() {
    let g = buffer(&["ab"], 0, 1, Mode::Normal);
    assert_eq!(g.current_char(), Some('b'));
    let h = buffer(&["ab"], 0, 2, Mode::Normal);
    assert_eq!(h.current_char(), None);
}

#[test]
fn unrecognized_keys_are_no_ops() {
    assert_eq!(map_key(Key::Char('z'), Mode::Normal), Command::NoOp);
    assert_eq!(map_key(Key::Esc, Mode::Normal), Command::NoOp);
    assert_eq!(map_key(Key::Up, Mode::Normal), Command::NoOp);
    assert_eq!(map_key(Key::Up, Mode::Insert), Command::NoOp);
    assert_eq!(map_key(Key::Other, Mode::Insert), Command::NoOp);
    let mut g = buffer(&["ab"], 0, 1, Mode::Normal);
    press(&mut g, &[Key::Char('z'), Key::Down, Key::Backspace]);
    assert_eq!(text(&g), vec!["ab"]);
    assert_eq!(g.cursor, Cursor { row: 0, col: 1 });
}

#[test]
fn key_tables_by_mode() {
    assert_eq!(map_key(Key::Char('q'), Mode::Normal), Command::Quit);
    assert_eq!(map_key(Key::Char('q'), Mode::Insert), Command::InsertChar('q'));
    assert_eq!(map_key(Key::Char('a'), Mode::Normal), Command::EnterInsertMode);
    assert_eq!(map_key(Key::Char('w'), Mode::Normal), Command::MoveToNextStart);
    assert_eq!(map_key(Key::Char('b'), Mode::Normal), Command::MoveToPrevEnd);
    assert_eq!(map_key(Key::Char('\n'), Mode::Insert), Command::NewLine);
    assert_eq!(map_key(Key::Char('\t'), Mode::Insert), Command::Tab);
    assert_eq!(map_key(Key::Backspace, Mode::Insert), Command::BackSpace);
    assert_eq!(map_key(Key::Esc, Mode::Insert), Command::EnterNormalMode);
}

#[test]
fn quit_ends_the_session_only_in_normal_mode() {
    let mut g = buffer(&["ab"], 0, 0, Mode::Normal);
    assert!(!g.handle_key(Key::Char('q'), NO_LIMIT));
    assert_eq!(text(&g), vec!["ab"]);
    let mut h = buffer(&["ab"], 0, 0, Mode::Insert);
    assert!(h.handle_key(Key::Char('q'), NO_LIMIT));
    assert_eq!(text(&h), vec!["qab"]);
}

#[test]
fn scroll_follows_the_cursor() {
    let mut g = buffer(&["a", "b", "c", "d", "e", "f"], 3, 0, Mode::Normal);
    let mut v = View { width: 20, height: 5, start: 1 };
    v.update_scroll(&mut g);
    assert_eq!(v.start, 1);
    g.cursor.row = 4;
    v.update_scroll(&mut g);
    assert_eq!(v.start, 2);
    g.cursor.row = 0;
    v.update_scroll(&mut g);
    assert_eq!(v.start, 1);
    v.start = 3;
    v.update_scroll(&mut g);
    assert_eq!(v.start, 2);
}

#[test]
fn visible_rows_stop_at_the_last_line() {
    let g = buffer(&["a", "b", "c", "d", "e", "f"], 0, 0, Mode::Normal);
    let v = View { width: 20, height: 5, start: 1 };
    assert_eq!(v.visible_rows(&g), (0, 4));
    let w = View { width: 20, height: 5, start: 4 };
    assert_eq!(w.visible_rows(&g), (3, 6));
}

#[test]
fn glyphs_for_markers_and_tabs() {
    assert_eq!(display_char('\n'), '\u{2192}');
    assert_eq!(display_char('\t'), '-');
    assert_eq!(display_char('x'), 'x');
}
