//! Keys, modes, commands, and the per-mode key table.
use vstd::prelude::*;

verus! {

/// Which key table is active.
#[derive(Clone, Copy, Debug, PartialEq, Eq, Structural)]
pub enum Mode {
    Insert,
    Normal,
}

/// A decoded keystroke, as far as the editor distinguishes keys.
#[derive(Clone, Copy, Debug, PartialEq, Eq, Structural)]
pub enum Key {
    /// A character key; Enter arrives as `'\n'` and Tab as `'\t'`.
    Char(char),
    Backspace,
    Esc,
    Up,
    Down,
    Left,
    Right,
    /// Any other key (function keys, modified keys, ...).
    Other,
}

/// A discrete editing action.
#[derive(Clone, Copy, Debug, PartialEq, Eq, Structural)]
pub enum Command {
    MoveUp,
    MoveDown,
    MoveLeft,
    MoveRight,
    Tab,
    MoveToNextStart,
    MoveToPrevEnd,
    InsertChar(char),
    NewLine,
    NewLineO,
    BackSpace,
    Delete,
    EnterInsertMode,
    EnterNormalMode,
    Quit,
    NoOp,
}

/// The Normal-mode table.
pub open spec fn normal_command(key: Key) -> Command {
    match key {
        Key::Char('q') => Command::Quit,
        Key::Char('k') => Command::MoveUp,
        Key::Char('j') => Command::MoveDown,
        Key::Char('h') => Command::MoveLeft,
        Key::Char('l') => Command::MoveRight,
        Key::Char('a') => Command::EnterInsertMode,
        Key::Char('x') => Command::Delete,
        Key::Char('o') => Command::NewLineO,
        Key::Char('w') => Command::MoveToNextStart,
        Key::Char('b') => Command::MoveToPrevEnd,
        _ => Command::NoOp,
    }
}

/// The Insert-mode table.
pub open spec fn insert_command(key: Key) -> Command {
    match key {
        Key::Char('\n') => Command::NewLine,
        Key::Backspace => Command::BackSpace,
        Key::Esc => Command::EnterNormalMode,
        Key::Char('\t') => Command::Tab,
        Key::Char(c) => Command::InsertChar(c),
        _ => Command::NoOp,
    }
}

/// The command that `key` stands for in `mode`.
pub open spec fn command_for(key: Key, mode: Mode) -> Command {
    match mode {
        Mode::Normal => normal_command(key),
        Mode::Insert => insert_command(key),
    }
}

/// The keys that Normal mode gives a meaning.
pub open spec fn normal_recognizes(key: Key) -> bool {
    match key {
        Key::Char(c) => c == 'q' || c == 'k' || c == 'j' || c == 'h' || c == 'l' || c == 'a'
            || c == 'x' || c == 'o' || c == 'w' || c == 'b',
        _ => false,
    }
}

/// The keys that Insert mode gives a meaning: every character key, Backspace and Escape.
pub open spec fn insert_recognizes(key: Key) -> bool {
    match key {
        Key::Char(_) | Key::Backspace | Key::Esc => true,
        _ => false,
    }
}

pub open spec fn recognizes(key: Key, mode: Mode) -> bool {
    match mode {
        Mode::Normal => normal_recognizes(key),
        Mode::Insert => insert_recognizes(key),
    }
}

/// Classifies a keystroke under the active mode. The buffer's content plays
/// no part: the result depends on the key and the mode alone.
pub fn map_key(key: Key, mode: Mode) -> (r: Command)
    ensures
        r == command_for(key, mode),
{
    match mode {
        Mode::Normal => {
            match key {
                Key::Char('q') => Command::Quit,
                Key::Char('k') => Command::MoveUp,
                Key::Char('j') => Command::MoveDown,
                Key::Char('h') => Command::MoveLeft,
                Key::Char('l') => Command::MoveRight,
                Key::Char('a') => Command::EnterInsertMode,
                Key::Char('x') => Command::Delete,
                Key::Char('o') => Command::NewLineO,
                Key::Char('w') => Command::MoveToNextStart,
                Key::Char('b') => Command::MoveToPrevEnd,
                _ => Command::NoOp,
            }
        },
        Mode::Insert => {
            match key {
                Key::Char('\n') => Command::NewLine,
                Key::Backspace => Command::BackSpace,
                Key::Esc => Command::EnterNormalMode,
                Key::Char('\t') => Command::Tab,
                Key::Char(c) => Command::InsertChar(c),
                _ => Command::NoOp,
            }
        },
    }
}

/// The key tables are total: every key in every mode yields one command,
/// which is a no-op exactly when the mode does not recognize the key.
/// Quitting is possible only from Normal mode, and the only mode changes are
/// Normal to Insert (enter-insert, open-line-below) and Insert to Normal (escape).
pub proof fn lemma_key_table_total(key: Key, mode: Mode)
    ensures
        (command_for(key, mode) == Command::NoOp) <==> !recognizes(key, mode),
        command_for(key, mode) == Command::Quit ==> mode == Mode::Normal,
        command_for(key, mode) == Command::EnterInsertMode ==> mode == Mode::Normal,
        command_for(key, mode) == Command::NewLineO ==> mode == Mode::Normal,
        command_for(key, mode) == Command::EnterNormalMode ==> mode == Mode::Insert,
{
}

} // verus!
