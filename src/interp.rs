//! The command interpreter: applies a command, or a key under the active
//! mode, to the buffer.
use vstd::prelude::*;
use crate::buffer::{BufferState, Global};
use crate::keys::{command_for, map_key, Command, Key, Mode};

verus! {

impl BufferState {
    /// The state after `cmd`, where `limit` bounds downward motion.
    pub open spec fn apply(self, cmd: Command, limit: int) -> BufferState {
        match cmd {
            Command::MoveUp => self.move_up(),
            Command::MoveDown => self.move_down(limit),
            Command::MoveLeft => self.move_left(),
            Command::MoveRight => self.move_right(),
            Command::Tab => self.tab(),
            Command::MoveToNextStart => self.next_word_start(),
            Command::MoveToPrevEnd => self.previous_word_end(),
            Command::InsertChar(c) => self.insert_char(c),
            Command::NewLine => self.new_line(),
            Command::NewLineO => self.open_below(),
            Command::BackSpace => self.backspace(),
            Command::Delete => self.delete(),
            Command::EnterInsertMode => BufferState { mode: Mode::Insert, ..self },
            Command::EnterNormalMode => BufferState { mode: Mode::Normal, ..self },
            Command::Quit => self,
            Command::NoOp => self,
        }
    }
}

impl Global {
    /// Applies `cmd` to the buffer. `row_limit` is the bound that the visible
    /// region puts on downward motion. Returns whether the session goes on,
    /// which is so for every command but `Quit`.
    pub fn apply(&mut self, cmd: Command, row_limit: usize) -> (running: bool)
        requires
            old(self).wf(),
        ensures
            final(self).wf(),
            final(self)@ == old(self)@.apply(cmd, row_limit as int),
            running == (cmd != Command::Quit),
    {
        match cmd {
            Command::Quit => {
                return false;
            },
            Command::MoveUp => self.move_up(),
            Command::MoveDown => self.move_down(row_limit),
            Command::MoveLeft => self.move_left(),
            Command::MoveRight => self.move_right(),
            Command::MoveToPrevEnd => {
                self.previous_word_end();
            },
            Command::MoveToNextStart => {
                self.next_word_start();
            },
            Command::InsertChar(c) => self.insert_char(c),
            Command::Tab => self.tab(),
            Command::EnterInsertMode => {
                self.mode = Mode::Insert;
            },
            Command::EnterNormalMode => {
                self.mode = Mode::Normal;
            },
            Command::NewLineO => self.new_line_below(),
            Command::NewLine => self.new_line(),
            Command::BackSpace => self.backspace(),
            Command::Delete => self.delete(),
            Command::NoOp => {},
        }
        true
    }

    /// Interprets `key` under the current mode and applies the command it
    /// stands for. Returns whether the session goes on.
    pub fn handle_key(&mut self, key: Key, row_limit: usize) -> (running: bool)
        requires
            old(self).wf(),
        ensures
            final(self).wf(),
            final(self)@ == old(self)@.apply(command_for(key, old(self).mode), row_limit as int),
            running == (command_for(key, old(self).mode) != Command::Quit),
    {
        let cmd = map_key(key, self.mode);
        self.apply(cmd, row_limit)
    }
}

} // verus!
