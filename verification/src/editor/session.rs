//! The session: quitting with unsaved changes, saving, and the prompt that
//! asks for a file name.
//!
//! The editor writes no file. It tells the event loop what to do by an
//! `Effect`, and the loop tells it how a write went.

use crate::commands::{
    binding, command_from_event, command_from_key, event_binding, EditorCommand, Effect, InputKey,
};
use crate::editor::{EditorState, DEFAULT_HELP_MESSAGE};
use crate::model::QUIT_CONFIRM_COUNT;
use crate::strings::{push_decimal, str_eq};
use vstd::prelude::*;

verus! {

impl EditorState {
    /// Forgets the presses of Quit counted so far, and the warning with them.
    fn calm(&mut self)
        ensures
            final(self)@ == old(self)@.calmed(),
    {
        if self.quit_count > 0 {
            self.reset_quit_count();
            self.help_message = DEFAULT_HELP_MESSAGE.to_string();
        }
    }

    /// Opens the prompt for a file name.
    fn open_prompt(&mut self)
        ensures
            final(self)@ == old(self)@.prompting(),
    {
        self.prompt_buffer = Some(String::new());
    }

    /// Counts one more press of Quit on unsaved changes.
    fn press_quit(&mut self) -> (effect: Effect)
        requires
            old(self)@.quit_count < u8::MAX,
        ensures
            (final(self)@, effect@) == old(self)@.quit_pressed(),
    {
        self.quit_count += 1;
        if self.quit_count >= QUIT_CONFIRM_COUNT {
            return Effect::Quit;
        }
        let remaining = QUIT_CONFIRM_COUNT - self.quit_count;
        let mut message = String::from_str("WARNING: Unsaved changes! Quit ");
        push_decimal(&mut message, remaining as usize);
        message.append(" more time(s), or C-x C-s to save.");
        self.help_message = message;
        Effect::Redraw
    }

    /// Whether `run_command` can take the command within the machine's
    /// limits.
    pub fn admits_command(&self, cmd: EditorCommand) -> (ok: bool)
        ensures
            ok == self@.admits_command(cmd),
    {
        match cmd {
            EditorCommand::InsertChar(_) | EditorCommand::InsertNewline => self.has_room(),
            EditorCommand::Quit => !self.is_dirty() || self.quit_count < u8::MAX,
            _ => true,
        }
    }

    /// Whether `handle_event` can take the event within the machine's
    /// limits. An event of the terminal that is a key is admitted by
    /// `handle_key` exactly if it is admitted here.
    pub fn admits_event(&self, key: Option<InputKey>, saw_ctrl_x: bool) -> (ok: bool)
        ensures
            ok == self@.admits_event(key, saw_ctrl_x),
            key matches Some(k) ==> ok == self@.admits_key(k, saw_ctrl_x),
    {
        if self.prompt_buffer.is_some() {
            true
        } else {
            let mut pending = saw_ctrl_x;
            let cmd = command_from_event(key, &mut pending);
            self.admits_command(cmd)
        }
    }

    /// Takes a command in normal mode and says what the event loop is to do.
    pub fn run_command(&mut self, cmd: EditorCommand) -> (effect: Effect)
        requires
            old(self).wf(),
            old(self)@.admits_command(cmd),
        ensures
            (final(self)@, effect@) == old(self)@.run_command(cmd),
            final(self).wf(),
            old(self)@.cursor_on_line() && cmd != EditorCommand::InsertChar('\n')
                ==> final(self)@.cursor_on_line(),
    {
        match cmd {
            EditorCommand::Quit => {
                if self.is_dirty() {
                    self.press_quit()
                } else {
                    Effect::Quit
                }
            },
            EditorCommand::SaveFile => {
                self.calm();
                if !str_eq(self.filename.as_str(), "-") {
                    Effect::Write(self.filename.clone())
                } else {
                    self.open_prompt();
                    Effect::Redraw
                }
            },
            EditorCommand::PromptSaveAs => {
                self.calm();
                self.open_prompt();
                Effect::Redraw
            },
            EditorCommand::NoOp => {
                self.calm();
                Effect::Idle
            },
            _ => {
                self.calm();
                self.apply_command(cmd);
                Effect::Redraw
            },
        }
    }

    /// Takes the file name that the prompt was answered with. An empty name
    /// cancels the save; any other is handed on as the name to write the
    /// document under.
    pub fn name_entered(&mut self, name: &str) -> (effect: Effect)
        ensures
            (final(self)@, effect@) == old(self)@.name_entered(name@),
            old(self).wf() ==> final(self).wf(),
    {
        if name.is_empty() {
            self.help_message = "Save cancelled (empty filename)".to_string();
            Effect::Redraw
        } else {
            Effect::Write(name.to_string())
        }
    }

    /// Takes a key while the prompt is open and says what the event loop is
    /// to do. The prompt is closed afterwards exactly when `prompt_buffer` is
    /// `None`.
    pub fn handle_prompt_key(&mut self, key: InputKey) -> (effect: Effect)
        ensures
            (final(self)@, effect@) == old(self)@.prompt_key(key),
            old(self).wf() ==> final(self).wf(),
    {
        match key {
            InputKey::Enter => {
                match self.prompt_buffer.take() {
                    Some(input) => self.name_entered(input.as_str().trim()),
                    None => Effect::Redraw,
                }
            },
            InputKey::Ctrl(c) => {
                if c == 'g' {
                    self.prompt_buffer = None;
                    self.help_message = "Save cancelled".to_string();
                    Effect::Redraw
                } else {
                    Effect::Idle
                }
            },
            InputKey::Char(c) => {
                match &mut self.prompt_buffer {
                    Some(typed) => {
                        typed.push(c);
                    },
                    None => {},
                }
                Effect::Redraw
            },
            InputKey::Backspace => {
                match &mut self.prompt_buffer {
                    Some(typed) => {
                        typed.pop();
                    },
                    None => {},
                }
                Effect::Redraw
            },
            _ => Effect::Idle,
        }
    }

    /// Takes a key in whatever mode the editor is in.
    pub fn handle_key(&mut self, key: InputKey, saw_ctrl_x: &mut bool) -> (effect: Effect)
        requires
            old(self).wf(),
            old(self)@.admits_key(key, *old(saw_ctrl_x)),
        ensures
            (final(self)@, effect@) == old(self)@.handle_key(key, *old(saw_ctrl_x)),
            final(self).wf(),
            old(self)@.prompt_buffer is Some ==> *final(saw_ctrl_x) == *old(saw_ctrl_x),
            old(self)@.prompt_buffer is None ==> *final(saw_ctrl_x) == (key == InputKey::Ctrl('x')),
    {
        if self.prompt_buffer.is_some() {
            self.handle_prompt_key(key)
        } else {
            let cmd = command_from_key(key, saw_ctrl_x);
            self.run_command(cmd)
        }
    }

    /// Takes an event of the terminal, key or not, in whatever mode the
    /// editor is in.
    pub fn handle_event(&mut self, key: Option<InputKey>, saw_ctrl_x: &mut bool) -> (effect: Effect)
        requires
            old(self).wf(),
            old(self)@.admits_event(key, *old(saw_ctrl_x)),
        ensures
            (final(self)@, effect@) == old(self)@.handle_event(key, *old(saw_ctrl_x)),
            final(self).wf(),
            old(self)@.prompt_buffer is Some ==> *final(saw_ctrl_x) == *old(saw_ctrl_x),
            old(self)@.prompt_buffer is None ==> *final(saw_ctrl_x) == match key {
                Some(k) => k == InputKey::Ctrl('x'),
                None => *old(saw_ctrl_x),
            },
    {
        if self.prompt_buffer.is_some() {
            match key {
                Some(k) => self.handle_prompt_key(k),
                None => Effect::Idle,
            }
        } else {
            let cmd = command_from_event(key, saw_ctrl_x);
            self.run_command(cmd)
        }
    }

    /// Records that the document was written to the file `name`: that is the
    /// file's name from now on, and nothing is unsaved.
    pub fn save_succeeded(&mut self, name: &str)
        ensures
            final(self)@ == old(self)@.save_succeeded(name@),
            old(self).wf() ==> final(self).wf(),
    {
        self.filename = name.to_string();
        self.clear_dirty();
        self.help_message = "File saved".to_string();
    }

    /// Records that the document could not be written, for the reason
    /// `error`. What was unsaved stays unsaved.
    pub fn save_failed(&mut self, error: &str)
        ensures
            final(self)@ == old(self)@.save_failed(error@),
            old(self).wf() ==> final(self).wf(),
    {
        let mut message = String::from_str("Save failed: ");
        message.append(error);
        self.help_message = message;
    }
}

} // verus!
