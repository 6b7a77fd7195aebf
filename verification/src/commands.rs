//! The abstract input alphabet, the editor's commands, and the key bindings
//! that turn the one into the other.

use vstd::prelude::*;

verus! {

/// High-level actions the editor understands.
#[derive(Debug, Clone, Copy, PartialEq, Eq)]
pub enum EditorCommand {
    Quit,
    MoveLeft,
    MoveRight,
    MoveUp,
    MoveDown,
    InsertChar(char),
    InsertNewline,
    DeleteChar,
    Backspace,
    SaveFile,
    PromptSaveAs,
    NoOp,
}

/// A key press, free of any terminal backend.
#[derive(Debug, Clone, Copy, PartialEq, Eq)]
pub enum InputKey {
    Char(char),
    Enter,
    Backspace,
    Delete,
    Left,
    Right,
    Up,
    Down,
    Ctrl(char),
}

/// Which key a key event names, as far as the editor tells keys apart.
#[derive(Debug, Clone, Copy, PartialEq, Eq)]
pub enum KeyName {
    Left,
    Right,
    Up,
    Down,
    Enter,
    Backspace,
    Delete,
    Char(char),
    /// Any key that the editor has no use for.
    Other,
}

/// A key event of the terminal in plain values.
#[derive(Debug, Clone, Copy, PartialEq, Eq)]
pub struct KeyPress {
    pub name: KeyName,
    /// Whether the key went down; it is `false` for a release or a repeat.
    pub pressed: bool,
    /// Whether Control was held.
    pub ctrl: bool,
    /// Whether Alt was held.
    pub alt: bool,
}

/// Whether the editor edits the document or asks for a file name.
#[derive(Debug, Clone, Copy, PartialEq, Eq)]
pub enum EditorMode {
    Normal,
    PromptInput,
}

/// Result of applying an `EditorCommand` to the editor state.
#[derive(Debug, Clone, Copy, PartialEq, Eq)]
pub enum ApplyResult {
    /// No visible state change (no redraw needed).
    NoChange,
    /// State changed (redraw recommended).
    Changed,
    /// Request to quit the application.
    Quit,
}

/// What the event loop is to do after the editor has taken a command or a
/// key.
#[derive(Debug, Clone, PartialEq, Eq)]
pub enum Effect {
    /// Nothing changed that shows.
    Idle,
    /// Paint the screen again.
    Redraw,
    /// Leave the loop.
    Quit,
    /// Write the document to the file of this name, report how that went
    /// with `save_succeeded` or `save_failed`, and paint the screen again.
    Write(String),
}

/// An `Effect` as a mathematical value.
pub enum EffectView {
    Idle,
    Redraw,
    Quit,
    Write(Seq<char>),
}

impl View for Effect {
    type V = EffectView;

    open spec fn view(&self) -> EffectView {
        match self {
            Effect::Idle => EffectView::Idle,
            Effect::Redraw => EffectView::Redraw,
            Effect::Quit => EffectView::Quit,
            Effect::Write(name) => EffectView::Write(name@),
        }
    }
}

/// The input key that a key event stands for, if it stands for one.
///
/// Only a key that goes down counts. The arrows, Enter, Backspace and Delete
/// stand for themselves whatever is held with them. A character with Control
/// is a control key; a character with Alt and without Control is ignored; any
/// other character is typed.
pub open spec fn input_key_of(press: KeyPress) -> Option<InputKey> {
    if !press.pressed {
        None
    } else {
        match press.name {
            KeyName::Left => Some(InputKey::Left),
            KeyName::Right => Some(InputKey::Right),
            KeyName::Up => Some(InputKey::Up),
            KeyName::Down => Some(InputKey::Down),
            KeyName::Enter => Some(InputKey::Enter),
            KeyName::Backspace => Some(InputKey::Backspace),
            KeyName::Delete => Some(InputKey::Delete),
            KeyName::Char(c) => if press.ctrl {
                Some(InputKey::Ctrl(c))
            } else if press.alt {
                None
            } else {
                Some(InputKey::Char(c))
            },
            KeyName::Other => None,
        }
    }
}

/// Convert a key event into the editor's own input alphabet.
pub fn to_input_key(press: KeyPress) -> (key: Option<InputKey>)
    ensures
        key == input_key_of(press),
{
    if !press.pressed {
        return None;
    }
    match press.name {
        KeyName::Left => Some(InputKey::Left),
        KeyName::Right => Some(InputKey::Right),
        KeyName::Up => Some(InputKey::Up),
        KeyName::Down => Some(InputKey::Down),
        KeyName::Enter => Some(InputKey::Enter),
        KeyName::Backspace => Some(InputKey::Backspace),
        KeyName::Delete => Some(InputKey::Delete),
        KeyName::Char(c) => {
            if press.ctrl {
                Some(InputKey::Ctrl(c))
            } else if press.alt {
                None
            } else {
                Some(InputKey::Char(c))
            }
        },
        KeyName::Other => None,
    }
}

/// The command for an event of the terminal that may or may not be a key:
/// what is no key is no command, and leaves a pending chord pending.
pub open spec fn event_binding(key: Option<InputKey>, saw_ctrl_x: bool) -> EditorCommand {
    match key {
        Some(k) => binding(k, saw_ctrl_x),
        None => EditorCommand::NoOp,
    }
}

/// Turn an event of the terminal, as far as it is a key, into an editor
/// command.
pub fn command_from_event(key: Option<InputKey>, saw_ctrl_x: &mut bool) -> (command: EditorCommand)
    ensures
        command == event_binding(key, *old(saw_ctrl_x)),
        *final(saw_ctrl_x) == match key {
            Some(k) => k == InputKey::Ctrl('x'),
            None => *old(saw_ctrl_x),
        },
{
    match key {
        Some(k) => command_from_key(k, saw_ctrl_x),
        None => EditorCommand::NoOp,
    }
}

/// What applying a command to the document reports: a redraw for moves and
/// edits, a request to quit for Quit, and no change for the rest.
pub open spec fn apply_result(cmd: EditorCommand) -> ApplyResult {
    match cmd {
        EditorCommand::Quit => ApplyResult::Quit,
        EditorCommand::SaveFile | EditorCommand::PromptSaveAs | EditorCommand::NoOp =>
            ApplyResult::NoChange,
        _ => ApplyResult::Changed,
    }
}

/// The command that a key stands for when no chord is pending.
pub open spec fn plain_binding(key: InputKey) -> EditorCommand {
    match key {
        InputKey::Left => EditorCommand::MoveLeft,
        InputKey::Right => EditorCommand::MoveRight,
        InputKey::Up => EditorCommand::MoveUp,
        InputKey::Down => EditorCommand::MoveDown,
        InputKey::Enter => EditorCommand::InsertNewline,
        InputKey::Delete => EditorCommand::DeleteChar,
        InputKey::Backspace => EditorCommand::Backspace,
        InputKey::Char(c) => EditorCommand::InsertChar(c),
        InputKey::Ctrl(_) => EditorCommand::NoOp,
    }
}

/// The command that a key stands for after Ctrl-X.
pub open spec fn chord_binding(key: InputKey) -> EditorCommand {
    if key == InputKey::Ctrl('c') {
        EditorCommand::Quit
    } else if key == InputKey::Ctrl('s') {
        EditorCommand::SaveFile
    } else {
        EditorCommand::NoOp
    }
}

/// The command for `key`, given whether Ctrl-X was the key before it.
///
/// Ctrl-Q quits at once. Ctrl-X starts a chord and is no command itself. The
/// key after Ctrl-X completes the chord; any other key has its plain binding.
pub open spec fn binding(key: InputKey, saw_ctrl_x: bool) -> EditorCommand {
    if key == InputKey::Ctrl('q') {
        EditorCommand::Quit
    } else if key == InputKey::Ctrl('x') {
        EditorCommand::NoOp
    } else if saw_ctrl_x {
        chord_binding(key)
    } else {
        plain_binding(key)
    }
}

fn is_ctrl(key: InputKey, c: char) -> (b: bool)
    ensures
        b == (key == InputKey::Ctrl(c)),
{
    match key {
        InputKey::Ctrl(k) => k == c,
        _ => false,
    }
}

/// Turn a simplified input key into an editor command.
///
/// `saw_ctrl_x` remembers between calls whether a chord is pending: it is set
/// by Ctrl-X and cleared by every other key.
pub fn command_from_key(key: InputKey, saw_ctrl_x: &mut bool) -> (command: EditorCommand)
    ensures
        command == binding(key, *old(saw_ctrl_x)),
        *final(saw_ctrl_x) == (key == InputKey::Ctrl('x')),
{
    // Quit on Ctrl-Q. Alternative to C-x C-c.
    if is_ctrl(key, 'q') {
        *saw_ctrl_x = false;
        return EditorCommand::Quit;
    }
    // Ctrl-X prefix handling.

    if is_ctrl(key, 'x') {
        *saw_ctrl_x = true;
        return EditorCommand::NoOp;
    }
    if *saw_ctrl_x {
        *saw_ctrl_x = false;
        return if is_ctrl(key, 'c') {
            EditorCommand::Quit
        } else if is_ctrl(key, 's') {
            EditorCommand::SaveFile
        } else {
            EditorCommand::NoOp
        };
    }
    match key {
        InputKey::Left => EditorCommand::MoveLeft,
        InputKey::Right => EditorCommand::MoveRight,
        InputKey::Up => EditorCommand::MoveUp,
        InputKey::Down => EditorCommand::MoveDown,
        InputKey::Enter => EditorCommand::InsertNewline,
        InputKey::Delete => EditorCommand::DeleteChar,
        InputKey::Backspace => EditorCommand::Backspace,
        InputKey::Char(c) => EditorCommand::InsertChar(c),
        InputKey::Ctrl(_) => EditorCommand::NoOp,
    }
}

} // verus!
