//! Changing the document: typing, deleting, loading, and the commands that
//! stand for them.

use crate::buffer::rope_remove;
use crate::commands::{apply_result, ApplyResult, EditorCommand};
use crate::editor::{EditorState, DEFAULT_HELP_MESSAGE};
use crate::file_type::{file_type_from_filename, types_simple_names, FileType};
use crate::invariants::{
    lemma_backspace, lemma_delete_char, lemma_insert_char, lemma_insert_newline, lemma_load,
    lemma_room,
};
use crate::lexer::lexer_for_file_type;
use crate::lines::lemma_line_chars;
use crate::strings::optional_view;
use crate::width::width_fits;
use ropey::Rope;
use vstd::prelude::*;

verus! {

impl EditorState {
    /// Inserts `c` at the cursor and moves the cursor one column on.
    ///
    /// A line feed put in this way splits the line as any line feed does, but
    /// the cursor stays on the line it was on, one column on: that is beyond
    /// the end of what is left of that line. `insert_newline` is the
    /// operation that moves the cursor to the new line.
    pub fn insert_char(&mut self, c: char)
        requires
            old(self).wf(),
            old(self)@.has_room(),
        ensures
            final(self)@ == old(self)@.insert_char(c),
            final(self).wf(),
            final(self)@.cursor_visible(),
            old(self)@.cursor_on_line() && c != '\n' ==> final(self)@.cursor_on_line(),
    {
        proof {
            lemma_insert_char(self@, c);
            lemma_room(self@.text.len(), self@.tab_width);
        }
        let chars = self.text.len_chars();
        let line_start = self.text.line_to_char(self.cy);
        let index = line_start + self.cx;
        self.text.insert_char(index, c);
        self.cx += 1;
        self.clear_cache();
        self.set_dirty();
        self.ensure_cursor_visible();
    }

    /// Splits the line at the cursor; the cursor goes to the start of the
    /// line that this makes.
    pub fn insert_newline(&mut self)
        requires
            old(self).wf(),
            old(self)@.has_room(),
        ensures
            final(self)@ == old(self)@.insert_newline(),
            final(self).wf(),
            final(self)@.cursor_visible(),
            final(self)@.cursor_on_line(),
    {
        proof {
            lemma_insert_newline(self@);
            lemma_room(self@.text.len(), self@.tab_width);
        }
        let chars = self.text.len_chars();
        let lines = self.text.len_lines();
        let line_start = self.text.line_to_char(self.cy);
        let index = line_start + self.cx;
        self.text.insert_char(index, '\n');
        self.cy += 1;
        self.cx = 0;
        self.clear_cache();
        self.set_dirty();
        self.ensure_cursor_visible();
    }

    /// Deletes the character *at* the cursor position (not before it).
    ///
    /// Where the cursor is at the end of a line that is not the last, this
    /// deletes the line feed and so joins the next line onto this one. Past
    /// the end of the document, and at the end of the last line, there is
    /// nothing to delete and nothing changes.
    pub fn delete_char(&mut self)
        requires
            old(self).wf(),
        ensures
            final(self)@ == old(self)@.delete_char(),
            final(self).wf(),
            old(self)@.can_delete() ==> final(self)@.cursor_visible(),
            old(self)@.cursor_visible() ==> final(self)@.cursor_visible(),
            old(self)@.cursor_on_line() ==> final(self)@.cursor_on_line(),
    {
        proof {
            lemma_delete_char(self@);
        }
        let line_start = self.text.line_to_char(self.cy);
        let chars = self.text.len_chars();
        let index = line_start + self.cx;
        if index >= chars {
            return ;
        }
        if self.cx == self.current_line_len() {
            if self.cy >= self.index_of_last_line() {
                return ;
            }
        }
        rope_remove(&mut self.text, index, index + 1);
        proof {
            assert(self@.text == old(self)@.text.remove(index as int));
        }
        self.clear_cache();
        self.set_dirty();
        self.ensure_cursor_visible();
    }

    /// Deletes the character before the cursor. At the start of a line that
    /// is not the first, this deletes the line feed before it and so merges
    /// the line into the one above.
    pub fn backspace(&mut self)
        requires
            old(self).wf(),
        ensures
            final(self)@ == old(self)@.backspace(),
            final(self).wf(),
            final(self)@.cursor_visible(),
            old(self)@.cursor_on_line() ==> final(self)@.cursor_on_line(),
    {
        proof {
            lemma_backspace(self@);
        }
        if self.cx > 0 {
            self.cx -= 1;
            self.delete_char();
        } else if self.cy > 0 {
            proof {
                lemma_line_chars(self@.text, self@.cy - 1);
            }
            self.cy -= 1;
            self.cx = self.current_line_len();
            self.delete_char();
        }
        self.ensure_cursor_visible();
    }

    /// Replace the entire buffer with `contents` and set the metadata for a
    /// document of type `file_type`.
    pub fn load_document_as(&mut self, contents: &str, filename: Option<&str>, file_type: FileType)
        requires
            width_fits(contents@.len(), old(self)@.tab_width),
        ensures
            final(self)@ == old(self)@.load(contents@, optional_view(filename), file_type),
            final(self).wf(),
            final(self)@.cursor_visible(),
            final(self)@.cursor_on_line(),
    {
        proof {
            lemma_load(self@, contents@, optional_view(filename), file_type);
        }
        self.text = Rope::from_str(contents);
        self.filename = match filename {
            Some(name) => name.to_string(),
            None => "-".to_string(),
        };
        self.file_type = file_type;
        self.lexer = lexer_for_file_type(&file_type);
        self.cx = 0;
        self.cy = 0;
        self.row_offset = 0;
        self.col_offset = 0;
        self.help_message = DEFAULT_HELP_MESSAGE.to_string();
        self.prompt_buffer = None;
        self.clear_cache();
        self.clear_dirty();
    }

    /// Replace the entire buffer with `contents` and update metadata.
    ///
    /// No file system access: the caller provides the contents. The file
    /// type is told by the extension of `filename`: without a file name, and
    /// for a name without a dot, it is unknown; for a simple name such as
    /// `main.rs` it is the type of the part after the last dot.
    pub fn load_document(&mut self, contents: &str, filename: Option<&str>)
        requires
            width_fits(contents@.len(), old(self)@.tab_width),
        ensures
            final(self)@ == old(self)@.load(
                contents@,
                optional_view(filename),
                final(self)@.file_type,
            ),
            filename is None ==> final(self)@.file_type == FileType::Unknown,
            filename matches Some(name) && !name@.contains('.') ==> final(self)@.file_type
                == FileType::Unknown,
            filename matches Some(name) ==> types_simple_names(name@, final(self)@.file_type),
            final(self)@.file_type != FileType::Binary,
            final(self).wf(),
            final(self)@.cursor_visible(),
            final(self)@.cursor_on_line(),
    {
        let file_type = match filename {
            Some(name) => file_type_from_filename(name),
            None => FileType::Unknown,
        };
        self.load_document_as(contents, filename, file_type);
    }

    /// Apply an `EditorCommand` to the document, cursor and viewport (no UI,
    /// no IO).
    ///
    /// Moves and edits change the state and ask for a redraw. Quit asks to
    /// quit and changes nothing. Saving is the caller's business: the two
    /// save commands change nothing here.
    pub fn apply_command(&mut self, cmd: EditorCommand) -> (result: ApplyResult)
        requires
            old(self).wf(),
            cmd is InsertChar || cmd is InsertNewline ==> old(self)@.has_room(),
        ensures
            final(self)@ == old(self)@.apply(cmd),
            result == apply_result(cmd),
            final(self).wf(),
            old(self)@.cursor_on_line() && cmd != EditorCommand::InsertChar('\n')
                ==> final(self)@.cursor_on_line(),
    {
        match cmd {
            EditorCommand::Quit => ApplyResult::Quit,
            EditorCommand::MoveLeft => {
                self.cursor_left();
                ApplyResult::Changed
            },
            EditorCommand::MoveRight => {
                self.cursor_right();
                ApplyResult::Changed
            },
            EditorCommand::MoveUp => {
                self.cursor_up();
                ApplyResult::Changed
            },
            EditorCommand::MoveDown => {
                self.cursor_down();
                ApplyResult::Changed
            },
            EditorCommand::InsertChar(c) => {
                self.insert_char(c);
                ApplyResult::Changed
            },
            EditorCommand::InsertNewline => {
                self.insert_newline();
                ApplyResult::Changed
            },
            EditorCommand::DeleteChar => {
                self.delete_char();
                ApplyResult::Changed
            },
            EditorCommand::Backspace => {
                self.backspace();
                ApplyResult::Changed
            },
            EditorCommand::SaveFile | EditorCommand::PromptSaveAs => ApplyResult::NoChange,
            EditorCommand::NoOp => ApplyResult::NoChange,
        }
    }
}

} // verus!
