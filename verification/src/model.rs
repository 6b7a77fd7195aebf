//! The editor as a mathematical value, and each operation as a function on
//! that value.
//!
//! `EditorView` is what an `EditorState` stands for. Every method of
//! `EditorState` says in its contract which of the functions below it
//! computes.

use crate::commands::{
    binding, event_binding, EditorCommand, EditorMode, EffectView, InputKey,
};
use crate::file_type::FileType;
use crate::lexer::{registered_lexer, Lexer, RegisteredLexer, Token, TokenKind};
use crate::lines::{absolute_index, count_newlines, line_len, line_text};
use crate::render::{clip_u16, kinds_of_columns, visible_part};
use crate::strings::{decimal, trimmed};
use crate::width::{columns, prefix, width_fits};
use vstd::prelude::*;

verus! {

/// Number of consecutive Quit presses required to discard unsaved changes.
pub const QUIT_CONFIRM_COUNT: u8 = 3;

/// Tab width of a new editor.
pub const TAB_WIDTH: usize = 4;

/// The name that stands for "no file name yet".
pub open spec fn no_filename() -> Seq<char> {
    "-"@
}

/// The help message of a new editor.
pub open spec fn default_help() -> Seq<char> {
    "HELP: C-x C-s to Save, C-x C-c to Quit"@
}

/// The help message after a save that went well.
pub open spec fn saved_help() -> Seq<char> {
    "File saved"@
}

/// The help message after a prompt that was given up.
pub open spec fn cancelled_help() -> Seq<char> {
    "Save cancelled"@
}

/// The help message after a prompt that was answered with nothing.
pub open spec fn empty_name_help() -> Seq<char> {
    "Save cancelled (empty filename)"@
}

/// The help message after a save that failed for the reason `error`.
pub open spec fn failed_help(error: Seq<char>) -> Seq<char> {
    "Save failed: "@ + error
}

/// The help message that warns of unsaved changes when `remaining` presses
/// of Quit are still needed to leave.
pub open spec fn quit_warning(remaining: nat) -> Seq<char> {
    "WARNING: Unsaved changes! Quit "@ + decimal(remaining)
        + " more time(s), or C-x C-s to save."@
}

/// An editor as a mathematical value.
pub struct EditorView {
    /// The document.
    pub text: Seq<char>,
    /// Cursor column, in characters within the line.
    pub cx: int,
    /// Cursor line.
    pub cy: int,
    /// First visible line.
    pub row_offset: int,
    /// First visible display column.
    pub col_offset: int,
    /// Terminal columns.
    pub cols: int,
    /// Terminal rows.
    pub rows: int,
    pub tab_width: nat,
    pub filename: Seq<char>,
    pub file_type: FileType,
    pub help_message: Seq<char>,
    /// `Some` while the editor asks for a file name.
    pub prompt_buffer: Option<Seq<char>>,
    pub dirty: bool,
    pub quit_count: int,
    /// The lexer picked when the document was loaded.
    pub lexer: RegisteredLexer,
    /// The tokens kept for lines, by line index.
    pub cache: Map<int, Seq<Token>>,
}

/// Where a window of `extent` cells that starts at `offset` must start to
/// show `pos`: it stays where `pos` is inside, moves up to `pos` where `pos`
/// is before it, and moves down so that `pos` is its last cell where `pos`
/// is beyond it. A window without cells starts at `pos`.
pub open spec fn scroll(pos: int, offset: int, extent: int) -> int {
    if extent <= 0 {
        pos
    } else if pos < offset {
        pos
    } else if pos >= offset + extent {
        pos + 1 - extent
    } else {
        offset
    }
}

/// `pos` lies in the window, or the window has no cells and starts at `pos`.
pub open spec fn shows(pos: int, offset: int, extent: int) -> bool {
    if extent <= 0 {
        offset == pos
    } else {
        offset <= pos < offset + extent
    }
}

impl EditorView {
    /// A new editor on a screen of `cols` columns and `rows` rows.
    pub open spec fn initial(cols: int, rows: int) -> EditorView {
        EditorView {
            text: Seq::empty(),
            cx: 0,
            cy: 0,
            row_offset: 0,
            col_offset: 0,
            cols,
            rows,
            tab_width: TAB_WIDTH as nat,
            filename: no_filename(),
            file_type: FileType::Unknown,
            help_message: default_help(),
            prompt_buffer: None,
            dirty: false,
            quit_count: 0,
            lexer: registered_lexer(FileType::Unknown),
            cache: Map::empty(),
        }
    }

    /// Index of the last line.
    pub open spec fn last_line(self) -> nat {
        count_newlines(self.text)
    }

    /// Rows of the text area: the terminal's rows but two.
    pub open spec fn text_area_height(self) -> int {
        if self.rows >= 2 {
            self.rows - 2
        } else {
            0
        }
    }

    /// Columns of the text area: the terminal's columns.
    pub open spec fn text_area_width(self) -> int {
        self.cols
    }

    /// Index in the document of the character under the cursor.
    pub open spec fn cursor_index(self) -> int {
        absolute_index(self.text, self.cy, self.cx)
    }

    /// Length of the cursor's line, without its line feed.
    pub open spec fn current_line_len(self) -> nat {
        line_len(self.text, self.cy)
    }

    /// Display column of offset `cx` in line `line`: what the first `cx`
    /// characters of the line take, the whole line where it is shorter.
    pub open spec fn screen_col(self, line: int, cx: int) -> nat {
        columns(prefix(line_text(self.text, line), cx), self.tab_width)
    }

    /// Display column of the cursor.
    pub open spec fn cursor_col(self) -> int {
        self.screen_col(self.cy, self.cx) as int
    }

    /// No stretch of the document can be wider than `usize` holds.
    pub open spec fn columns_fit(self) -> bool {
        width_fits(self.text.len(), self.tab_width)
    }

    /// The same, with room for one character more.
    pub open spec fn has_room(self) -> bool {
        width_fits(self.text.len() + 1, self.tab_width)
    }

    /// The cursor's line exists, and the cursor stands on a character of the
    /// document or at its end.
    pub open spec fn cursor_in_text(self) -> bool {
        0 <= self.cx && 0 <= self.cy <= self.last_line() && self.cursor_index() <= self.text.len()
    }

    /// The cursor's line exists, and the cursor stands on a character of that
    /// line or just after its last.
    pub open spec fn cursor_on_line(self) -> bool {
        0 <= self.cx <= self.current_line_len() && 0 <= self.cy <= self.last_line()
    }

    /// What the cache keeps for a line is what the lexer makes of that line.
    pub open spec fn cache_valid(self) -> bool {
        forall|i: int| #[trigger]
            self.cache.dom().contains(i) ==> 0 <= i <= self.last_line() && self.cache[i]
                == self.lexer.scan(line_text(self.text, i), false).0
    }

    /// What every operation on the document asks for and keeps.
    ///
    /// The cursor need only stand in the document, not on its own line:
    /// `insert_char` with a line feed leaves it one column beyond the end of
    /// its line, and every operation still works from there. Every other
    /// operation keeps a cursor on its line on its line; see
    /// `cursor_on_line`.
    pub open spec fn wf(self) -> bool {
        &&& self.cursor_in_text()
        &&& self.columns_fit()
        &&& self.cache_valid()
    }

    /// The cursor's line and display column lie in the viewport.
    pub open spec fn cursor_visible(self) -> bool {
        &&& shows(self.cy, self.row_offset, self.text_area_height())
        &&& shows(self.cursor_col(), self.col_offset, self.text_area_width())
    }

    /// The cursor's line lies below the text area.
    pub open spec fn cursor_below(self) -> bool {
        self.text_area_height() > 0 && self.cy >= self.row_offset + self.text_area_height()
    }

    /// The cursor's line lies above the text area.
    pub open spec fn cursor_above(self) -> bool {
        self.cy < self.row_offset
    }

    /// The viewport moved, if it must, to show the cursor.
    pub open spec fn scrolled(self) -> EditorView {
        EditorView {
            row_offset: scroll(self.cy, self.row_offset, self.text_area_height()),
            col_offset: scroll(self.cursor_col(), self.col_offset, self.text_area_width()),
            ..self
        }
    }

    /// The cursor put at column `cx` of line `cy`.
    pub open spec fn set_cursor(self, cx: int, cy: int) -> EditorView {
        EditorView { cx, cy, ..self }
    }

    /// The terminal resized, and the viewport moved to show the cursor.
    pub open spec fn set_screen_size(self, cols: int, rows: int) -> EditorView {
        EditorView { cols, rows, ..self }.scrolled()
    }

    /// One character back; from the start of a line to the end of the line
    /// before, if there is one.
    pub open spec fn cursor_left(self) -> EditorView {
        if self.cx > 0 {
            EditorView { cx: self.cx - 1, ..self }.scrolled()
        } else if self.cy > 0 {
            EditorView {
                cy: self.cy - 1,
                cx: line_len(self.text, self.cy - 1) as int,
                ..self
            }.scrolled()
        } else {
            self.scrolled()
        }
    }

    /// One character on; from the end of a line to the start of the next, if
    /// there is one.
    pub open spec fn cursor_right(self) -> EditorView {
        if self.cx < self.current_line_len() {
            EditorView { cx: self.cx + 1, ..self }.scrolled()
        } else if self.cy < self.last_line() {
            EditorView { cy: self.cy + 1, cx: 0, ..self }.scrolled()
        } else {
            self.scrolled()
        }
    }

    /// One line up, the column no further than that line's end.
    pub open spec fn cursor_up(self) -> EditorView {
        if self.cy > 0 {
            let len = line_len(self.text, self.cy - 1) as int;
            EditorView {
                cy: self.cy - 1,
                cx: if self.cx < len {
                    self.cx
                } else {
                    len
                },
                ..self
            }.scrolled()
        } else {
            self.scrolled()
        }
    }

    /// One line down, the column no further than that line's end.
    pub open spec fn cursor_down(self) -> EditorView {
        if self.cy < self.last_line() {
            let len = line_len(self.text, self.cy + 1) as int;
            EditorView {
                cy: self.cy + 1,
                cx: if self.cx < len {
                    self.cx
                } else {
                    len
                },
                ..self
            }.scrolled()
        } else {
            self.scrolled()
        }
    }

    /// The document changed: it is dirty, and nothing cached holds any more.
    pub open spec fn edited(self, text: Seq<char>) -> EditorView {
        EditorView { text, dirty: true, cache: Map::empty(), ..self }
    }

    /// `c` put in under the cursor, and the cursor one column on.
    pub open spec fn insert_char(self, c: char) -> EditorView {
        EditorView { cx: self.cx + 1, ..self.edited(self.text.insert(self.cursor_index(), c)) }.scrolled()
    }

    /// A line feed put in under the cursor, and the cursor at the start of the
    /// line that this makes.
    pub open spec fn insert_newline(self) -> EditorView {
        EditorView {
            cx: 0,
            cy: self.cy + 1,
            ..self.edited(self.text.insert(self.cursor_index(), '\n'))
        }.scrolled()
    }

    /// Whether there is a character under the cursor to delete: none past the
    /// end of the document, and none at the end of the last line.
    pub open spec fn can_delete(self) -> bool {
        &&& self.cursor_index() < self.text.len()
        &&& !(self.cx == self.current_line_len() && self.cy >= self.last_line())
    }

    /// The character under the cursor taken out, if there is one to delete.
    pub open spec fn delete_char(self) -> EditorView {
        if self.can_delete() {
            self.edited(self.text.remove(self.cursor_index())).scrolled()
        } else {
            self
        }
    }

    /// The character before the cursor taken out: one step back, then
    /// `delete_char`. At the very start nothing is taken out.
    pub open spec fn backspace(self) -> EditorView {
        if self.cx > 0 {
            EditorView { cx: self.cx - 1, ..self }.delete_char().scrolled()
        } else if self.cy > 0 {
            EditorView {
                cy: self.cy - 1,
                cx: line_len(self.text, self.cy - 1) as int,
                ..self
            }.delete_char().scrolled()
        } else {
            self.scrolled()
        }
    }

    /// Nothing unsaved any more, and no press of Quit counted.
    pub open spec fn clear_dirty(self) -> EditorView {
        EditorView { dirty: false, quit_count: 0, ..self }
    }

    /// A document loaded in place of the present one, under the file type
    /// `ft`.
    pub open spec fn load(self, contents: Seq<char>, filename: Option<Seq<char>>, ft: FileType) -> EditorView {
        EditorView {
            text: contents,
            filename: match filename {
                Some(name) => name,
                None => no_filename(),
            },
            file_type: ft,
            cx: 0,
            cy: 0,
            row_offset: 0,
            col_offset: 0,
            help_message: default_help(),
            prompt_buffer: None,
            dirty: false,
            quit_count: 0,
            lexer: registered_lexer(ft),
            cache: Map::empty(),
            ..self
        }
    }

    /// The prompt is open exactly while there is a prompt buffer.
    pub open spec fn mode(self) -> EditorMode {
        if self.prompt_buffer is Some {
            EditorMode::PromptInput
        } else {
            EditorMode::Normal
        }
    }

    /// What a command does to the document, the cursor and the viewport.
    pub open spec fn apply(self, cmd: EditorCommand) -> EditorView {
        match cmd {
            EditorCommand::MoveLeft => self.cursor_left(),
            EditorCommand::MoveRight => self.cursor_right(),
            EditorCommand::MoveUp => self.cursor_up(),
            EditorCommand::MoveDown => self.cursor_down(),
            EditorCommand::InsertChar(c) => self.insert_char(c),
            EditorCommand::InsertNewline => self.insert_newline(),
            EditorCommand::DeleteChar => self.delete_char(),
            EditorCommand::Backspace => self.backspace(),
            _ => self,
        }
    }

    /// What the viewport shows of line `i` in `width` columns.
    pub open spec fn slice(self, i: int, width: int) -> Seq<char> {
        visible_part(line_text(self.text, i), self.tab_width, self.col_offset, width)
    }

    /// The document line that screen row `screen_y` shows.
    pub open spec fn row_line(self, screen_y: int) -> int {
        self.row_offset + screen_y
    }

    /// Whether screen row `screen_y` shows a line of the document.
    pub open spec fn row_has_line(self, screen_y: int) -> bool {
        0 <= self.row_line(screen_y) <= self.last_line()
    }

    /// The token kind of each character that screen row `screen_y` shows in
    /// `width` columns: that of the column `col_offset` plus the character's
    /// place in the row.
    pub open spec fn row_kinds(self, screen_y: int, width: int) -> Seq<TokenKind> {
        kinds_of_columns(
            self.line_tokens(self.row_line(screen_y)),
            self.col_offset,
            self.slice(self.row_line(screen_y), width).len(),
        )
    }

    /// Where on screen the cursor is drawn: its column and row within the
    /// viewport, each cut to the range of `u16`.
    pub open spec fn screen_cursor(self) -> (int, int) {
        (clip_u16(self.cursor_col() - self.col_offset), clip_u16(self.cy - self.row_offset))
    }

    /// The prompt opened, with nothing typed yet.
    pub open spec fn prompting(self) -> EditorView {
        EditorView { prompt_buffer: Some(Seq::empty()), ..self }
    }

    /// A count of Quit presses forgotten, and the warning with it.
    pub open spec fn calmed(self) -> EditorView {
        if self.quit_count > 0 {
            EditorView { quit_count: 0, help_message: default_help(), ..self }
        } else {
            self
        }
    }

    /// Quit pressed once more on unsaved changes.
    pub open spec fn quit_pressed(self) -> (EditorView, EffectView) {
        let presses = self.quit_count + 1;
        if presses >= QUIT_CONFIRM_COUNT {
            (EditorView { quit_count: presses, ..self }, EffectView::Quit)
        } else {
            (
                EditorView {
                    quit_count: presses,
                    help_message: quit_warning((QUIT_CONFIRM_COUNT - presses) as nat),
                    ..self
                },
                EffectView::Redraw,
            )
        }
    }

    /// Whether the machine's limits let the command be run: a command that
    /// puts a character in needs room for it, and a press of Quit on unsaved
    /// changes needs a count that can still go up.
    pub open spec fn admits_command(self, cmd: EditorCommand) -> bool {
        &&& cmd is InsertChar || cmd is InsertNewline ==> self.has_room()
        &&& cmd is Quit && self.dirty ==> self.quit_count < u8::MAX
    }

    /// Whether the machine's limits let a key be taken: in the prompt any
    /// key is, otherwise the key's command must be admitted.
    pub open spec fn admits_key(self, key: InputKey, saw_ctrl_x: bool) -> bool {
        self.prompt_buffer is None ==> self.admits_command(binding(key, saw_ctrl_x))
    }

    /// Whether the machine's limits let an event be taken.
    pub open spec fn admits_event(self, key: Option<InputKey>, saw_ctrl_x: bool) -> bool {
        self.prompt_buffer is None ==> self.admits_command(event_binding(key, saw_ctrl_x))
    }

    /// The tab width set to `tab_width`; the viewport stays where it is.
    pub open spec fn set_tab_width(self, tab_width: nat) -> EditorView {
        EditorView { tab_width, ..self }
    }

    /// A command taken in normal mode: the state after it and what the event
    /// loop is to do.
    ///
    /// Quit leaves at once where nothing is unsaved; on unsaved changes it
    /// must be pressed `QUIT_CONFIRM_COUNT` times in a row, and warns until
    /// it has been. Any other command forgets the presses counted. SaveFile
    /// asks for the document to be written where the file name is known, and
    /// opens the prompt where it is not; PromptSaveAs opens the prompt in any
    /// case. Moves and edits are applied to the document.
    pub open spec fn run_command(self, cmd: EditorCommand) -> (EditorView, EffectView) {
        match cmd {
            EditorCommand::Quit => if self.dirty {
                self.quit_pressed()
            } else {
                (self, EffectView::Quit)
            },
            EditorCommand::SaveFile => if self.filename != no_filename() {
                (self.calmed(), EffectView::Write(self.filename))
            } else {
                (self.calmed().prompting(), EffectView::Redraw)
            },
            EditorCommand::PromptSaveAs => (self.calmed().prompting(), EffectView::Redraw),
            EditorCommand::NoOp => (self.calmed(), EffectView::Idle),
            _ => (self.calmed().apply(cmd), EffectView::Redraw),
        }
    }

    /// A file name given in answer to the prompt: an empty one cancels the
    /// save, any other is the name to write the document under.
    pub open spec fn name_entered(self, name: Seq<char>) -> (EditorView, EffectView) {
        if name.len() == 0 {
            (EditorView { help_message: empty_name_help(), ..self }, EffectView::Redraw)
        } else {
            (self, EffectView::Write(name))
        }
    }

    /// A key taken while the prompt is open.
    ///
    /// Enter closes the prompt and asks for the document to be written under
    /// the name typed, trimmed of white space; an empty name cancels. Ctrl-G
    /// cancels. A character is added to the name, Backspace takes the last
    /// one off. Any other key is ignored.
    pub open spec fn prompt_key(self, key: InputKey) -> (EditorView, EffectView) {
        match key {
            InputKey::Enter => match self.prompt_buffer {
                Some(typed) => EditorView { prompt_buffer: None, ..self }.name_entered(
                    trimmed(typed),
                ),
                None => (self, EffectView::Redraw),
            },
            InputKey::Ctrl(c) => if c == 'g' {
                (
                    EditorView { prompt_buffer: None, help_message: cancelled_help(), ..self },
                    EffectView::Redraw,
                )
            } else {
                (self, EffectView::Idle)
            },
            InputKey::Char(c) => match self.prompt_buffer {
                Some(typed) => (
                    EditorView { prompt_buffer: Some(typed.push(c)), ..self },
                    EffectView::Redraw,
                ),
                None => (self, EffectView::Redraw),
            },
            InputKey::Backspace => match self.prompt_buffer {
                Some(typed) => (
                    EditorView {
                        prompt_buffer: Some(
                            if typed.len() > 0 {
                                typed.drop_last()
                            } else {
                                typed
                            },
                        ),
                        ..self
                    },
                    EffectView::Redraw,
                ),
                None => (self, EffectView::Redraw),
            },
            _ => (self, EffectView::Idle),
        }
    }

    /// A key taken in whatever mode the editor is in: by the prompt while it
    /// is open, else turned into a command by the key bindings and run.
    pub open spec fn handle_key(self, key: InputKey, saw_ctrl_x: bool) -> (EditorView, EffectView) {
        if self.prompt_buffer is Some {
            self.prompt_key(key)
        } else {
            self.run_command(binding(key, saw_ctrl_x))
        }
    }

    /// An event of the terminal taken, whether it is a key or not. While the
    /// prompt is open only keys count. Otherwise what is no key is the
    /// command that does nothing, which still ends a run of Quit presses.
    pub open spec fn handle_event(self, key: Option<InputKey>, saw_ctrl_x: bool) -> (
        EditorView,
        EffectView,
    ) {
        if self.prompt_buffer is Some {
            match key {
                Some(k) => self.prompt_key(k),
                None => (self, EffectView::Idle),
            }
        } else {
            self.run_command(event_binding(key, saw_ctrl_x))
        }
    }

    /// The document was written to the file `name`.
    pub open spec fn save_succeeded(self, name: Seq<char>) -> EditorView {
        EditorView { filename: name, help_message: saved_help(), ..self.clear_dirty() }
    }

    /// The document could not be written, for the reason `error`.
    pub open spec fn save_failed(self, error: Seq<char>) -> EditorView {
        EditorView { help_message: failed_help(error), ..self }
    }

    /// The status bar: the file type, the number of lines and characters, a
    /// mark where changes are unsaved, the presses of Quit counted, and the
    /// cursor's column and row.
    pub open spec fn status_message(self) -> Seq<char> {
        self.file_type.label() + ": "@ + decimal(self.last_line() + 1) + " lines, "@ + decimal(
            self.text.len(),
        ) + " chars"@ + (if self.dirty {
            " (modified) "@
        } else {
            Seq::empty()
        }) + (if self.quit_count > 0 {
            " ("@ + decimal(self.quit_count as nat) + " more quit(s) to discard)"@
        } else {
            Seq::empty()
        }) + "    (col: "@ + decimal(self.cx as nat) + ", row: "@ + decimal(self.cy as nat) + ")"@
    }

    /// The line below the status bar: the prompt with what was typed while
    /// the prompt is open, else the help message.
    pub open spec fn help_line(self) -> Seq<char> {
        match self.prompt_buffer {
            Some(typed) => "Save as: "@ + typed,
            None => self.help_message,
        }
    }

    /// The tokens of line `i`, kept for the next time.
    pub open spec fn cached(self, i: int, tokens: Seq<Token>) -> EditorView {
        EditorView { cache: self.cache.insert(i, tokens), ..self }
    }

    /// What the lexer makes of line `i`.
    pub open spec fn line_tokens(self, i: int) -> Seq<Token> {
        self.lexer.scan(line_text(self.text, i), false).0
    }
}

} // verus!
