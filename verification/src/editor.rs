//! The editor's state: document, cursor, viewport, token cache and session
//! metadata, and the operations that keep them consistent.

use crate::buffer::{rope_chars, rope_line, rope_to_string};
use crate::commands::{binding, command_from_key, EditorCommand, EditorMode, InputKey};
use crate::file_type::FileType;
use crate::invariants::lemma_width_fits_shorter;
use crate::lexer::{lexer_for_file_type, RegisteredLexer, Token, TokenKind};
use crate::lines::{count_newlines, lemma_line_start, lemma_line_text, line_text};
use crate::model::{EditorView, TAB_WIDTH};
use crate::strings::optional_view;
use crate::width::{
    columns, display_width, display_width_of, fits_width, prefix_columns, width_fits,
    MAX_GLYPH_WIDTH,
};
use ropey::Rope;
use vstd::prelude::*;

mod edit;
mod motion;
mod screen;
mod session;

verus! {

/// The size of the terminal as (columns, rows).
pub type ScreenSize = (u16, u16);

/// Default help message shown in the bottom line of the editor.
pub const DEFAULT_HELP_MESSAGE: &'static str = "HELP: C-x C-s to Save, C-x C-c to Quit";

/// One row of the text area as it is painted.
pub struct ScreenRow {
    /// The characters shown, tabs expanded to spaces.
    pub text: String,
    /// The token kind of each character of `text`.
    pub kinds: Vec<TokenKind>,
}

/// The editor: the document with its cursor and viewport, the tokens
/// cached for its lines, and what the session knows of the file.
///
/// What a state stands for is its view, an `EditorView`; the contracts speak
/// of the view alone. The public fields are there for code that Verus does
/// not check. Verified code reads them through the methods of their names
/// (`prompt_text` for the prompt) and sets the tab width with
/// `set_tab_width`, which keeps `wf`.
pub struct EditorState {
    /// All text of all lines.
    text: Rope,
    /// Cursor column, in characters within the line.
    cx: usize,
    /// Cursor line.
    cy: usize,
    /// First visible line.
    row_offset: usize,
    /// First visible display column.
    col_offset: usize,
    screen_size: ScreenSize,
    /// The lexer picked when the document was loaded.
    lexer: RegisteredLexer,
    /// The tokens of lines, as far as they were asked for since the last
    /// edit; the slot of a line is its index.
    cache: Vec<Option<Vec<Token>>>,
    /// The name of the file, `"-"` while there is none.
    pub filename: String,
    pub file_type: FileType,
    pub help_message: String,
    /// When `Some`, the editor is in prompt mode (e.g. "Save as").
    /// The `String` accumulates the user's typed input.
    /// `None` means normal editing mode.
    pub prompt_buffer: Option<String>,
    pub dirty: bool,
    /// How many times the user has pressed Quit while the buffer is dirty.
    pub quit_count: u8,
    pub tab_width: usize,
}

impl View for EditorState {
    type V = EditorView;

    closed spec fn view(&self) -> EditorView {
        EditorView {
            text: rope_chars(self.text),
            cx: self.cx as int,
            cy: self.cy as int,
            row_offset: self.row_offset as int,
            col_offset: self.col_offset as int,
            cols: self.screen_size.0 as int,
            rows: self.screen_size.1 as int,
            tab_width: self.tab_width as nat,
            filename: self.filename@,
            file_type: self.file_type,
            help_message: self.help_message@,
            prompt_buffer: match self.prompt_buffer {
                Some(s) => Some(s@),
                None => None,
            },
            dirty: self.dirty,
            quit_count: self.quit_count as int,
            lexer: self.lexer,
            cache: Map::new(
                |i: int| 0 <= i < self.cache@.len() && self.cache@[i] is Some,
                |i: int| self.cache@[i]->0@,
            ),
        }
    }
}

impl EditorState {
    /// What every operation on the document asks for and keeps: the cursor
    /// stands in the document, no stretch of the document is wider than
    /// `usize` holds, and what is cached for a line is what the lexer makes
    /// of that line.
    pub open spec fn wf(&self) -> bool {
        self@.wf()
    }

    /// An empty editor for a terminal of the given size.
    pub fn new(screen_size: ScreenSize) -> (state: Self)
        ensures
            state@ == EditorView::initial(screen_size.0 as int, screen_size.1 as int),
            state.wf(),
    {
        let state = Self {
            text: Rope::new(),
            cx: 0,
            cy: 0,
            row_offset: 0,
            col_offset: 0,
            screen_size,
            lexer: lexer_for_file_type(&FileType::Unknown),
            cache: Vec::new(),
            filename: "-".to_string(),
            file_type: FileType::Unknown,
            help_message: DEFAULT_HELP_MESSAGE.to_string(),
            prompt_buffer: None,
            dirty: false,
            quit_count: 0,
            tab_width: TAB_WIDTH,
        };
        proof {
            assert(state@.cache =~= Map::empty());
            lemma_line_start(state@.text, 0);
            reveal_with_fuel(count_newlines, 1);
        }
        state
    }

    /// Height of the editable text area (terminal rows minus status + help).
    pub fn text_area_height(&self) -> (h: usize)
        ensures
            h == self@.text_area_height(),
    {
        let (_cols, rows) = self.screen_size;
        if rows >= 2 {
            (rows - 2) as usize
        } else {
            0
        }
    }

    /// Width of the text area: the terminal's columns.
    pub fn text_area_width(&self) -> (w: usize)
        ensures
            w == self@.text_area_width(),
    {
        let (cols, _rows) = self.screen_size;
        cols as usize
    }

    /// The first buffer line currently visible at the top of the screen.
    pub fn row_offset(&self) -> (row: usize)
        ensures
            row == self@.row_offset,
    {
        self.row_offset
    }

    /// The first display column currently visible at the left of the screen.
    pub fn col_offset(&self) -> (col: usize)
        ensures
            col == self@.col_offset,
    {
        self.col_offset
    }

    /// The size of the terminal as (columns, rows).
    pub fn screen_size(&self) -> (size: ScreenSize)
        ensures
            size.0 == self@.cols,
            size.1 == self@.rows,
    {
        self.screen_size
    }

    /// The cursor as (column, line).
    pub fn cursor_pos(&self) -> (pos: (usize, usize))
        ensures
            pos.0 == self@.cx,
            pos.1 == self@.cy,
    {
        (self.cx, self.cy)
    }

    /// Puts the cursor at column `cx` of line `cy`, whether or not the
    /// document has such a place; the viewport stays where it is.
    pub fn set_cursor(&mut self, cx: usize, cy: usize)
        ensures
            final(self)@ == old(self)@.set_cursor(cx as int, cy as int),
            old(self).wf() && old(self)@.set_cursor(cx as int, cy as int).cursor_in_text()
                ==> final(self).wf(),
    {
        self.cx = cx;
        self.cy = cy;
    }

    /// Whether the document has changes that were not saved.
    pub fn is_dirty(&self) -> (dirty: bool)
        ensures
            dirty == self@.dirty,
    {
        self.dirty
    }

    /// Marks the document as changed.
    fn set_dirty(&mut self)
        ensures
            final(self)@ == (EditorView { dirty: true, ..old(self)@ }),
    {
        self.dirty = true;
    }

    /// Marks the document as saved, and forgets the presses of Quit counted.
    pub fn clear_dirty(&mut self)
        ensures
            final(self)@ == old(self)@.clear_dirty(),
            old(self).wf() ==> final(self).wf(),
    {
        self.dirty = false;
        self.quit_count = 0;
    }

    /// Forgets the presses of Quit counted.
    pub fn reset_quit_count(&mut self)
        ensures
            final(self)@ == (EditorView { quit_count: 0, ..old(self)@ }),
            old(self).wf() ==> final(self).wf(),
    {
        self.quit_count = 0;
    }

    /// Total number of Unicode scalar values (`char`s) in the buffer: not
    /// bytes, and not grapheme clusters.
    pub fn char_count(&self) -> (n: usize)
        ensures
            n == self@.text.len(),
    {
        self.text.len_chars()
    }

    /// Index of the last line: the number of line feeds in the document.
    pub fn index_of_last_line(&self) -> (last: usize)
        ensures
            last == self@.last_line(),
    {
        self.text.len_lines() - 1
    }

    /// Line `line_index` with the line feed that ends it, if one does.
    pub fn line_as_string(&self, line_index: usize) -> (line: String)
        requires
            line_index <= self@.last_line(),
        ensures
            line@ == line_text(self@.text, line_index as int),
    {
        rope_line(&self.text, line_index)
    }

    /// The cursor's line with the line feed that ends it, if one does.
    pub fn current_line(&self) -> (line: String)
        requires
            self@.cy <= self@.last_line(),
        ensures
            line@ == line_text(self@.text, self@.cy),
    {
        rope_line(&self.text, self.cy)
    }

    /// Length of the cursor's line, not counting the line feed that ends it.
    pub fn current_line_len(&self) -> (len: usize)
        requires
            self@.cy <= self@.last_line(),
        ensures
            len == self@.current_line_len(),
    {
        // The two counts bound every index below.
        let lines = self.text.len_lines();
        let chars = self.text.len_chars();
        proof {
            lemma_line_text(self@.text, self@.cy);
        }
        let start = self.text.line_to_char(self.cy);
        let end = self.text.line_to_char(self.cy + 1);
        let mut len = end - start;
        if len > 0 && self.text.char(end - 1) == '\n' {
            len -= 1;
        }
        proof {
            let t = line_text(self@.text, self@.cy);
            if t.len() > 0 {
                assert(t.last() == self@.text[end - 1]);
            }
        }
        len
    }

    /// The whole document as a string, for the caller to write to storage.
    pub fn save_to_string(&self) -> (text: String)
        ensures
            text@ == self@.text,
    {
        rope_to_string(&self.text)
    }

    /// Screen width of a single character under this editor's tab width.
    pub fn display_width(&self, c: char) -> (w: usize)
        ensures
            w == display_width_of(c, self@.tab_width),
    {
        display_width(c, self.tab_width)
    }

    /// Convert a char-index on a given line to its screen column.
    pub fn cx_to_screen_col(&self, line_index: usize, cx: usize) -> (col: usize)
        requires
            line_index <= self@.last_line(),
            self@.columns_fit(),
        ensures
            col == self@.screen_col(line_index as int, cx as int),
    {
        let line = rope_line(&self.text, line_index);
        proof {
            lemma_line_text(self@.text, line_index as int);
            lemma_width_fits_shorter(self@.text.len(), line@.len(), self@.tab_width);
        }
        prefix_columns(line.as_str(), cx, self.tab_width)
    }

    /// Screen width of a whole line.
    pub fn display_width_of_line(&self, line_index: usize) -> (col: usize)
        requires
            line_index <= self@.last_line(),
            self@.columns_fit(),
        ensures
            col == columns(line_text(self@.text, line_index as int), self@.tab_width),
    {
        let line = rope_line(&self.text, line_index);
        proof {
            lemma_line_text(self@.text, line_index as int);
            lemma_width_fits_shorter(self@.text.len(), line@.len(), self@.tab_width);
        }
        prefix_columns(line.as_str(), usize::MAX, self.tab_width)
    }

    /// Whether the document can take one character more without any stretch
    /// of it getting wider than `usize` holds.
    pub fn has_room(&self) -> (room: bool)
        ensures
            room == self@.has_room(),
    {
        let chars = self.text.len_chars();
        let widest = if self.tab_width > MAX_GLYPH_WIDTH {
            self.tab_width
        } else {
            MAX_GLYPH_WIDTH
        };
        if chars == usize::MAX {
            proof {
                assert((chars + 1) * widest > usize::MAX) by (nonlinear_arith)
                    requires
                        chars == usize::MAX,
                        widest >= 1,
                ;
            }
            false
        } else {
            fits_width(chars + 1, self.tab_width)
        }
    }

    /// The name of the file, `"-"` while there is none.
    pub fn filename(&self) -> (name: &str)
        ensures
            name@ == self@.filename,
    {
        self.filename.as_str()
    }

    /// The kind of file that was loaded.
    pub fn file_type(&self) -> (file_type: FileType)
        ensures
            file_type == self@.file_type,
    {
        self.file_type
    }

    /// The message for the line below the status bar.
    pub fn help_message(&self) -> (message: &str)
        ensures
            message@ == self@.help_message,
    {
        self.help_message.as_str()
    }

    /// What was typed into the prompt, `None` while the prompt is closed.
    pub fn prompt_text(&self) -> (typed: Option<&str>)
        ensures
            optional_view(typed) == self@.prompt_buffer,
    {
        match &self.prompt_buffer {
            Some(typed) => Some(typed.as_str()),
            None => None,
        }
    }

    /// How many times in a row Quit was pressed on unsaved changes.
    pub fn quit_count(&self) -> (presses: u8)
        ensures
            presses == self@.quit_count,
    {
        self.quit_count
    }

    /// How many columns a tab takes.
    pub fn tab_width(&self) -> (tab_width: usize)
        ensures
            tab_width == self@.tab_width,
    {
        self.tab_width
    }

    /// Sets how many columns a tab takes. The document must still fit: no
    /// stretch of it may get wider than `usize` holds. The viewport stays
    /// where it is; `ensure_cursor_visible` brings the cursor back into view.
    pub fn set_tab_width(&mut self, tab_width: usize)
        requires
            width_fits(old(self)@.text.len(), tab_width as nat),
        ensures
            final(self)@ == old(self)@.set_tab_width(tab_width as nat),
            old(self)@.cursor_in_text() && old(self)@.cache_valid() ==> final(self).wf(),
    {
        self.tab_width = tab_width;
    }

    /// Forgets every cached token.
    fn clear_cache(&mut self)
        ensures
            final(self)@ == (EditorView { cache: Map::empty(), ..old(self)@ }),
    {
        self.cache.clear();
        proof {
            assert(self@.cache =~= Map::empty());
        }
    }

    /// Whether the editor edits the document or asks for a file name.
    pub fn mode(&self) -> (mode: EditorMode)
        ensures
            mode == self@.mode(),
    {
        if self.prompt_buffer.is_some() {
            EditorMode::PromptInput
        } else {
            EditorMode::Normal
        }
    }

    /// Turn a simplified input key into an editor command: the free
    /// function `command_from_key` under the editor's name.
    pub fn command_from_key(key: InputKey, saw_ctrl_x: &mut bool) -> (command: EditorCommand)
        ensures
            command == binding(key, *old(saw_ctrl_x)),
            *final(saw_ctrl_x) == (key == InputKey::Ctrl('x')),
    {
        command_from_key(key, saw_ctrl_x)
    }
}

} // verus!
