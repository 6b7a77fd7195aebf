//! What the screen shows: the tokens and the visible part of each line, the
//! place of the cursor, and the two lines of text below the text area.

use crate::buffer::rope_line;
use crate::editor::{EditorState, ScreenRow};
use crate::lexer::{
    lemma_baseline_tiles, lemma_registered_is_baseline, tiles, Lexer, Token, TokenKind,
};
use crate::lines::{lemma_line_text, line_text};
use crate::render::{kinds_of_columns, lemma_kind_beyond, to_u16, token_kind_at, visible_slice};
use crate::strings::push_decimal;
use vstd::prelude::*;

verus! {

impl EditorState {
    /// The tokens of line `line_index`.
    ///
    /// They come from the cache where the cache has them. Otherwise the
    /// lexer makes them from the line as it now is, and the cache keeps them.
    pub fn tokens_for_line(&mut self, line_index: usize) -> (tokens: &Vec<Token>)
        requires
            old(self).wf(),
            line_index <= old(self)@.last_line(),
        ensures
            tokens@ == old(self)@.line_tokens(line_index as int),
            tiles(tokens@, line_text(old(self)@.text, line_index as int).len() as int),
            final(self)@ == old(self)@.cached(line_index as int, tokens@),
            final(self).wf(),
    {
        while self.cache.len() <= line_index
            invariant
                self@ == old(self)@,
            decreases line_index + 1 - self.cache.len(),
        {
            let ghost before = self@;
            self.cache.push(None);
            proof {
                assert(self@.cache =~= before.cache);
            }
        }
        let ghost before = self@;
        let ghost line_seq = line_text(self@.text, line_index as int);
        let chars = self.text.len_chars();
        proof {
            lemma_line_text(self@.text, line_index as int);
        }
        if self.cache[line_index].is_none() {
            let line = rope_line(&self.text, line_index);
            let (tokens, _) = self.lexer.tokenize_line(line.as_str(), false);
            self.cache[line_index] = Some(tokens);
        } else {
            proof {
                assert(before.cache.dom().contains(line_index as int));
                lemma_registered_is_baseline(self@.lexer, line_seq, false);
                lemma_baseline_tiles(line_seq);
            }
        }
        proof {
            let kept = self.cache@[line_index as int]->0@;
            assert(self@.cache =~= before.cache.insert(line_index as int, kept));
            assert forall|i: int| #[trigger] self@.cache.dom().contains(i) implies 0 <= i
                <= self@.last_line() && self@.cache[i] == self@.lexer.scan(
                line_text(self@.text, i),
                false,
            ).0 by {
                if i != line_index {
                    assert(before.cache.dom().contains(i));
                }
            }
        }
        self.cache[line_index].as_ref().unwrap()
    }

    /// Get the characters of a line that fit within `screen_width` screen
    /// columns of the viewport, tabs expanded to spaces.
    pub fn get_slice(&self, line_index: usize, screen_width: usize) -> (out: String)
        requires
            line_index <= self@.last_line(),
        ensures
            out@ == self@.slice(line_index as int, screen_width as int),
    {
        let line = rope_line(&self.text, line_index);
        visible_slice(line.as_str(), self.col_offset, screen_width, self.tab_width)
    }

    /// What screen row `screen_y` shows in `width` columns: the visible part
    /// of its line with a token kind for each character, or `None` where the
    /// row lies below the document. The line's tokens go to the cache.
    pub fn screen_row(&mut self, screen_y: usize, width: usize) -> (row: Option<ScreenRow>)
        requires
            old(self).wf(),
        ensures
            final(self).wf(),
            ({
                let before = old(self)@;
                let line = before.row_line(screen_y as int);
                if before.row_has_line(screen_y as int) {
                    &&& row is Some
                    &&& row->0.text@ == before.slice(line, width as int)
                    &&& row->0.kinds@ == before.row_kinds(screen_y as int, width as int)
                    &&& final(self)@ == before.cached(line, before.line_tokens(line))
                } else {
                    &&& row is None
                    &&& final(self)@ == before
                }
            }),
    {
        let last = self.index_of_last_line();
        if self.row_offset > last || screen_y > last - self.row_offset {
            return None;
        }
        let line_index = self.row_offset + screen_y;
        let text = self.get_slice(line_index, width);
        let col_offset = self.col_offset;
        let chars = self.text.len_chars();
        proof {
            lemma_line_text(self@.text, line_index as int);
        }
        let ghost line_len = line_text(self@.text, line_index as int).len() as int;
        let tokens = self.tokens_for_line(line_index);
        let mut kinds: Vec<TokenKind> = Vec::new();
        for c in it: text.as_str().chars()
            invariant
                it.seq() == text@,
                tiles(tokens@, line_len),
                line_len <= usize::MAX,
                kinds@ == kinds_of_columns(tokens@, col_offset as int, it.index() as nat),
        {
            let ghost before = kinds@;
            let i = kinds.len();
            let kind = if i <= usize::MAX - col_offset {
                token_kind_at(tokens.as_slice(), col_offset + i)
            } else {
                proof {
                    lemma_kind_beyond(tokens@, 0, line_len, col_offset + i);
                }
                TokenKind::Normal
            };
            kinds.push(kind);
            proof {
                assert(kinds@ =~= kinds_of_columns(
                    tokens@,
                    col_offset as int,
                    (it.index() + 1) as nat,
                ));
            }
        }
        Some(ScreenRow { text, kinds })
    }

    /// Where on screen the cursor is drawn, as (column, row) within the
    /// viewport.
    pub fn cursor_screen_pos(&self) -> (pos: (u16, u16))
        requires
            self.wf(),
        ensures
            (pos.0 as int, pos.1 as int) == self@.screen_cursor(),
    {
        let screen_col = self.cx_to_screen_col(self.cy, self.cx);
        let x = if screen_col >= self.col_offset {
            screen_col - self.col_offset
        } else {
            0
        };
        let y = if self.cy >= self.row_offset {
            self.cy - self.row_offset
        } else {
            0
        };
        (to_u16(x), to_u16(y))
    }

    /// The text of the status bar.
    pub fn status_message(&self) -> (out: String)
        ensures
            out@ == self@.status_message(),
    {
        let mut out = String::from_str(self.file_type.as_str());
        out.append(": ");
        push_decimal(&mut out, self.text.len_lines());
        out.append(" lines, ");
        push_decimal(&mut out, self.text.len_chars());
        out.append(" chars");
        if self.dirty {
            out.append(" (modified) ");
        }
        if self.quit_count > 0 {
            out.append(" (");
            push_decimal(&mut out, self.quit_count as usize);
            out.append(" more quit(s) to discard)");
        }
        out.append("    (col: ");
        push_decimal(&mut out, self.cx);
        out.append(", row: ");
        push_decimal(&mut out, self.cy);
        out.append(")");
        proof {
            assert(out@ =~= self@.status_message());
        }
        out
    }

    /// The text of the line below the status bar.
    pub fn help_line(&self) -> (out: String)
        ensures
            out@ == self@.help_line(),
    {
        match &self.prompt_buffer {
            Some(typed) => {
                let mut out = String::from_str("Save as: ");
                out.append(typed.as_str());
                out
            },
            None => self.help_message.clone(),
        }
    }
}

} // verus!
