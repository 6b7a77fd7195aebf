//! Moving the cursor, and the viewport after it.

use crate::editor::{EditorState, ScreenSize};
use crate::invariants::{
    lemma_cursor_down, lemma_cursor_left, lemma_cursor_right, lemma_cursor_up, lemma_scrolled,
};
use crate::lines::lemma_line_chars;
use crate::model::scroll;
use vstd::prelude::*;

verus! {

/// `scroll`, computed.
fn scroll_to(pos: usize, offset: usize, extent: usize) -> (start: usize)
    ensures
        start == scroll(pos as int, offset as int, extent as int),
{
    if extent == 0 {
        pos
    } else if pos < offset {
        pos
    } else if pos - offset >= extent {
        pos - (extent - 1)
    } else {
        offset
    }
}

impl EditorState {
    /// Adjust the two offsets so that the cursor is visible.
    ///
    /// Vertically the cursor's line, horizontally the cursor's display column
    /// is brought into the text area; an offset moves only as far as it must.
    pub fn ensure_cursor_visible(&mut self)
        requires
            old(self).wf(),
        ensures
            final(self)@ == old(self)@.scrolled(),
            final(self).wf(),
            final(self)@.cursor_visible(),
            old(self)@.cursor_on_line() ==> final(self)@.cursor_on_line(),
            old(self)@.cursor_below() ==> final(self)@.row_offset == old(self)@.cy + 1 - old(
                self,
            )@.text_area_height(),
            old(self)@.cursor_above() ==> final(self)@.row_offset == old(self)@.cy,
    {
        proof {
            lemma_scrolled(self@);
        }
        let height = self.text_area_height();
        self.row_offset = scroll_to(self.cy, self.row_offset, height);
        let width = self.text_area_width();
        let screen_col = self.cx_to_screen_col(self.cy, self.cx);
        self.col_offset = scroll_to(screen_col, self.col_offset, width);
    }

    /// Takes the new size of the terminal and scrolls to keep the cursor
    /// visible.
    pub fn set_screen_size(&mut self, screen_size: ScreenSize)
        requires
            old(self).wf(),
        ensures
            final(self)@ == old(self)@.set_screen_size(screen_size.0 as int, screen_size.1 as int),
            final(self).wf(),
            final(self)@.cursor_visible(),
            old(self)@.cursor_on_line() ==> final(self)@.cursor_on_line(),
    {
        self.screen_size = screen_size;
        self.ensure_cursor_visible();
    }

    /// One character back; from the start of a line to the end of the line
    /// before, if there is one.
    pub fn cursor_left(&mut self)
        requires
            old(self).wf(),
        ensures
            final(self)@ == old(self)@.cursor_left(),
            final(self).wf(),
            final(self)@.cursor_visible(),
            old(self)@.cursor_on_line() ==> final(self)@.cursor_on_line(),
    {
        proof {
            lemma_cursor_left(self@);
        }
        if self.cx > 0 {
            self.cx -= 1;
        } else if self.cy > 0 {
            self.cy -= 1;
            self.cx = self.current_line_len();
        }
        self.ensure_cursor_visible();
    }

    /// One character on; from the end of a line to the start of the next, if
    /// there is one.
    pub fn cursor_right(&mut self)
        requires
            old(self).wf(),
        ensures
            final(self)@ == old(self)@.cursor_right(),
            final(self).wf(),
            final(self)@.cursor_visible(),
            old(self)@.cursor_on_line() ==> final(self)@.cursor_on_line(),
    {
        proof {
            lemma_cursor_right(self@);
            lemma_line_chars(self@.text, self@.cy);
        }
        let len = self.current_line_len();
        let chars = self.text.len_chars();
        if self.cx < len {
            self.cx += 1;
        } else if self.cy < self.index_of_last_line() {
            self.cy += 1;
            self.cx = 0;
        }
        self.ensure_cursor_visible();
    }

    /// One line up, the column no further than that line's end. Short lines
    /// are not made longer.
    pub fn cursor_up(&mut self)
        requires
            old(self).wf(),
        ensures
            final(self)@ == old(self)@.cursor_up(),
            final(self).wf(),
            final(self)@.cursor_visible(),
            old(self)@.cursor_on_line() ==> final(self)@.cursor_on_line(),
    {
        proof {
            lemma_cursor_up(self@);
        }
        if self.cy > 0 {
            self.cy -= 1;
            let len = self.current_line_len();
            if len < self.cx {
                self.cx = len;
            }
        }
        self.ensure_cursor_visible();
    }

    /// One line down, the column no further than that line's end. On the
    /// last line the cursor stays where it is.
    pub fn cursor_down(&mut self)
        requires
            old(self).wf(),
        ensures
            final(self)@ == old(self)@.cursor_down(),
            final(self).wf(),
            final(self)@.cursor_visible(),
            old(self)@.cursor_on_line() ==> final(self)@.cursor_on_line(),
    {
        proof {
            lemma_cursor_down(self@);
        }
        if self.cy < self.index_of_last_line() {
            self.cy += 1;
            let len = self.current_line_len();
            if len < self.cx {
                self.cx = len;
            }
        }
        self.ensure_cursor_visible();
    }
}

} // verus!
