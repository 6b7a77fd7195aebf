//! What the operations of the editor keep true: a well-formed state stays
//! well formed, a cursor on its line stays on its line, and after every
//! operation that moves the cursor or the text the viewport shows the cursor.

use crate::file_type::FileType;
use crate::lines::{
    lemma_insert_line_start, lemma_line_chars, lemma_line_len_at_least, lemma_line_start,
    lemma_remove_line_start, line_len,
};
use crate::lines::line_text;
use crate::model::{scroll, shows, EditorView};
use crate::width::{max_display_width, prefix, width_fits};
use vstd::prelude::*;

verus! {

/// The window that `scroll` gives shows the position.
pub proof fn lemma_scroll_shows(pos: int, offset: int, extent: int)
    ensures
        shows(pos, scroll(pos, offset, extent), extent),
        shows(pos, offset, extent) ==> scroll(pos, offset, extent) == offset,
{
}

/// Scrolling changes the two offsets and nothing else, shows the cursor, and
/// changes nothing where the cursor is shown already.
pub proof fn lemma_scrolled(v: EditorView)
    ensures
        v.scrolled().cursor_visible(),
        v.scrolled().wf() == v.wf(),
        v.scrolled().cursor_on_line() == v.cursor_on_line(),
        v.cursor_visible() ==> v.scrolled() == v,
        v.scrolled().scrolled() == v.scrolled(),
{
    let w = v.scrolled();
    assert(w.cursor_col() == v.cursor_col());
    lemma_scroll_shows(v.cy, v.row_offset, v.text_area_height());
    lemma_scroll_shows(v.cursor_col(), v.col_offset, v.text_area_width());
    lemma_scroll_shows(w.cy, w.row_offset, w.text_area_height());
    lemma_scroll_shows(w.cursor_col(), w.col_offset, w.text_area_width());
}

/// Room for one character more is room for what is there.
pub proof fn lemma_room(len: nat, tab_width: nat)
    requires
        width_fits(len + 1, tab_width),
    ensures
        width_fits(len, tab_width),
        len < usize::MAX,
{
    let w = max_display_width(tab_width);
    assert(len * w <= (len + 1) * w) by (nonlinear_arith)
        requires
            w >= 0,
    ;
    assert(len + 1 <= (len + 1) * w) by (nonlinear_arith)
        requires
            w >= 1,
    ;
}

/// What fits still fits when it gets shorter.
pub proof fn lemma_width_fits_shorter(len: nat, shorter: nat, tab_width: nat)
    requires
        width_fits(len, tab_width),
        shorter <= len,
    ensures
        width_fits(shorter, tab_width),
        shorter <= usize::MAX,
{
    let w = max_display_width(tab_width);
    assert(shorter * w <= len * w) by (nonlinear_arith)
        requires
            shorter <= len,
            w >= 0,
    ;
    assert(shorter <= shorter * w) by (nonlinear_arith)
        requires
            w >= 1,
    ;
}

/// Going left keeps the state well formed and the cursor in view.
pub proof fn lemma_cursor_left(v: EditorView)
    requires
        v.wf(),
    ensures
        v.cursor_left().wf(),
        v.cursor_left().cursor_visible(),
        v.cursor_on_line() ==> v.cursor_left().cursor_on_line(),
{
    if v.cx == 0 && v.cy > 0 {
        lemma_line_chars(v.text, v.cy - 1);
        lemma_scrolled(
            EditorView { cy: v.cy - 1, cx: line_len(v.text, v.cy - 1) as int, ..v },
        );
    } else if v.cx > 0 {
        lemma_scrolled(EditorView { cx: v.cx - 1, ..v });
    } else {
        lemma_scrolled(v);
    }
}

/// Going right keeps the state well formed and the cursor in view.
pub proof fn lemma_cursor_right(v: EditorView)
    requires
        v.wf(),
    ensures
        v.cursor_right().wf(),
        v.cursor_right().cursor_visible(),
        v.cursor_on_line() ==> v.cursor_right().cursor_on_line(),
{
    lemma_line_chars(v.text, v.cy);
    if v.cx < v.current_line_len() {
        lemma_scrolled(EditorView { cx: v.cx + 1, ..v });
    } else if v.cy < v.last_line() {
        lemma_line_start(v.text, v.cy + 1);
        lemma_scrolled(EditorView { cy: v.cy + 1, cx: 0, ..v });
    } else {
        lemma_scrolled(v);
    }
}

/// Going up keeps the state well formed and the cursor in view.
pub proof fn lemma_cursor_up(v: EditorView)
    requires
        v.wf(),
    ensures
        v.cursor_up().wf(),
        v.cursor_up().cursor_visible(),
        v.cursor_on_line() ==> v.cursor_up().cursor_on_line(),
{
    if v.cy > 0 {
        lemma_line_chars(v.text, v.cy - 1);
        let len = line_len(v.text, v.cy - 1) as int;
        lemma_scrolled(
            EditorView {
                cy: v.cy - 1,
                cx: if v.cx < len {
                    v.cx
                } else {
                    len
                },
                ..v
            },
        );
    } else {
        lemma_scrolled(v);
    }
}

/// Going down keeps the state well formed and the cursor in view, and
/// never leaves the document.
pub proof fn lemma_cursor_down(v: EditorView)
    requires
        v.wf(),
    ensures
        v.cursor_down().wf(),
        v.cursor_down().cursor_visible(),
        v.cursor_on_line() ==> v.cursor_down().cursor_on_line(),
        v.cursor_down().cy <= v.last_line(),
{
    if v.cy < v.last_line() {
        lemma_line_chars(v.text, v.cy + 1);
        let len = line_len(v.text, v.cy + 1) as int;
        lemma_scrolled(
            EditorView {
                cy: v.cy + 1,
                cx: if v.cx < len {
                    v.cx
                } else {
                    len
                },
                ..v
            },
        );
    } else {
        lemma_scrolled(v);
    }
}

/// Typing a character keeps the state well formed and the cursor in view.
/// The cursor stays on its line unless the character is a line feed.
pub proof fn lemma_insert_char(v: EditorView, c: char)
    requires
        v.wf(),
        v.has_room(),
    ensures
        v.insert_char(c).wf(),
        v.insert_char(c).cursor_visible(),
        v.cursor_on_line() && c != '\n' ==> v.insert_char(c).cursor_on_line(),
{
    let idx = v.cursor_index();
    let text = v.text.insert(idx, c);
    let pre = EditorView { cx: v.cx + 1, ..v.edited(text) };
    lemma_insert_line_start(v.text, idx, c, v.cy);
    lemma_scrolled(pre);
    assert(pre.cache_valid());
    if v.cursor_on_line() && c != '\n' {
        lemma_line_chars(v.text, v.cy);
        lemma_line_len_at_least(text, v.cy, v.cx + 1);
    }
}

/// Splitting a line keeps the state well formed and puts the cursor on the
/// line that this makes.
pub proof fn lemma_insert_newline(v: EditorView)
    requires
        v.wf(),
        v.has_room(),
    ensures
        v.insert_newline().wf(),
        v.insert_newline().cursor_visible(),
        v.insert_newline().cursor_on_line(),
{
    let idx = v.cursor_index();
    let text = v.text.insert(idx, '\n');
    let pre = EditorView { cx: 0, cy: v.cy + 1, ..v.edited(text) };
    lemma_insert_line_start(v.text, idx, '\n', v.cy);
    lemma_line_start(text, v.cy + 1);
    lemma_scrolled(pre);
    assert(pre.cache_valid());
}

/// Deleting keeps the state well formed and a cursor on its line on its
/// line; where something was deleted the cursor is in view.
pub proof fn lemma_delete_char(v: EditorView)
    requires
        v.wf(),
    ensures
        v.delete_char().wf(),
        v.can_delete() ==> v.delete_char().cursor_visible(),
        v.cursor_visible() ==> v.delete_char().cursor_visible(),
        v.cursor_on_line() ==> v.delete_char().cursor_on_line(),
{
    if v.can_delete() {
        let idx = v.cursor_index();
        let text = v.text.remove(idx);
        let pre = v.edited(text);
        lemma_remove_line_start(v.text, idx, v.cy);
        lemma_width_fits_shorter(v.text.len(), text.len(), v.tab_width);
        lemma_scrolled(pre);
        assert(pre.cache_valid());
        if v.cursor_on_line() {
            lemma_line_chars(v.text, v.cy);
            lemma_line_len_at_least(text, v.cy, v.cx);
        }
    }
}

/// Backspace keeps the state well formed, the cursor in view, and a cursor
/// on its line on a line.
pub proof fn lemma_backspace(v: EditorView)
    requires
        v.wf(),
    ensures
        v.backspace().wf(),
        v.backspace().cursor_visible(),
        v.cursor_on_line() ==> v.backspace().cursor_on_line(),
{
    if v.cx > 0 {
        let back = EditorView { cx: v.cx - 1, ..v };
        lemma_delete_char(back);
        lemma_scrolled(back.delete_char());
    } else if v.cy > 0 {
        lemma_line_chars(v.text, v.cy - 1);
        let back = EditorView { cy: v.cy - 1, cx: line_len(v.text, v.cy - 1) as int, ..v };
        lemma_delete_char(back);
        lemma_scrolled(back.delete_char());
    } else {
        lemma_scrolled(v);
    }
}

/// A document that fits gives a well-formed state with the cursor at its
/// start and in view.
pub proof fn lemma_load(v: EditorView, contents: Seq<char>, filename: Option<Seq<char>>, ft: FileType)
    requires
        width_fits(contents.len(), v.tab_width),
    ensures
        v.load(contents, filename, ft).wf(),
        v.load(contents, filename, ft).cursor_visible(),
        v.load(contents, filename, ft).cursor_on_line(),
{
    let w = v.load(contents, filename, ft);
    lemma_line_start(contents, 0);
    assert(prefix(line_text(contents, 0), 0) == Seq::<char>::empty());
}

} // verus!
