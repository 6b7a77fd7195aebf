//! Laws that relate the editor's operations to one another.

use crate::commands::{EffectView, InputKey};
use crate::invariants::{lemma_cursor_down, lemma_insert_char, lemma_scrolled};
use crate::lexer::{
    baseline_tokens, in_number, kind_at, lemma_registered_is_baseline, lemma_run_end_bounds,
    run_end, tokens_from, Lexer, Token,
};
use crate::lines::{
    count_newlines, lemma_insert_line_start, lemma_line_chars, lemma_line_len_at_least,
    lemma_line_start, lemma_line_start_unique, lemma_line_text, lemma_remove_line_start, line_end,
    line_len, line_start, line_text, without_final_newline,
};
use crate::model::{empty_name_help, EditorView};
use crate::strings::{is_white_space, lemma_trimmed_blank};
use crate::render::kind_of_column;
use vstd::prelude::*;

verus! {

/// Typing a character and then deleting backwards gives back the document
/// and the cursor: the character typed is the one that backspace takes out.
///
/// This is said of the view, where no number overflows, and so of every
/// well-formed state. `insert_char` itself can be called only on a document
/// that has room for a character more.
pub proof fn lemma_insert_then_backspace(v: EditorView, c: char)
    requires
        v.wf(),
    ensures
        v.insert_char(c).backspace().text == v.text,
        v.insert_char(c).backspace().cx == v.cx,
        v.insert_char(c).backspace().cy == v.cy,
        line_text(v.insert_char(c).backspace().text, v.cy) == line_text(v.text, v.cy),
{
    let idx = v.cursor_index();
    let text = v.text.insert(idx, c);
    let typed = v.insert_char(c);
    let back = EditorView { cx: typed.cx - 1, ..typed };
    lemma_insert_line_start(v.text, idx, c, v.cy);
    assert(back.cursor_index() == idx);
    if c != '\n' {
        lemma_line_chars(v.text, v.cy);
        if v.cx <= line_len(v.text, v.cy) {
            // The line grows by the character typed, so the cursor is not at its end.
            lemma_line_len_at_least(text, v.cy, v.cx + 1);
        } else {
            // The cursor stands beyond its line, and the line stays as it is.
            lemma_insert_line_start(v.text, idx, c, v.cy + 1);
            assert(line_text(text, v.cy) =~= line_text(v.text, v.cy));
        }
    }
    assert(back.can_delete());
    assert(text.remove(idx) =~= v.text);
}

/// Taking out the line feed that ends line `i` joins the next line onto it:
/// the line after is then line `i` without its line feed, followed by what
/// was line `i + 1`, and there is one line fewer.
pub proof fn lemma_join_lines(s: Seq<char>, i: int)
    requires
        0 <= i < count_newlines(s),
    ensures
        0 <= line_end(s, i) < s.len(),
        s[line_end(s, i)] == '\n',
        count_newlines(s.remove(line_end(s, i))) == count_newlines(s) - 1,
        line_start(s.remove(line_end(s, i)), i) == line_start(s, i),
        line_text(s.remove(line_end(s, i)), i) == without_final_newline(line_text(s, i))
            + line_text(s, i + 1),
{
    let idx = line_end(s, i);
    let t = s.remove(idx);
    let p = line_start(s, i) as int;
    let q = line_start(s, i + 2) as int;
    lemma_line_chars(s, i);
    lemma_line_text(s, i);
    lemma_line_text(s, i + 1);
    lemma_remove_line_start(s, idx, i);
    // Line i + 1 of the joined text starts where line i + 2 started, one
    // character earlier.
    if i + 1 < count_newlines(s) {
        lemma_line_start(s, i + 2);
        let head = s.take(q);
        assert(t.take(q - 1) =~= head.remove(idx));
        lemma_line_start(head, 0);
        lemma_remove_line_start(head, idx, 0);
        assert(t[q - 2] == s[q - 1]);
        lemma_line_start_unique(t, i + 1, q - 1);
    } else {
        lemma_line_start(t, i + 1);
    }
    assert(line_text(t, i) =~= without_final_newline(line_text(s, i)) + line_text(s, i + 1));
}

/// Deleting at the end of a line that is not the last takes out the line
/// feed there: the next line is joined onto the cursor's line, and the
/// cursor stays where it is.
pub proof fn lemma_delete_joins(v: EditorView)
    requires
        v.wf(),
        v.cx == v.current_line_len(),
        v.cy < v.last_line(),
    ensures
        v.text[v.cursor_index()] == '\n',
        v.delete_char().text == v.text.remove(v.cursor_index()),
        v.delete_char().cx == v.cx,
        v.delete_char().cy == v.cy,
        v.delete_char().last_line() == v.last_line() - 1,
        line_text(v.delete_char().text, v.cy) == without_final_newline(line_text(v.text, v.cy))
            + line_text(v.text, v.cy + 1),
{
    lemma_join_lines(v.text, v.cy);
}

/// Backspace at the start of a line that is not the first takes out the
/// line feed before it: the line is merged into the one above, and the
/// cursor stands where the two meet.
pub proof fn lemma_backspace_merges(v: EditorView)
    requires
        v.wf(),
        v.cx == 0,
        v.cy > 0,
    ensures
        v.text[line_end(v.text, v.cy - 1)] == '\n',
        v.backspace().text == v.text.remove(line_end(v.text, v.cy - 1)),
        v.backspace().cx == line_len(v.text, v.cy - 1),
        v.backspace().cy == v.cy - 1,
        v.backspace().last_line() == v.last_line() - 1,
        line_text(v.backspace().text, v.cy - 1) == without_final_newline(
            line_text(v.text, v.cy - 1),
        ) + line_text(v.text, v.cy),
{
    let back = EditorView { cy: v.cy - 1, cx: line_len(v.text, v.cy - 1) as int, ..v };
    lemma_line_chars(v.text, v.cy - 1);
    lemma_join_lines(v.text, v.cy - 1);
    assert(back.wf());
    lemma_delete_joins(back);
}

/// `cursor_down` taken `n` times.
pub open spec fn cursor_down_times(v: EditorView, n: nat) -> EditorView
    decreases n,
{
    if n == 0 {
        v
    } else {
        cursor_down_times(v, (n - 1) as nat).cursor_down()
    }
}

/// Going down from the last line stays on the last line.
pub proof fn lemma_cursor_down_at_last_line(v: EditorView)
    requires
        v.wf(),
        v.cy == v.last_line(),
    ensures
        v.cursor_down().cy == v.last_line(),
        v.cursor_down().cx == v.cx,
{
}

/// Going down `n` times goes `n` lines down and no further than the last
/// line: going down more often than there are lines below leaves the cursor
/// on the last line.
pub proof fn lemma_cursor_down_clamps(v: EditorView, n: nat)
    requires
        v.wf(),
    ensures
        cursor_down_times(v, n).wf(),
        cursor_down_times(v, n).text == v.text,
        cursor_down_times(v, n).cy == if v.cy + n <= v.last_line() {
            v.cy + n
        } else {
            v.last_line() as int
        },
    decreases n,
{
    if n > 0 {
        lemma_cursor_down_clamps(v, (n - 1) as nat);
        lemma_cursor_down(cursor_down_times(v, (n - 1) as nat));
    }
}

/// The viewport follows the cursor by the least that shows it. A cursor
/// below the text area becomes its last row: the first visible line is then
/// the cursor's line plus one minus the height. A cursor above the text area
/// becomes its first row. A cursor inside leaves the viewport alone. The
/// same holds of display columns and the width.
pub proof fn lemma_viewport_formula(v: EditorView)
    ensures
        v.cursor_below() ==> v.scrolled().row_offset == v.cy + 1 - v.text_area_height(),
        v.cursor_above() ==> v.scrolled().row_offset == v.cy,
        v.text_area_height() > 0 && v.row_offset <= v.cy < v.row_offset + v.text_area_height()
            ==> v.scrolled().row_offset == v.row_offset,
        v.text_area_height() == 0 ==> v.scrolled().row_offset == v.cy,
        v.text_area_width() > 0 && v.cursor_col() >= v.col_offset + v.text_area_width()
            ==> v.scrolled().col_offset == v.cursor_col() + 1 - v.text_area_width(),
        v.cursor_col() < v.col_offset ==> v.scrolled().col_offset == v.cursor_col(),
        v.text_area_width() > 0 && v.col_offset <= v.cursor_col() < v.col_offset
            + v.text_area_width() ==> v.scrolled().col_offset == v.col_offset,
        v.text_area_width() == 0 ==> v.scrolled().col_offset == v.cursor_col(),
        v.scrolled().cursor_visible(),
{
    lemma_scrolled(v);
}

/// Every character of a run is classified as the first one is.
pub proof fn lemma_run_uniform(s: Seq<char>, i: int, k: int)
    requires
        0 <= i <= k < run_end(s, i),
        i < s.len(),
    ensures
        in_number(s, k) == in_number(s, i),
    decreases s.len() - i,
{
    if i < k {
        lemma_run_uniform(s, i + 1, k);
    }
}

/// The baseline tokens give every character the kind of its class: a
/// character lies in a Number token exactly if it belongs to a number, and in
/// a Normal token otherwise. So the digits of an identifier are never part of
/// a Number token.
pub proof fn lemma_tokens_classify(s: Seq<char>, i: int, p: int)
    requires
        0 <= i <= p < s.len() <= usize::MAX,
    ensures
        kind_of_column(tokens_from(s, i), p) == kind_at(s, p),
        i == 0 ==> kind_of_column(baseline_tokens(s), p) == kind_at(s, p),
    decreases s.len() - i,
{
    lemma_run_end_bounds(s, i);
    let e = run_end(s, i);
    let all = tokens_from(s, i);
    assert(all[0].start == i && all[0].len == e - i);
    if p < e {
        lemma_run_uniform(s, i, p);
    } else {
        assert(all.drop_first() =~= tokens_from(s, e));
        lemma_tokens_classify(s, e, p);
    }
}

/// Enter on a prompt that holds nothing but white space cancels the save:
/// the prompt closes, the help line says so, and nothing is written.
pub proof fn lemma_blank_name_cancels(v: EditorView, typed: Seq<char>)
    requires
        v.prompt_buffer == Some(typed),
        forall|i: int| 0 <= i < typed.len() ==> is_white_space(#[trigger] typed[i]),
    ensures
        v.prompt_key(InputKey::Enter) == (
            EditorView { prompt_buffer: None, help_message: empty_name_help(), ..v },
            EffectView::Redraw,
        ),
{
    lemma_trimmed_blank(typed);
}

/// No edit leaves a token in the cache.
pub proof fn lemma_edits_empty_cache(v: EditorView, c: char)
    ensures
        v.insert_char(c).cache == Map::<int, Seq<Token>>::empty(),
        v.insert_newline().cache == Map::<int, Seq<Token>>::empty(),
        v.can_delete() ==> v.delete_char().cache == Map::<int, Seq<Token>>::empty(),
        v.backspace().text != v.text ==> v.backspace().cache == Map::<int, Seq<Token>>::empty(),
{
}

/// Tokens are never stale. Let the tokens of line `i` be in the cache, and
/// let a character be typed anywhere. Then the cache holds nothing for any
/// line, so the tokens of line `j` are made anew, and they are the baseline
/// tokens of line `j` as it is after the edit.
///
/// This is said of the view, where no number overflows. `insert_char` itself
/// can be called only on a document that has room for a character more; on
/// such a document the state after the edit is well formed again.
pub proof fn lemma_tokens_follow_edits(v: EditorView, i: int, c: char, j: int)
    requires
        v.wf(),
        0 <= i <= v.last_line(),
    ensures
        ({
            let primed = v.cached(i, v.line_tokens(i));
            let after = primed.insert_char(c);
            &&& primed.wf()
            &&& primed.has_room() == v.has_room()
            &&& v.has_room() ==> after.wf()
            &&& !after.cache.dom().contains(j)
            &&& after.line_tokens(j) == baseline_tokens(line_text(after.text, j))
            &&& after.cached(j, after.line_tokens(j)).cache[j] == baseline_tokens(
                line_text(after.text, j),
            )
        }),
{
    let primed = v.cached(i, v.line_tokens(i));
    assert(primed.cache_valid()) by {
        assert forall|k: int| #[trigger] primed.cache.dom().contains(k) implies 0 <= k
            <= primed.last_line() && primed.cache[k] == primed.lexer.scan(
            line_text(primed.text, k),
            false,
        ).0 by {
            if k != i {
                assert(v.cache.dom().contains(k));
            }
        }
    }
    if v.has_room() {
        lemma_insert_char(primed, c);
    }
    let after = primed.insert_char(c);
    lemma_registered_is_baseline(after.lexer, line_text(after.text, j), false);
}

} // verus!
