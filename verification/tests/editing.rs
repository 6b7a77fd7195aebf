use emed_core::{EditorState, ScreenSize};
use ropey::Rope;

/// Replace the entire buffer with `s` and reset cursor and scroll.
fn set_buffer(state: &mut EditorState, s: &str) {
    state.load_document(s, None);
}

/// The whole buffer as a `String`.
fn buffer(state: &EditorState) -> String {
    state.save_to_string()
}

// Small but feature-rich test text:
// - multiple lines
// - last line without trailing '\n' (common case)
const SAMPLE: &str = "ab\ncde\nXYZ";

#[test]
fn last_line_index_is_lines_minus_one_with_four_lines() {
    let mut state = EditorState::new((80, 1));

    // 4 lines of actual text (note: no trailing '\n', so it's exactly 4 lines)
    let rope = Rope::from_str("one\ntwo\nthree\nfour");
    set_buffer(&mut state, "one\ntwo\nthree\nfour");

    let number_of_lines = rope.len_lines();
    let last_index = state.index_of_last_line();

    assert_eq!(number_of_lines, 4);
    assert_eq!(last_index, 3);
    assert_eq!(number_of_lines, last_index + 1);
}

#[test]
fn insert_char_inserts_at_cursor_and_advances_cx() {
    let mut state = EditorState::new((80, 24));
    set_buffer(&mut state, "ab\n");

    state.set_cursor(1, 0); // a|b
    state.insert_char('X');

    assert_eq!(buffer(&state), "aXb\n");
    assert_eq!(state.cursor_pos(), (2, 0));
}

#[test]
fn insert_newline_splits_line_and_moves_cursor_to_next_line_start() {
    let mut state = EditorState::new((80, 24));
    set_buffer(&mut state, "hello");

    state.set_cursor(2, 0); // he|llo
    state.insert_newline();

    assert_eq!(buffer(&state), "he\nllo");
    assert_eq!(state.cursor_pos(), (0, 1));
}

#[test]
fn delete_char_deletes_at_cursor_and_is_noop_at_end_of_buffer() {
    let mut state = EditorState::new((80, 24));
    set_buffer(&mut state, SAMPLE);

    // Delete in the middle of a line: c|de -> ce
    state.set_cursor(1, 1);
    state.delete_char();
    assert_eq!(buffer(&state), "ab\nce\nXYZ");

    // Delete at end-of-buffer should be a no-op (and must not panic).
    state.set_cursor(3, 2); // XYZ| (end of buffer)
    state.delete_char();
    assert_eq!(buffer(&state), "ab\nce\nXYZ");
}

#[test]
fn delete_char_at_end_of_line_joins_lines_when_not_last_line() {
    let mut state = EditorState::new((80, 24));
    set_buffer(&mut state, "ab\ncd\n");

    state.set_cursor(2, 0); // ab|<newline>
    state.delete_char(); // deletes '\n' => joins "cd" onto "ab"

    assert_eq!(buffer(&state), "abcd\n");
    assert_eq!(state.cursor_pos(), (2, 0)); // cursor stays at join point
}

#[test]
fn backspace_in_middle_deletes_previous_char_and_moves_left() {
    let mut state = EditorState::new((80, 24));
    set_buffer(&mut state, "ab\n");

    state.set_cursor(2, 0); // ab|
    state.backspace(); // deletes 'b'

    assert_eq!(buffer(&state), "a\n");
    assert_eq!(state.cursor_pos(), (1, 0));
}

#[test]
fn backspace_at_start_of_line_merges_with_previous_line() {
    let mut state = EditorState::new((80, 24));
    set_buffer(&mut state, "ab\ncd\n");

    state.set_cursor(0, 1); // |cd
    state.backspace(); // merges lines by deleting the newline after "ab"

    assert_eq!(buffer(&state), "abcd\n");
    assert_eq!(state.cursor_pos(), (2, 0)); // end of previous line
}

#[test]
fn cursor_up_and_down_clamp_cx_to_line_length() {
    let mut state = EditorState::new((80, 24));
    set_buffer(&mut state, "longline\nshrt\nlongline\n");

    state.set_cursor(7, 0); // longlin|e (cx=7)
    state.cursor_down(); // onto "shrt" (len 4), cx should clamp to 4

    assert_eq!(state.cursor_pos(), (4, 1));

    state.cursor_down(); // back onto "longline", cx should remain 4
    assert_eq!(state.cursor_pos(), (4, 2));
}

#[test]
fn ensure_cursor_visible_scrolls_down_when_cursor_moves_below_viewport() {
    // screen_size rows=4 => text area height = 2 (rows - 2)
    let mut state = EditorState::new((80, 4));
    set_buffer(&mut state, "0\n1\n2\n3\n4\n");

    state.set_cursor(0, 0);
    state.ensure_cursor_visible();
    assert_eq!(state.row_offset(), 0);

    state.set_cursor(0, 2); // cy=2 should not fit into viewport [0..2)
    state.ensure_cursor_visible();
    assert_eq!(state.row_offset(), 1); // cy + 1 - height = 2 + 1 - 2 = 1

    state.set_cursor(0, 4);
    state.ensure_cursor_visible();
    assert_eq!(state.row_offset(), 3); // 4 + 1 - 2 = 3
}

#[test]
fn ensure_cursor_visible_scrolls_up_when_cursor_moves_above_viewport() {
    let mut state = EditorState::new((80, 4)); // text height = 2
    set_buffer(&mut state, "0\n1\n2\n3\n4\n");

    // Pretend we've scrolled down
    state.set_cursor(0, 4);
    state.ensure_cursor_visible();
    assert_eq!(state.row_offset(), 3);

    // Now move cursor back above the viewport; offset should follow up.
    state.set_cursor(0, 1);
    state.ensure_cursor_visible();
    assert_eq!(state.row_offset(), 1);
}

// ── Further cases ────────────────────────────────────────────────────

#[test]
fn new_editor_is_empty_clean_and_at_the_origin() {
    let size: ScreenSize = (80, 24);
    let state = EditorState::new(size);
    assert_eq!(state.save_to_string(), "");
    assert_eq!(state.cursor_pos(), (0, 0));
    assert_eq!(state.row_offset(), 0);
    assert_eq!(state.col_offset(), 0);
    assert_eq!(state.screen_size(), (80, 24));
    assert_eq!(state.filename, "-");
    assert_eq!(state.file_type.as_str(), "unknown");
    assert_eq!(state.help_message, emed_core::DEFAULT_HELP_MESSAGE);
    assert_eq!(state.help_message, "HELP: C-x C-s to Save, C-x C-c to Quit");
    assert!(state.prompt_buffer.is_none());
    assert!(!state.is_dirty());
    assert_eq!(state.quit_count, 0);
    assert_eq!(state.tab_width, emed_core::TAB_WIDTH);
    assert_eq!(state.tab_width, 4);
    assert_eq!(state.index_of_last_line(), 0);
    assert_eq!(state.char_count(), 0);
    assert_eq!(state.text_area_height(), 22);
    assert_eq!(state.text_area_width(), 80);
}

#[test]
fn text_area_height_reserves_two_rows_and_never_goes_negative() {
    assert_eq!(EditorState::new((80, 3)).text_area_height(), 1);
    assert_eq!(EditorState::new((80, 2)).text_area_height(), 0);
    assert_eq!(EditorState::new((80, 1)).text_area_height(), 0);
    assert_eq!(EditorState::new((80, 0)).text_area_height(), 0);
    assert_eq!(EditorState::new((0, 10)).text_area_width(), 0);
}

#[test]
fn line_accessors_count_characters() {
    let mut state = EditorState::new((80, 24));
    set_buffer(&mut state, "héllo\nwörld\n");
    assert_eq!(state.char_count(), 12);
    assert_eq!(state.index_of_last_line(), 2);
    assert_eq!(state.line_as_string(0), "héllo\n");
    assert_eq!(state.line_as_string(1), "wörld\n");
    assert_eq!(state.line_as_string(2), "");
    assert_eq!(state.current_line(), "héllo\n");
    assert_eq!(state.current_line_len(), 5);
    state.set_cursor(0, 2);
    assert_eq!(state.current_line(), "");
    assert_eq!(state.current_line_len(), 0);
}

#[test]
fn carriage_return_and_other_breaks_do_not_end_a_line() {
    let mut state = EditorState::new((80, 24));
    set_buffer(&mut state, "a\rb\u{000B}c\u{2028}d\r\ne");
    assert_eq!(state.index_of_last_line(), 1);
    assert_eq!(state.line_as_string(0), "a\rb\u{000B}c\u{2028}d\r\n");
    assert_eq!(state.line_as_string(1), "e");
    // The carriage return before the line feed counts as a character of the line.
    assert_eq!(state.current_line_len(), 8);
}

#[test]
fn last_line_without_line_feed_has_its_full_length() {
    let mut state = EditorState::new((80, 24));
    set_buffer(&mut state, SAMPLE);
    state.set_cursor(0, 2);
    assert_eq!(state.current_line_len(), 3);
    state.set_cursor(0, 1);
    assert_eq!(state.current_line_len(), 3);
    state.set_cursor(0, 0);
    assert_eq!(state.current_line_len(), 2);
}

#[test]
fn cursor_left_wraps_to_end_of_previous_line_and_stops_at_origin() {
    let mut state = EditorState::new((80, 24));
    set_buffer(&mut state, "ab\ncd");
    state.set_cursor(0, 1);
    state.cursor_left();
    assert_eq!(state.cursor_pos(), (2, 0));
    state.cursor_left();
    state.cursor_left();
    assert_eq!(state.cursor_pos(), (0, 0));
    state.cursor_left();
    assert_eq!(state.cursor_pos(), (0, 0));
}

#[test]
fn cursor_right_wraps_to_start_of_next_line_and_stops_at_end() {
    let mut state = EditorState::new((80, 24));
    set_buffer(&mut state, "ab\ncd");
    state.set_cursor(2, 0);
    state.cursor_right();
    assert_eq!(state.cursor_pos(), (0, 1));
    state.cursor_right();
    state.cursor_right();
    assert_eq!(state.cursor_pos(), (2, 1));
    state.cursor_right();
    assert_eq!(state.cursor_pos(), (2, 1));
}

#[test]
fn cursor_up_stops_at_first_line() {
    let mut state = EditorState::new((80, 24));
    set_buffer(&mut state, "a\nbcd");
    state.set_cursor(3, 1);
    state.cursor_up();
    assert_eq!(state.cursor_pos(), (1, 0));
    state.cursor_up();
    assert_eq!(state.cursor_pos(), (1, 0));
}

#[test]
fn cursor_down_repeated_stays_on_last_line() {
    let mut state = EditorState::new((80, 24));
    set_buffer(&mut state, "0\n1\n2");
    for _ in 0..10 {
        state.cursor_down();
        assert!(state.cursor_pos().1 <= state.index_of_last_line());
    }
    assert_eq!(state.cursor_pos().1, state.index_of_last_line());
    assert_eq!(state.cursor_pos(), (0, 2));
}

#[test]
fn insert_then_backspace_restores_line_and_cursor() {
    for c in ['x', '\t', 'é', '世'] {
        let mut state = EditorState::new((80, 24));
        set_buffer(&mut state, "ab\ncd\n");
        state.set_cursor(1, 1);
        state.insert_char(c);
        assert_eq!(state.cursor_pos(), (2, 1));
        assert_ne!(state.line_as_string(1), "cd\n");
        state.backspace();
        assert_eq!(state.line_as_string(1), "cd\n");
        assert_eq!(buffer(&state), "ab\ncd\n");
        assert_eq!(state.cursor_pos(), (1, 1));
    }
}

#[test]
fn delete_at_end_of_last_line_with_trailing_line_feed_is_noop() {
    let mut state = EditorState::new((80, 24));
    set_buffer(&mut state, "ab\n");
    state.set_cursor(0, 1); // the empty last line
    state.delete_char();
    assert_eq!(buffer(&state), "ab\n");
    assert!(!state.is_dirty());
}

#[test]
fn backspace_at_origin_changes_nothing() {
    let mut state = EditorState::new((80, 24));
    set_buffer(&mut state, "ab\n");
    state.backspace();
    assert_eq!(buffer(&state), "ab\n");
    assert_eq!(state.cursor_pos(), (0, 0));
    assert!(!state.is_dirty());
}

#[test]
fn every_edit_marks_dirty() {
    let mut state = EditorState::new((80, 24));
    set_buffer(&mut state, "ab\ncd\n");
    state.insert_newline();
    assert!(state.is_dirty());
    state.clear_dirty();
    state.set_cursor(0, 0);
    state.delete_char();
    assert!(state.is_dirty());
    state.clear_dirty();
    state.set_cursor(1, 1);
    state.backspace();
    assert!(state.is_dirty());
    state.clear_dirty();
    state.cursor_right();
    state.cursor_down();
    assert!(!state.is_dirty());
}

#[test]
fn zero_height_viewport_tracks_the_cursor() {
    let mut state = EditorState::new((0, 2));
    set_buffer(&mut state, "abc\ndef\nghi\n");
    state.set_cursor(2, 2);
    state.ensure_cursor_visible();
    assert_eq!(state.row_offset(), 2);
    assert_eq!(state.col_offset(), 2);
    state.set_cursor(1, 0);
    state.ensure_cursor_visible();
    assert_eq!(state.row_offset(), 0);
    assert_eq!(state.col_offset(), 1);
}

#[test]
fn viewport_stays_put_while_the_cursor_is_inside() {
    let mut state = EditorState::new((80, 5)); // height 3
    set_buffer(&mut state, "0\n1\n2\n3\n4\n5\n");
    state.set_cursor(0, 4);
    state.ensure_cursor_visible();
    assert_eq!(state.row_offset(), 2);
    state.set_cursor(0, 3);
    state.ensure_cursor_visible();
    assert_eq!(state.row_offset(), 2);
    state.set_cursor(0, 2);
    state.ensure_cursor_visible();
    assert_eq!(state.row_offset(), 2);
}

#[test]
fn set_screen_size_scrolls_to_keep_the_cursor_visible() {
    let mut state = EditorState::new((80, 24));
    set_buffer(&mut state, "0\n1\n2\n3\n4\n5\n6\n7\n8\n9\n");
    state.set_cursor(0, 9);
    state.ensure_cursor_visible();
    assert_eq!(state.row_offset(), 0);
    state.set_screen_size((80, 5)); // height 3
    assert_eq!(state.screen_size(), (80, 5));
    assert_eq!(state.row_offset(), 7); // 9 + 1 - 3
}

#[test]
fn has_room_while_no_stretch_can_get_wider_than_usize() {
    let mut state = EditorState::new((80, 24));
    assert!(state.has_room());
    // One character of the widest tab still fits; a second one would not.
    state.tab_width = usize::MAX;
    assert!(state.has_room());
    state.tab_width = usize::MAX / 2;
    state.load_document("a", None);
    assert!(state.has_room());
    state.tab_width = usize::MAX / 2 + 1;
    assert!(!state.has_room());
    state.tab_width = usize::MAX;
    assert!(!state.has_room());
}
