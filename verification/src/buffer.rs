//! The text storage: a rope of characters, kept by the crate `ropey`.
//!
//! Nothing here is proved. Each item says what is believed of one function of
//! that crate, in terms of the characters held and of how `lines` divides
//! them.

use crate::lines::{line_count, line_start, line_text};
use ropey::Rope;
use vstd::prelude::*;

verus! {

/// The rope of the crate `ropey`. Nothing inside it is visible here: what
/// it holds is spoken of through `rope_chars`.
#[verifier::external_type_specification]
#[verifier::external_body]
pub struct ExRope(Rope);

/// The characters that a rope holds, in order.
pub uninterp spec fn rope_chars(r: Rope) -> Seq<char>;

/// `Rope::new` makes an empty rope.
pub assume_specification[ Rope::new ]() -> (r: Rope)
    ensures
        rope_chars(r) == Seq::<char>::empty(),
;

/// `Rope::from_str` makes a rope that holds the characters of `text`.
pub assume_specification[ Rope::from_str ](text: &str) -> (r: Rope)
    ensures
        rope_chars(r) == text@,
;

/// `Rope::len_chars` is the number of characters held.
pub assume_specification[ Rope::len_chars ](r: &Rope) -> (n: usize)
    ensures
        n == rope_chars(*r).len(),
;

/// `Rope::len_lines` is the number of line breaks held, plus one. Built
/// without the features `cr_lines` and `unicode_lines`, the crate takes the
/// line feed alone for a line break.
pub assume_specification[ Rope::len_lines ](r: &Rope) -> (n: usize)
    ensures
        n == line_count(rope_chars(*r)),
;

/// `Rope::line_to_char` is the index of the first character of a line, and
/// the number of characters for the index one past the last line. It panics
/// on a larger index.
pub assume_specification[ Rope::line_to_char ](r: &Rope, line_idx: usize) -> (idx: usize)
    requires
        line_idx <= line_count(rope_chars(*r)),
    ensures
        idx == line_start(rope_chars(*r), line_idx as int),
;

/// `Rope::char` is the character at an index, and panics where there is none.
pub assume_specification[ Rope::char ](r: &Rope, char_idx: usize) -> (c: char)
    requires
        char_idx < rope_chars(*r).len(),
    ensures
        c == rope_chars(*r)[char_idx as int],
;

/// `Rope::insert_char` puts a character in at an index, and panics on an
/// index beyond the end.
pub assume_specification[ Rope::insert_char ](r: &mut Rope, char_idx: usize, ch: char)
    requires
        char_idx <= rope_chars(*old(r)).len(),
    ensures
        rope_chars(*final(r)) == rope_chars(*old(r)).insert(char_idx as int, ch),
;

/// `Rope::remove` on the range from `start` up to `end` takes those
/// characters out. It panics where `start > end` or `end` is beyond the end.
#[verifier::external_body]
pub(crate) fn rope_remove(r: &mut Rope, start: usize, end: usize)
    requires
        start <= end <= rope_chars(*old(r)).len(),
    ensures
        rope_chars(*final(r)) == rope_chars(*old(r)).subrange(0, start as int) + rope_chars(
            *old(r),
        ).subrange(end as int, rope_chars(*old(r)).len() as int),
{
    r.remove(start..end)
}

/// `Rope::line` is the line at an index, with the line break that ends it;
/// it panics on an index that is no line's. The slice is handed out as a
/// `String`.
#[verifier::external_body]
pub(crate) fn rope_line(r: &Rope, line_idx: usize) -> (line: String)
    requires
        line_idx < line_count(rope_chars(*r)),
    ensures
        line@ == line_text(rope_chars(*r), line_idx as int),
{
    String::from(r.line(line_idx))
}

/// `String::from` of a rope holds the rope's characters.
#[verifier::external_body]
pub(crate) fn rope_to_string(r: &Rope) -> (text: String)
    ensures
        text@ == rope_chars(*r),
{
    String::from(r)
}

} // verus!
