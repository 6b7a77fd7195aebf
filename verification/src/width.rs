//! Display width of characters and of stretches of text.

use unicode_width::UnicodeWidthChar;
use vstd::prelude::*;

verus! {

/// The width that the table of the crate `unicode-width` holds for a
/// character from U+00A0 on. Below U+00A0 the crate asks no table; see
/// `table_width`.
pub uninterp spec fn glyph_width(c: char) -> Option<usize>;

/// No character is wider than this in the table.
pub const MAX_GLYPH_WIDTH: usize = 3;

/// How many columns the crate `unicode-width` gives a character: one for a
/// printable ASCII character (U+0020 to U+007E), the table's entry for a
/// character from U+00A0 on, and no width for the control characters, which
/// are the rest.
pub open spec fn table_width(c: char) -> Option<usize> {
    if ' ' <= c && c <= '~' {
        Some(1usize)
    } else if c >= '\u{a0}' {
        glyph_width(c)
    } else {
        None
    }
}

/// `UnicodeWidthChar::width` of a character. The crate answers for the
/// characters below U+00A0 without a table: one column for printable ASCII,
/// no width for control characters. For the others it reads the table. The
/// table's entries are two bits wide, and the one character that it treats
/// apart and makes wider, U+17D8, is three columns wide; so no width is
/// above three.
#[verifier::external_body]
fn char_width(c: char) -> (w: Option<usize>)
    ensures
        w == table_width(c),
        c >= '\u{a0}' ==> w == glyph_width(c),
        w matches Some(n) ==> n <= MAX_GLYPH_WIDTH,
{
    c.width()
}

/// Columns that one character takes on screen, given what the width table
/// says of it: a tab takes `tab_width`, a line feed and a carriage return
/// take none, any other character takes its table width, and none where the
/// table has no width for it.
pub open spec fn width_given(c: char, tab_width: nat, table: Option<usize>) -> nat {
    if c == '\t' {
        tab_width
    } else if c == '\n' || c == '\r' {
        0
    } else {
        match table {
            Some(w) => w as nat,
            None => 0,
        }
    }
}

/// Columns that one character takes on screen: `width_given` under what
/// the crate `unicode-width` says of the character.
pub open spec fn display_width_of(c: char, tab_width: nat) -> nat {
    width_given(c, tab_width, table_width(c))
}

/// The widest that `display_width` makes any character.
pub open spec fn max_display_width(tab_width: nat) -> nat {
    if tab_width > MAX_GLYPH_WIDTH {
        tab_width
    } else {
        MAX_GLYPH_WIDTH as nat
    }
}

/// Columns that the characters of `s` take together.
pub open spec fn columns(s: Seq<char>, tab_width: nat) -> nat
    decreases s.len(),
{
    if s.len() == 0 {
        0
    } else {
        columns(s.drop_last(), tab_width) + display_width_of(s.last(), tab_width)
    }
}

/// The first `n` characters of `s`, all of `s` where it has fewer.
pub open spec fn prefix(s: Seq<char>, n: int) -> Seq<char> {
    if n <= 0 {
        Seq::empty()
    } else if n < s.len() {
        s.take(n)
    } else {
        s
    }
}

/// `width_given`, computed: the screen width of `c` where the width table
/// says `table` of it.
pub fn width_from_table(c: char, tab_width: usize, table: Option<usize>) -> (w: usize)
    ensures
        w == width_given(c, tab_width as nat, table),
{
    if c == '\t' {
        tab_width
    } else if c == '\n' || c == '\r' {
        0
    } else {
        match table {
            Some(w) => w,
            None => 0,
        }
    }
}

/// Screen width of a single character.
pub fn display_width(c: char, tab_width: usize) -> (w: usize)
    ensures
        w == display_width_of(c, tab_width as nat),
        w <= max_display_width(tab_width as nat),
{
    if c == '\t' || c == '\n' || c == '\r' {
        width_from_table(c, tab_width, None)
    } else {
        width_from_table(c, tab_width, char_width(c))
    }
}

/// The columns of two stretches add up.
pub proof fn lemma_columns_concat(a: Seq<char>, b: Seq<char>, tab_width: nat)
    ensures
        columns(a + b, tab_width) == columns(a, tab_width) + columns(b, tab_width),
    decreases b.len(),
{
    if b.len() == 0 {
        assert(a + b == a);
    } else {
        assert((a + b).drop_last() == a + b.drop_last());
        assert((a + b).last() == b.last());
        lemma_columns_concat(a, b.drop_last(), tab_width);
    }
}

/// One character more adds its width.
pub proof fn lemma_columns_step(s: Seq<char>, k: int, tab_width: nat)
    requires
        0 <= k < s.len(),
    ensures
        columns(s.take(k + 1), tab_width) == columns(s.take(k), tab_width) + display_width_of(
            s[k],
            tab_width,
        ),
{
    assert(s.take(k + 1).drop_last() == s.take(k));
}

/// A longer prefix takes no fewer columns.
pub proof fn lemma_columns_monotone(s: Seq<char>, j: int, k: int, tab_width: nat)
    requires
        0 <= j <= k <= s.len(),
    ensures
        columns(s.take(j), tab_width) <= columns(s.take(k), tab_width) <= columns(s, tab_width),
{
    assert(s.take(k) == s.take(j) + s.subrange(j, k));
    lemma_columns_concat(s.take(j), s.subrange(j, k), tab_width);
    assert(s == s.take(k) + s.skip(k));
    lemma_columns_concat(s.take(k), s.skip(k), tab_width);
}

/// No stretch of `len` characters can take more columns than `usize` holds.
pub open spec fn width_fits(len: nat, tab_width: nat) -> bool {
    len * max_display_width(tab_width) <= usize::MAX
}

/// Whether `len` characters fit: `width_fits`, computed.
pub fn fits_width(len: usize, tab_width: usize) -> (fits: bool)
    ensures
        fits == width_fits(len as nat, tab_width as nat),
{
    let widest = if tab_width > MAX_GLYPH_WIDTH {
        tab_width
    } else {
        MAX_GLYPH_WIDTH
    };
    proof {
        assert(len * widest <= usize::MAX <==> len <= usize::MAX / widest) by (nonlinear_arith)
            requires
                widest >= 1,
        ;
    }
    len <= usize::MAX / widest
}

/// Columns that the first `n` characters of `line` take, those of the whole
/// line where it has fewer.
pub fn prefix_columns(line: &str, n: usize, tab_width: usize) -> (col: usize)
    requires
        width_fits(line@.len(), tab_width as nat),
    ensures
        col == columns(prefix(line@, n as int), tab_width as nat),
{
    let mut col: usize = 0;
    let mut k: usize = 0;
    let ghost widest = max_display_width(tab_width as nat);
    for c in it: line.chars()
        invariant
            it.seq() == line@,
            widest == max_display_width(tab_width as nat),
            line@.len() * widest <= usize::MAX,
            k <= n,
            k <= it.index(),
            k < n ==> k == it.index(),
            col == columns(line@.take(k as int), tab_width as nat),
            col <= k * widest,
    {
        if k < n {
            let w = display_width(c, tab_width);
            proof {
                lemma_columns_step(line@, k as int, tab_width as nat);
                assert((k + 1) * widest <= line@.len() * widest) by (nonlinear_arith)
                    requires
                        k + 1 <= line@.len(),
                        widest >= 0,
                ;
                assert((k + 1) * widest == k * widest + widest) by (nonlinear_arith);
            }
            col += w;
            k += 1;
        }
    }
    proof {
        if n < line@.len() {
            assert(k == n);
        } else {
            assert(k == line@.len());
            assert(line@.take(k as int) == line@);
        }
        if n == 0 {
            assert(line@.take(0) == Seq::<char>::empty());
        }
    }
    col
}

} // verus!
