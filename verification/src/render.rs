//! What of a line is shown on screen: the stretch that fits the viewport, with
//! tabs written out as spaces, and the token kind of each column.

use crate::lexer::{covers, joined, Token, TokenKind};
use crate::strings::{chars_of, push_chars, push_spaces, spaces};
use crate::width::{columns, display_width, lemma_columns_monotone, lemma_columns_step, prefix};
use vstd::prelude::*;

verus! {

/// `s` without its line feeds.
pub open spec fn without_newlines(s: Seq<char>) -> Seq<char>
    decreases s.len(),
{
    if s.len() == 0 {
        Seq::empty()
    } else if s.last() == '\n' {
        without_newlines(s.drop_last())
    } else {
        without_newlines(s.drop_last()).push(s.last())
    }
}

/// How many characters of `s` fit into `limit` columns: the length of the
/// longest prefix that takes no more than `limit`. A character that would fit
/// only in part is left out, and so is everything after it.
pub open spec fn fit_count(s: Seq<char>, tab_width: nat, limit: int) -> nat
    decreases s.len(),
{
    if s.len() == 0 || columns(s, tab_width) <= limit {
        s.len()
    } else {
        fit_count(s.drop_last(), tab_width, limit)
    }
}

/// A character as it is written to the screen: a tab as `tab_width` spaces,
/// any other character as itself.
pub open spec fn expand_char(c: char, tab_width: nat) -> Seq<char> {
    if c == '\t' {
        spaces(tab_width)
    } else {
        seq![c]
    }
}

/// `s` with every tab written out as `tab_width` spaces.
pub open spec fn expand_tabs(s: Seq<char>, tab_width: nat) -> Seq<char>
    decreases s.len(),
{
    if s.len() == 0 {
        Seq::empty()
    } else {
        expand_tabs(s.drop_last(), tab_width) + expand_char(s.last(), tab_width)
    }
}

/// The characters of `s` that fit into `max_cols` columns, tabs written out.
pub open spec fn rendered(s: Seq<char>, tab_width: nat, max_cols: int) -> Seq<char> {
    expand_tabs(s.take(fit_count(s, tab_width, max_cols) as int), tab_width)
}

/// What is shown of a line in a viewport that starts at display column
/// `col_offset` and is `max_cols` columns wide: line feeds are left out, the
/// characters that lie before `col_offset` are skipped, and of the rest as
/// many are written as fit.
pub open spec fn visible_part(line: Seq<char>, tab_width: nat, col_offset: int, max_cols: int) -> Seq<
    char,
> {
    let shown = without_newlines(line);
    rendered(shown.skip(fit_count(shown, tab_width, col_offset) as int), tab_width, max_cols)
}

/// `s` cut or padded with spaces to `width` characters.
pub open spec fn fitted(s: Seq<char>, width: nat) -> Seq<char> {
    prefix(s, width as int) + spaces((width - prefix(s, width as int).len()) as nat)
}

/// The kind of the first token that holds column `col`, `Normal` where none
/// does.
pub open spec fn kind_of_column(tokens: Seq<Token>, col: int) -> TokenKind
    decreases tokens.len(),
{
    if tokens.len() == 0 {
        TokenKind::Normal
    } else if tokens[0].start <= col < tokens[0].start + tokens[0].len {
        tokens[0].kind
    } else {
        kind_of_column(tokens.drop_first(), col)
    }
}

/// The count that `fit_count` gives is the one prefix length that fits while
/// one character more does not.
pub proof fn lemma_fit_count(s: Seq<char>, tab_width: nat, limit: int, k: int)
    requires
        0 <= k <= s.len(),
        columns(s.take(k), tab_width) <= limit,
        k == s.len() || columns(s.take(k + 1), tab_width) > limit,
    ensures
        fit_count(s, tab_width, limit) == k,
    decreases s.len() - k,
{
    if k == s.len() {
        assert(s.take(k) == s);
    } else {
        lemma_columns_monotone(s, k + 1, s.len() as int, tab_width);
        let t = s.drop_last();
        assert(t.take(k) == s.take(k));
        if k + 1 < s.len() {
            assert(t.take(k + 1) == s.take(k + 1));
        }
        lemma_fit_count(t, tab_width, limit, k);
    }
}

/// One character more adds what it is written as.
pub proof fn lemma_expand_tabs_push(s: Seq<char>, c: char, tab_width: nat)
    ensures
        expand_tabs(s.push(c), tab_width) == expand_tabs(s, tab_width) + expand_char(c, tab_width),
{
    assert(s.push(c).drop_last() == s);
}

/// The characters of `line` but its line feeds.
pub fn shown_chars(line: &str) -> (shown: Vec<char>)
    ensures
        shown@ == without_newlines(line@),
{
    let mut shown: Vec<char> = Vec::new();
    for c in it: line.chars()
        invariant
            it.seq() == line@,
            shown@ == without_newlines(line@.take(it.index())),
    {
        proof {
            assert(line@.take(it.index() + 1).drop_last() == line@.take(it.index()));
        }
        if c != '\n' {
            shown.push(c);
        }
    }
    proof {
        assert(line@.take(line@.len() as int) == line@);
    }
    shown
}

/// How many of the characters from `from` on fit into `limit` columns.
pub fn count_fitting(chars: &[char], from: usize, limit: usize, tab_width: usize) -> (n: usize)
    requires
        from <= chars@.len(),
    ensures
        n == fit_count(chars@.skip(from as int), tab_width as nat, limit as int),
        from + n <= chars@.len(),
{
    let ghost rest = chars@.skip(from as int);
    let mut used: usize = 0;
    let mut i: usize = from;
    let mut full = false;
    while i < chars.len() && !full
        invariant
            rest == chars@.skip(from as int),
            from <= i <= chars@.len(),
            used == columns(rest.take(i - from), tab_width as nat),
            used <= limit,
            full ==> i < chars@.len() && columns(rest.take(i - from + 1), tab_width as nat) > limit,
        decreases chars@.len() - i + if full { 0int } else { 1int },
    {
        let w = display_width(chars[i], tab_width);
        proof {
            lemma_columns_step(rest, i - from, tab_width as nat);
        }
        if w > limit - used {
            full = true;
        } else {
            used += w;
            i += 1;
        }
    }
    proof {
        lemma_fit_count(rest, tab_width as nat, limit as int, i - from);
    }
    i - from
}

/// Collect the characters of `chars` that fit within `max_cols` screen
/// columns, tabs expanded to spaces.
pub fn render_to_width(chars: &[char], max_cols: usize, tab_width: usize) -> (out: String)
    ensures
        out@ == rendered(chars@, tab_width as nat, max_cols as int),
{
    let n = count_fitting(chars, 0, max_cols, tab_width);
    assert(chars@.skip(0) == chars@);
    let mut out = String::new();
    let mut i: usize = 0;
    while i < n
        invariant
            i <= n <= chars@.len(),
            out@ == expand_tabs(chars@.take(i as int), tab_width as nat),
        decreases n - i,
    {
        let c = chars[i];
        proof {
            assert(chars@.take(i + 1) == chars@.take(i as int).push(c));
            lemma_expand_tabs_push(chars@.take(i as int), c, tab_width as nat);
        }
        if c == '\t' {
            push_spaces(&mut out, tab_width);
        } else {
            let ghost before = out@;
            out.push(c);
            assert(out@ == before + seq![c]);
        }
        i += 1;
    }
    out
}

/// The part of `line` that a viewport shows which starts at display column
/// `col_offset` and is `max_cols` columns wide.
pub fn visible_slice(line: &str, col_offset: usize, max_cols: usize, tab_width: usize) -> (out:
    String)
    ensures
        out@ == visible_part(line@, tab_width as nat, col_offset as int, max_cols as int),
{
    let shown = shown_chars(line);
    let skipped = count_fitting(shown.as_slice(), 0, col_offset, tab_width);
    assert(shown@.skip(0) == shown@);
    let rest = slice_from(shown.as_slice(), skipped);
    render_to_width(rest, max_cols, tab_width)
}

/// The elements of `s` from index `from` on.
fn slice_from(s: &[char], from: usize) -> (rest: &[char])
    requires
        from <= s@.len(),
    ensures
        rest@ == s@.skip(from as int),
{
    vstd::slice::slice_subrange(s, from, s.len())
}

/// `s` cut or padded with spaces to `width` characters.
pub fn fit_to_width(s: &str, width: usize) -> (out: String)
    ensures
        out@ == fitted(s@, width as nat),
{
    let chars = chars_of(s);
    let kept = if chars.len() < width {
        chars.len()
    } else {
        width
    };
    let mut out = String::new();
    let head = vstd::slice::slice_subrange(chars.as_slice(), 0, kept);
    push_chars(&mut out, head);
    proof {
        assert(head@ == prefix(s@, width as int));
        assert(Seq::<char>::empty() + head@ == head@);
    }
    push_spaces(&mut out, width - kept);
    out
}

/// The kind of the first token that holds column `col`.
pub fn token_kind_at(tokens: &[Token], col: usize) -> (kind: TokenKind)
    ensures
        kind == kind_of_column(tokens@, col as int),
{
    let mut i: usize = 0;
    assert(tokens@.skip(0) == tokens@);
    while i < tokens.len()
        invariant
            i <= tokens@.len(),
            kind_of_column(tokens@, col as int) == kind_of_column(tokens@.skip(i as int), col as int),
        decreases tokens@.len() - i,
    {
        let t = &tokens[i];
        proof {
            assert(tokens@.skip(i as int)[0] == tokens@[i as int]);
            assert(tokens@.skip(i as int).drop_first() == tokens@.skip(i + 1));
        }
        if t.start <= col && col - t.start < t.len {
            return t.kind;
        }
        i += 1;
    }
    assert(tokens@.skip(i as int).len() == 0);
    TokenKind::Normal
}

/// `n` cut to the range of `u16`.
pub open spec fn clip_u16(n: int) -> int {
    if n < 0 {
        0
    } else if n <= u16::MAX {
        n
    } else {
        u16::MAX as int
    }
}

/// The token kinds of the `n` columns from `first` on.
pub open spec fn kinds_of_columns(tokens: Seq<Token>, first: int, n: nat) -> Seq<TokenKind> {
    Seq::new(n, |i: int| kind_of_column(tokens, first + i))
}

/// Tokens that lie end to end up to `to` hold no column from `to` on.
pub proof fn lemma_kind_beyond(tokens: Seq<Token>, from: int, to: int, col: int)
    requires
        covers(tokens, from, to),
        from <= to <= col,
    ensures
        kind_of_column(tokens, col) == TokenKind::Normal,
    decreases tokens.len(),
{
    if tokens.len() > 0 {
        let rest = tokens.drop_first();
        let next = tokens[0].start + tokens[0].len;
        if rest.len() == 0 {
        } else {
            assert(joined(tokens, 0));
            assert(rest[0] == tokens[1]);
            assert(rest.last() == tokens.last());
            assert forall|k: int| 0 <= k < rest.len() - 1 implies #[trigger] joined(rest, k) by {
                assert(joined(tokens, k + 1));
                assert(rest[k] == tokens[k + 1]);
                assert(rest[k + 1] == tokens[k + 2]);
            }
        }
        lemma_covers_ordered(rest, next as int, to);
        lemma_kind_beyond(rest, next as int, to, col);
    }
}

/// Tokens that lie end to end from `from` up to `to` end no earlier than
/// they start.
pub proof fn lemma_covers_ordered(tokens: Seq<Token>, from: int, to: int)
    requires
        covers(tokens, from, to),
    ensures
        from <= to,
    decreases tokens.len(),
{
    if tokens.len() > 1 {
        let rest = tokens.drop_first();
        let next = tokens[0].start + tokens[0].len;
        assert(joined(tokens, 0));
        assert(rest[0] == tokens[1]);
        assert(rest.last() == tokens.last());
        assert forall|k: int| 0 <= k < rest.len() - 1 implies #[trigger] joined(rest, k) by {
            assert(joined(tokens, k + 1));
            assert(rest[k] == tokens[k + 1]);
            assert(rest[k + 1] == tokens[k + 2]);
        }
        lemma_covers_ordered(rest, next as int, to);
    }
}

/// `n` as a `u16`, the largest `u16` where `n` is larger.
pub fn to_u16(n: usize) -> (m: u16)
    ensures
        m == clip_u16(n as int),
{
    if n <= u16::MAX as usize {
        n as u16
    } else {
        u16::MAX
    }
}

} // verus!
