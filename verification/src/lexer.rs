//! Line tokenizers for syntax colouring.
//!
//! A lexer turns one line of text into tokens that tile the line. Every lexer
//! shares one baseline rule: a run of digits is a number unless it continues
//! an identifier, and everything else is normal text.

use crate::file_type::FileType;
use crate::strings::chars_of;
use vstd::prelude::*;

verus! {

/// A language-agnostic token category.
#[derive(Debug, Clone, Copy, PartialEq, Eq)]
pub enum TokenKind {
    /// Ordinary source text.
    Normal,
    /// Language keyword.
    _Keyword,
    /// Built-in or well-known type.
    _Type,
    /// String literal, quotes included.
    _String,
    /// Numeric literal.
    Number,
    /// Comment, line or block.
    Comment,
    /// Punctuation and operators.
    Operator,
}

/// One coloured span within a line.
#[derive(Debug, Clone, Copy, PartialEq, Eq)]
pub struct Token {
    /// Offset, in characters, of the span's first character within the line.
    pub start: usize,
    /// Number of characters this token spans.
    pub len: usize,
    pub kind: TokenKind,
}

/// An ASCII digit.
pub open spec fn is_digit(c: char) -> bool {
    '0' <= c <= '9'
}

/// A character that may continue an identifier: an ASCII letter, an ASCII
/// digit or an underscore.
pub open spec fn is_word_char(c: char) -> bool {
    is_digit(c) || ('a' <= c <= 'z') || ('A' <= c <= 'Z') || c == '_'
}

/// A digit that opens a number: the first character of the line, or one that
/// no word character stands directly before.
pub open spec fn number_starts_at(s: Seq<char>, i: int) -> bool {
    0 <= i < s.len() && is_digit(s[i]) && (i == 0 || !is_word_char(s[i - 1]))
}

/// Whether the character at `i` belongs to a number: a digit that opens a
/// number or follows a character of one.
pub open spec fn in_number(s: Seq<char>, i: int) -> bool
    decreases i,
{
    0 <= i < s.len() && is_digit(s[i]) && (number_starts_at(s, i) || in_number(s, i - 1))
}

/// The class of the character at `i`: Number within a number, else Normal.
pub open spec fn kind_at(s: Seq<char>, i: int) -> TokenKind {
    if in_number(s, i) {
        TokenKind::Number
    } else {
        TokenKind::Normal
    }
}

/// Where the run of equally classified characters that holds `i` ends: the
/// first index after `i` whose character is classified otherwise, or the
/// length of `s`.
pub open spec fn run_end(s: Seq<char>, i: int) -> int
    decreases s.len() - i,
{
    if i < 0 || i >= s.len() {
        s.len() as int
    } else if i + 1 < s.len() && in_number(s, i + 1) == in_number(s, i) {
        run_end(s, i + 1)
    } else {
        i + 1
    }
}

/// The baseline tokens of `s` from index `i` on: one token for each maximal
/// run of equally classified characters.
pub open spec fn tokens_from(s: Seq<char>, i: int) -> Seq<Token>
    decreases s.len() - i,
    via tokens_from_terminates
{
    if 0 <= i < s.len() {
        seq![Token { start: i as usize, len: (run_end(s, i) - i) as usize, kind: kind_at(s, i) }]
            + tokens_from(s, run_end(s, i))
    } else {
        Seq::empty()
    }
}

#[via_fn]
proof fn tokens_from_terminates(s: Seq<char>, i: int) {
    if 0 <= i < s.len() {
        lemma_run_end_bounds(s, i);
    }
}

/// The baseline tokens of a whole line.
pub open spec fn baseline_tokens(s: Seq<char>) -> Seq<Token> {
    tokens_from(s, 0)
}

/// Token `k` ends where token `k + 1` starts.
pub open spec fn joined(tokens: Seq<Token>, k: int) -> bool {
    tokens[k].start + tokens[k].len == tokens[k + 1].start
}

/// The tokens lie end to end and cover the indices from `from` up to `to`.
pub open spec fn covers(tokens: Seq<Token>, from: int, to: int) -> bool {
    &&& tokens.len() == 0 ==> from == to
    &&& tokens.len() > 0 ==> tokens[0].start == from && tokens.last().start + tokens.last().len
        == to
    &&& forall|k: int| 0 <= k < tokens.len() - 1 ==> #[trigger] joined(tokens, k)
}

/// The tokens tile a line of `n` characters exactly.
pub open spec fn tiles(tokens: Seq<Token>, n: int) -> bool {
    covers(tokens, 0, n)
}

/// A run that is uniform from `i` up to `j` and stops there ends at `j`.
proof fn lemma_run_end(s: Seq<char>, i: int, j: int)
    requires
        0 <= i < j <= s.len(),
        forall|k: int| i <= k < j ==> in_number(s, k) == in_number(s, i),
        j == s.len() || in_number(s, j) != in_number(s, i),
    ensures
        run_end(s, i) == j,
    decreases j - i,
{
    if i + 1 < j {
        assert(in_number(s, i + 1) == in_number(s, i));
        lemma_run_end(s, i + 1, j);
    }
}

/// A run ends after its first index and within the line.
pub proof fn lemma_run_end_bounds(s: Seq<char>, i: int)
    requires
        0 <= i < s.len(),
    ensures
        i < run_end(s, i) <= s.len(),
    decreases s.len() - i,
{
    if i + 1 < s.len() && in_number(s, i + 1) == in_number(s, i) {
        lemma_run_end_bounds(s, i + 1);
    }
}

/// The baseline tokens from `i` on tile the rest of the line, and none is
/// empty.
pub proof fn lemma_tokens_from_cover(s: Seq<char>, i: int)
    requires
        0 <= i <= s.len(),
        s.len() <= usize::MAX,
    ensures
        covers(tokens_from(s, i), i, s.len() as int),
        forall|k: int| 0 <= k < tokens_from(s, i).len() ==> (#[trigger] tokens_from(s, i)[k]).len > 0,
    decreases s.len() - i,
{
    if i < s.len() {
        lemma_run_end_bounds(s, i);
        let e = run_end(s, i);
        lemma_tokens_from_cover(s, e);
        let head = seq![Token { start: i as usize, len: (e - i) as usize, kind: kind_at(s, i) }];
        let rest = tokens_from(s, e);
        let all = tokens_from(s, i);
        assert(all == head + rest);
        assert(all[0] == head[0]);
        assert forall|k: int| 0 <= k < all.len() - 1 implies #[trigger] joined(all, k) by {
            if k == 0 {
                assert(all[1] == rest[0]);
            } else {
                assert(all[k] == rest[k - 1]);
                assert(all[k + 1] == rest[k]);
                assert(joined(rest, k - 1));
            }
        }
        if rest.len() > 0 {
            assert(all.last() == rest.last());
        }
        assert forall|k: int| 0 <= k < all.len() implies (#[trigger] all[k]).len > 0 by {
            if k > 0 {
                assert(all[k] == rest[k - 1]);
            }
        }
    }
}

/// The baseline tokens of a line tile it exactly.
pub proof fn lemma_baseline_tiles(s: Seq<char>)
    requires
        s.len() <= usize::MAX,
    ensures
        tiles(baseline_tokens(s), s.len() as int),
{
    lemma_tokens_from_cover(s, 0);
}

fn is_ascii_digit(c: char) -> (b: bool)
    ensures
        b == is_digit(c),
{
    '0' <= c && c <= '9'
}

fn is_word(c: char) -> (b: bool)
    ensures
        b == is_word_char(c),
{
    is_ascii_digit(c) || ('a' <= c && c <= 'z') || ('A' <= c && c <= 'Z') || c == '_'
}

/// Is `chars[i]` the start of a standalone number literal?
///
/// A digit counts as a number only if no letter, digit or underscore stands
/// before it: the "16" in "u16" is part of an identifier.
fn is_number_start(chars: &[char], i: usize) -> (b: bool)
    requires
        i < chars@.len(),
    ensures
        b == number_starts_at(chars@, i as int),
{
    is_ascii_digit(chars[i]) && (i == 0 || !is_word(chars[i - 1]))
}

/// Tokenize a line using only the universal "number vs. normal" rule.
fn tokenize_numbers(line: &str) -> (tokens: Vec<Token>)
    ensures
        tokens@ == baseline_tokens(line@),
        line@.len() <= usize::MAX,
{
    let mut tokens: Vec<Token> = Vec::new();
    let chars = chars_of(line);
    let len = chars.len();
    let mut i: usize = 0;
    let ghost s = chars@;

    while i < len
        invariant
            s == chars@,
            len == s.len(),
            i <= len,
            tokens@ + tokens_from(s, i as int) == tokens_from(s, 0),
            i < len ==> in_number(s, i as int) == number_starts_at(s, i as int),
        decreases len - i,
    {
        let start = i;
        let ghost before = tokens@;
        if is_number_start(chars.as_slice(), i) {
            while i < len && is_ascii_digit(chars[i])
                invariant
                    s == chars@,
                    len == s.len(),
                    start <= i <= len,
                    in_number(s, start as int),
                    forall|k: int| start <= k < i ==> in_number(s, k),
                decreases len - i,
            {
                if i > start {
                    assert(in_number(s, i - 1));
                }
                i += 1;
            }
            assert(i > start);
            proof {
                lemma_run_end(s, start as int, i as int);
            }
            tokens.push(Token { start, len: i - start, kind: TokenKind::Number });
        } else {
            while i < len && !is_number_start(chars.as_slice(), i)
                invariant
                    s == chars@,
                    len == s.len(),
                    start <= i <= len,
                    start < len,
                    !in_number(s, start as int),
                    forall|k: int| start <= k < i ==> !in_number(s, k),
                decreases len - i,
            {
                if i > start {
                    assert(!in_number(s, i - 1));
                }
                i += 1;
            }
            assert(i > start);
            proof {
                lemma_run_end(s, start as int, i as int);
            }
            tokens.push(Token { start, len: i - start, kind: TokenKind::Normal });
        }
        proof {
            let tok = Token { start: start, len: (i - start) as usize, kind: kind_at(s, start as int) };
            assert(tokens_from(s, start as int) == seq![tok] + tokens_from(s, i as int));
            assert(tokens@ == before.push(tok));
            assert(tokens@ + tokens_from(s, i as int) == before + tokens_from(s, start as int));
            if i < len {
                if in_number(s, start as int) {
                    assert(!is_digit(s[i as int]));
                } else {
                    assert(number_starts_at(s, i as int));
                }
            }
        }
    }
    assert(tokens_from(s, i as int) == Seq::<Token>::empty());
    assert(tokens@ + Seq::<Token>::empty() == tokens@);
    tokens
}

/// A lexer turns a single line of source text into a sequence of tokens.
///
/// `in_comment` tells whether the line starts inside a comment that an earlier
/// line opened; the second part of the result tells the same of the next line.
pub trait Lexer {
    /// What this lexer makes of a line.
    spec fn scan(&self, line: Seq<char>, in_comment: bool) -> (Seq<Token>, bool);

    fn tokenize_line(&self, line: &str, in_comment: bool) -> (r: (Vec<Token>, bool))
        ensures
            (r.0@, r.1) == self.scan(line@, in_comment),
            tiles(r.0@, line@.len() as int),
    ;
}

#[derive(Debug, Clone, Copy, PartialEq, Eq)]
pub struct RustLexer;

#[derive(Debug, Clone, Copy, PartialEq, Eq)]
pub struct PlainLexer;

impl Lexer for RustLexer {
    open spec fn scan(&self, line: Seq<char>, in_comment: bool) -> (Seq<Token>, bool) {
        (baseline_tokens(line), false)
    }

    fn tokenize_line(&self, line: &str, _in_comment: bool) -> (r: (Vec<Token>, bool)) {
        let tokens = tokenize_numbers(line);
        proof {
            lemma_baseline_tiles(line@);
        }
        (tokens, false)
    }
}

impl Lexer for PlainLexer {
    open spec fn scan(&self, line: Seq<char>, in_comment: bool) -> (Seq<Token>, bool) {
        (baseline_tokens(line), false)
    }

    fn tokenize_line(&self, line: &str, _in_comment: bool) -> (r: (Vec<Token>, bool)) {
        let tokens = tokenize_numbers(line);
        proof {
            lemma_baseline_tiles(line@);
        }
        (tokens, false)
    }
}

/// The lexers that the editor knows, one per supported language.
#[derive(Debug, Clone, Copy, PartialEq, Eq)]
pub enum RegisteredLexer {
    Rust(RustLexer),
    Plain(PlainLexer),
}

impl Lexer for RegisteredLexer {
    open spec fn scan(&self, line: Seq<char>, in_comment: bool) -> (Seq<Token>, bool) {
        match self {
            RegisteredLexer::Rust(lexer) => lexer.scan(line, in_comment),
            RegisteredLexer::Plain(lexer) => lexer.scan(line, in_comment),
        }
    }

    fn tokenize_line(&self, line: &str, in_comment: bool) -> (r: (Vec<Token>, bool)) {
        match self {
            RegisteredLexer::Rust(lexer) => lexer.tokenize_line(line, in_comment),
            RegisteredLexer::Plain(lexer) => lexer.tokenize_line(line, in_comment),
        }
    }
}

/// The lexer registered for a file type: the Rust lexer for Rust files, the
/// plain lexer for every other type.
pub open spec fn registered_lexer(ft: FileType) -> RegisteredLexer {
    match ft {
        FileType::Rust => RegisteredLexer::Rust(RustLexer),
        _ => RegisteredLexer::Plain(PlainLexer),
    }
}

/// Pick the right lexer based on file type.
pub fn lexer_for_file_type(ft: &FileType) -> (lexer: RegisteredLexer)
    ensures
        lexer == registered_lexer(*ft),
{
    match ft {
        FileType::Rust => RegisteredLexer::Rust(RustLexer),
        _ => RegisteredLexer::Plain(PlainLexer),
    }
}

/// Every registered lexer applies the baseline rule and leaves no comment
/// open.
pub proof fn lemma_registered_is_baseline(lexer: RegisteredLexer, line: Seq<char>, in_comment: bool)
    ensures
        lexer.scan(line, in_comment) == (baseline_tokens(line), false),
{
}

} // verus!
