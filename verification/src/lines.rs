//! How a sequence of characters falls into lines.
//!
//! A line feed ends a line and belongs to the line it ends. The text before
//! the first line feed is line 0; the text after the last one is the last
//! line, which is empty when the text ends with a line feed or is empty.

use vstd::prelude::*;

verus! {

/// Number of line feeds in `s`.
pub open spec fn count_newlines(s: Seq<char>) -> nat
    decreases s.len(),
{
    if s.len() == 0 {
        0
    } else {
        count_newlines(s.drop_last()) + if s.last() == '\n' {
            1nat
        } else {
            0nat
        }
    }
}

/// Number of lines: one more than the number of line feeds.
pub open spec fn line_count(s: Seq<char>) -> nat {
    count_newlines(s) + 1
}

/// Index of the last line.
pub open spec fn last_line(s: Seq<char>) -> nat {
    count_newlines(s)
}

/// Index at which line `i` starts: 0 for line 0, the index just after the
/// `i`-th line feed for a later line, and the length of `s` where `s` has
/// fewer than `i` line feeds.
pub open spec fn line_start(s: Seq<char>, i: int) -> nat
    decreases s.len(),
{
    if i <= 0 || s.len() == 0 {
        0
    } else if count_newlines(s.drop_last()) >= i {
        line_start(s.drop_last(), i)
    } else {
        s.len()
    }
}

/// Line `i` with the line feed that ends it, if one does.
pub open spec fn line_text(s: Seq<char>, i: int) -> Seq<char> {
    s.subrange(line_start(s, i) as int, line_start(s, i + 1) as int)
}

/// `t` without the line feed at its end, if it has one there.
pub open spec fn without_final_newline(t: Seq<char>) -> Seq<char> {
    if t.len() > 0 && t.last() == '\n' {
        t.drop_last()
    } else {
        t
    }
}

/// Length of line `i`, not counting the line feed that ends it.
pub open spec fn line_len(s: Seq<char>, i: int) -> nat {
    without_final_newline(line_text(s, i)).len()
}

/// Index at which line `i` ends: that of the line feed that ends it, or the
/// length of `s` for the last line.
pub open spec fn line_end(s: Seq<char>, i: int) -> int {
    (line_start(s, i) + line_len(s, i)) as int
}

/// Index in `s` of the character at offset `cx` of line `cy`.
pub open spec fn absolute_index(s: Seq<char>, cy: int, cx: int) -> int {
    line_start(s, cy) + cx
}

/// `p` is where line `i` starts: `i` line feeds stand before `p`, and `p` is
/// the start of the text or follows a line feed.
pub open spec fn starts_line(s: Seq<char>, i: int, p: int) -> bool {
    &&& 0 <= p <= s.len()
    &&& count_newlines(s.take(p)) == i
    &&& (p == 0 || s[p - 1] == '\n')
}

/// The line feeds of two stretches add up.
pub proof fn lemma_count_concat(a: Seq<char>, b: Seq<char>)
    ensures
        count_newlines(a + b) == count_newlines(a) + count_newlines(b),
    decreases b.len(),
{
    if b.len() == 0 {
        assert(a + b == a);
    } else {
        assert((a + b).drop_last() == a + b.drop_last());
        assert((a + b).last() == b.last());
        lemma_count_concat(a, b.drop_last());
    }
}

/// One character counts one line feed if it is one.
pub proof fn lemma_count_single(c: char)
    ensures
        count_newlines(seq![c]) == if c == '\n' {
            1nat
        } else {
            0nat
        },
{
    reveal_with_fuel(count_newlines, 2);
    assert(seq![c].drop_last() == Seq::<char>::empty());
}

/// A prefix holds no more line feeds than the whole, and one step further
/// adds the character stepped over.
pub proof fn lemma_count_take(s: Seq<char>, p: int, q: int)
    requires
        0 <= p <= q <= s.len(),
    ensures
        count_newlines(s.take(p)) <= count_newlines(s.take(q)),
        count_newlines(s.take(q)) == count_newlines(s.take(p)) + count_newlines(s.subrange(p, q)),
        count_newlines(s.take(q)) <= count_newlines(s),
{
    assert(s.take(q) == s.take(p) + s.subrange(p, q));
    lemma_count_concat(s.take(p), s.subrange(p, q));
    assert(s == s.take(q) + s.skip(q));
    lemma_count_concat(s.take(q), s.skip(q));
}

/// One character more counts one line feed more if it is one.
pub proof fn lemma_count_step(s: Seq<char>, p: int)
    requires
        0 <= p < s.len(),
    ensures
        count_newlines(s.take(p + 1)) == count_newlines(s.take(p)) + if s[p] == '\n' {
            1nat
        } else {
            0nat
        },
{
    assert(s.take(p + 1).drop_last() == s.take(p));
}

/// A stretch that counts no line feed holds none.
pub proof fn lemma_count_zero(s: Seq<char>, k: int)
    requires
        count_newlines(s) == 0,
        0 <= k < s.len(),
    ensures
        s[k] != '\n',
    decreases s.len(),
{
    if k < s.len() - 1 {
        lemma_count_zero(s.drop_last(), k);
    }
}

/// Where a line starts: within the text, after as many line feeds as the
/// line's index, and at the text's start or just after a line feed. A line
/// index beyond the last line gives the length of the text.
pub proof fn lemma_line_start(s: Seq<char>, i: int)
    ensures
        line_start(s, i) <= s.len(),
        0 <= i <= count_newlines(s) ==> starts_line(s, i, line_start(s, i) as int),
        i > count_newlines(s) ==> line_start(s, i) == s.len(),
        i <= 0 ==> line_start(s, i) == 0,
    decreases s.len(),
{
    if i <= 0 {
        assert(s.take(0) == Seq::<char>::empty());
    } else if s.len() == 0 {
    } else if count_newlines(s.drop_last()) >= i {
        let t = s.drop_last();
        lemma_line_start(t, i);
        let p = line_start(t, i) as int;
        assert(t.take(p) == s.take(p));
    } else {
        let t = s.drop_last();
        assert(s.take(s.len() as int) == s);
    }
}

/// No other index starts line `i`.
pub proof fn lemma_line_start_unique(s: Seq<char>, i: int, p: int)
    requires
        starts_line(s, i, p),
    ensures
        line_start(s, i) == p,
    decreases s.len(),
{
    assert(s.take(0) == Seq::<char>::empty());
    if i <= 0 {
        if p > 0 {
            lemma_count_step(s, p - 1);
            lemma_count_take(s, 0, p - 1);
        }
    } else if s.len() == 0 {
    } else {
        let t = s.drop_last();
        if p == s.len() {
            assert(s.take(p) == s);
            assert(s.last() == '\n');
        } else {
            assert(t.take(p) == s.take(p));
            lemma_count_take(t, p, t.len() as int);
            assert(t.take(t.len() as int) == t);
            lemma_line_start_unique(t, i, p);
        }
    }
}

/// Later lines start later, and within the last line strictly so.
pub proof fn lemma_line_start_monotone(s: Seq<char>, i: int, j: int)
    requires
        i <= j,
    ensures
        line_start(s, i) <= line_start(s, j),
        0 <= i < j <= count_newlines(s) ==> line_start(s, i) < line_start(s, j),
{
    lemma_line_start(s, i);
    lemma_line_start(s, j);
    if 0 <= i && j <= count_newlines(s) {
        let p = line_start(s, i) as int;
        let q = line_start(s, j) as int;
        if q < p {
            lemma_count_take(s, q, p);
        } else if q == p {
        }
    }
}

/// A line before the last ends with a line feed and holds no other; the last
/// line holds none.
pub proof fn lemma_line_text(s: Seq<char>, i: int)
    requires
        0 <= i <= count_newlines(s),
    ensures
        line_start(s, i) <= line_start(s, i + 1) <= s.len(),
        line_text(s, i).len() == line_start(s, i + 1) - line_start(s, i),
        i < count_newlines(s) ==> line_text(s, i).len() > 0 && line_text(s, i).last() == '\n'
            && line_len(s, i) == line_text(s, i).len() - 1,
        i == count_newlines(s) ==> line_start(s, i + 1) == s.len() && line_len(s, i) == line_text(
            s,
            i,
        ).len(),
        forall|k: int| 0 <= k < line_len(s, i) ==> #[trigger] line_text(s, i)[k] != '\n',
        count_newlines(without_final_newline(line_text(s, i))) == 0,
{
    lemma_line_start(s, i);
    lemma_line_start(s, i + 1);
    lemma_line_start_monotone(s, i, i + 1);
    let p = line_start(s, i) as int;
    let q = line_start(s, i + 1) as int;
    let t = line_text(s, i);
    lemma_count_take(s, p, q);
    assert(s.subrange(p, q) == t);
    if i < count_newlines(s) {
        assert(t.last() == s[q - 1]);
        let body = t.drop_last();
        assert(t == body + seq!['\n']);
        lemma_count_concat(body, seq!['\n']);
        lemma_count_single('\n');
        assert forall|k: int| 0 <= k < body.len() implies #[trigger] t[k] != '\n' by {
            lemma_count_zero(body, k);
        }
    } else {
        lemma_count_take(s, q, s.len() as int);
        assert forall|k: int| 0 <= k < t.len() implies #[trigger] t[k] != '\n' by {
            lemma_count_zero(t, k);
        }
        if t.len() > 0 {
            lemma_count_zero(t, t.len() - 1);
        }
    }
}

/// The characters from a line's start up to an index hold as many line feeds
/// as lines start in between.
pub proof fn lemma_count_from_line_start(s: Seq<char>, i: int, idx: int)
    requires
        0 <= i <= count_newlines(s),
        line_start(s, i) <= idx <= s.len(),
    ensures
        count_newlines(s.take(idx)) >= i,
{
    lemma_line_start(s, i);
    lemma_count_take(s, line_start(s, i) as int, idx);
}

/// Putting a character in at or after the start of a line leaves that start
/// where it was.
pub proof fn lemma_insert_line_start(s: Seq<char>, idx: int, c: char, i: int)
    requires
        0 <= i <= count_newlines(s),
        line_start(s, i) <= idx <= s.len(),
    ensures
        line_start(s.insert(idx, c), i) == line_start(s, i),
        count_newlines(s.insert(idx, c)) == count_newlines(s) + if c == '\n' {
            1nat
        } else {
            0nat
        },
{
    let t = s.insert(idx, c);
    let p = line_start(s, i) as int;
    lemma_line_start(s, i);
    assert(t.take(p) == s.take(p));
    lemma_line_start_unique(t, i, p);
    assert(t == s.take(idx) + seq![c] + s.skip(idx));
    assert(s == s.take(idx) + s.skip(idx));
    lemma_count_concat(s.take(idx), s.skip(idx));
    lemma_count_concat(s.take(idx), seq![c]);
    lemma_count_concat(s.take(idx) + seq![c], s.skip(idx));
    lemma_count_single(c);
}

/// Taking a character out at or after the start of a line leaves that start
/// where it was.
pub proof fn lemma_remove_line_start(s: Seq<char>, idx: int, i: int)
    requires
        0 <= i <= count_newlines(s),
        line_start(s, i) <= idx < s.len(),
    ensures
        line_start(s.remove(idx), i) == line_start(s, i),
        count_newlines(s.remove(idx)) + (if s[idx] == '\n' {
            1nat
        } else {
            0nat
        }) == count_newlines(s),
        s[idx] == '\n' ==> i < count_newlines(s),
{
    let t = s.remove(idx);
    let p = line_start(s, i) as int;
    lemma_line_start(s, i);
    assert(t.take(p) == s.take(p));
    lemma_line_start_unique(t, i, p);
    assert(t == s.take(idx) + s.skip(idx + 1));
    assert(s == s.take(idx) + seq![s[idx]] + s.skip(idx + 1));
    lemma_count_concat(s.take(idx), s.skip(idx + 1));
    lemma_count_concat(s.take(idx), seq![s[idx]]);
    lemma_count_concat(s.take(idx) + seq![s[idx]], s.skip(idx + 1));
    lemma_count_single(s[idx]);
    lemma_count_from_line_start(s, i, idx);
}

/// A line is at least as long as any stretch without line feeds that starts
/// where it starts.
pub proof fn lemma_line_len_at_least(s: Seq<char>, i: int, n: int)
    requires
        0 <= i <= count_newlines(s),
        0 <= n,
        line_start(s, i) + n <= s.len(),
        forall|k: int| line_start(s, i) <= k < line_start(s, i) + n ==> s[k] != '\n',
    ensures
        line_len(s, i) >= n,
{
    lemma_line_text(s, i);
    let p = line_start(s, i) as int;
    let q = line_start(s, i + 1) as int;
    if i < count_newlines(s) {
        let t = line_text(s, i);
        assert(t.last() == s[q - 1]);
    }
}

/// The characters of a line before its end are no line feeds, and the line
/// ends at a line feed or at the end of the text.
pub proof fn lemma_line_chars(s: Seq<char>, i: int)
    requires
        0 <= i <= count_newlines(s),
    ensures
        line_start(s, i) <= line_end(s, i) <= s.len(),
        forall|k: int| line_start(s, i) <= k < line_end(s, i) ==> s[k] != '\n',
        i < count_newlines(s) ==> line_end(s, i) < s.len() && s[line_end(s, i)] == '\n'
            && line_start(s, i + 1) == line_end(s, i) + 1,
        i == count_newlines(s) ==> line_end(s, i) == s.len(),
{
    lemma_line_text(s, i);
    let p = line_start(s, i) as int;
    let t = line_text(s, i);
    assert forall|k: int| p <= k < line_end(s, i) implies s[k] != '\n' by {
        assert(t[k - p] == s[k]);
    }
    if i < count_newlines(s) {
        assert(t.last() == s[p + t.len() - 1]);
    }
}

} // verus!
