//! Laws of the character-sequence primitives: how trimming, tokens and splitting
//! behave on sequences that are put together from known pieces, and what holds of
//! every piece that they give.

use crate::text::{
    index_of, is_whitespace, join, lemma_index_of_bounds, lemma_index_of_is, lemma_run_len_bounds,
    lemma_run_len_is, lemma_trailing_ws_bounds, lemma_trailing_ws_is, lines, run_len, split,
    strip_cr, text_of_lines, tokens, trailing_ws, trim,
};
use vstd::prelude::*;

verus! {

/// `c` does not occur in `s`.
pub open spec fn free_of(s: Seq<char>, c: char) -> bool {
    forall|i: int| 0 <= i < s.len() ==> #[trigger] s[i] != c
}

/// No character of `s` is whitespace.
pub open spec fn no_whitespace(s: Seq<char>) -> bool {
    forall|i: int| 0 <= i < s.len() ==> !is_whitespace(#[trigger] s[i])
}

/// `s` is a word: not empty, and without whitespace.
pub open spec fn is_word(s: Seq<char>) -> bool {
    s.len() > 0 && no_whitespace(s)
}

/// Every piece of `parts` is a word.
pub open spec fn all_words(parts: Seq<Seq<char>>) -> bool {
    forall|i: int| 0 <= i < parts.len() ==> is_word(#[trigger] parts[i])
}

/// `c` occurs in no piece of `parts`.
pub open spec fn all_free_of(parts: Seq<Seq<char>>, c: char) -> bool {
    forall|i: int| 0 <= i < parts.len() ==> free_of(#[trigger] parts[i], c)
}

/// A sequence put together from two is free of `c` exactly when both are.
pub proof fn lemma_free_of_concat(a: Seq<char>, b: Seq<char>, c: char)
    ensures
        free_of(a + b, c) <==> free_of(a, c) && free_of(b, c),
{
    let s = a + b;
    if free_of(s, c) {
        assert forall|i: int| 0 <= i < a.len() implies #[trigger] a[i] != c by {
            assert(s[i] == a[i]);
        }
        assert forall|i: int| 0 <= i < b.len() implies #[trigger] b[i] != c by {
            assert(s[a.len() + i] == b[i]);
        }
    }
    if free_of(a, c) && free_of(b, c) {
        assert forall|i: int| 0 <= i < s.len() implies #[trigger] s[i] != c by {
            if i < a.len() {
                assert(s[i] == a[i]);
            } else {
                assert(s[i] == b[i - a.len()]);
            }
        }
    }
}

/// A part of a sequence that is free of `c` is free of `c`.
pub proof fn lemma_free_of_subrange(s: Seq<char>, lo: int, hi: int, c: char)
    requires
        0 <= lo <= hi <= s.len(),
        free_of(s, c),
    ensures
        free_of(s.subrange(lo, hi), c),
{
    let t = s.subrange(lo, hi);
    assert forall|i: int| 0 <= i < t.len() implies #[trigger] t[i] != c by {
        assert(t[i] == s[lo + i]);
    }
}

/// In a sequence that is free of `c`, `index_of` runs to the end.
pub proof fn lemma_index_of_free(s: Seq<char>, c: char)
    requires
        free_of(s, c),
    ensures
        index_of(s, c) == s.len(),
{
    lemma_index_of_is(s, c, s.len() as int);
}

/// Where `a` is free of `c` and `b` starts with `c`, the first `c` of `a + b` is
/// where `b` starts.
pub proof fn lemma_index_of_concat(a: Seq<char>, b: Seq<char>, c: char)
    requires
        free_of(a, c),
        b.len() > 0,
        b[0] == c,
    ensures
        index_of(a + b, c) == a.len(),
{
    let s = a + b;
    assert forall|i: int| 0 <= i < a.len() implies s[i] != c by {
        assert(s[i] == a[i]);
    }
    assert(s[a.len() as int] == b[0]);
    lemma_index_of_is(s, c, a.len() as int);
}

/// Trimming leaves the part `lo..hi`, where everything outside it is whitespace and
/// its two ends are not.
pub proof fn lemma_trim_is(s: Seq<char>, lo: int, hi: int)
    requires
        0 <= lo <= hi <= s.len(),
        forall|i: int| 0 <= i < lo ==> is_whitespace(s[i]),
        forall|i: int| hi <= i < s.len() ==> is_whitespace(s[i]),
        lo < hi ==> !is_whitespace(s[lo]) && !is_whitespace(s[hi - 1]),
    ensures
        trim(s) == s.subrange(lo, hi),
{
    if lo == hi {
        lemma_run_len_is(s, true, s.len() as int);
        let t = s.skip(s.len() as int);
        assert(t.len() == 0);
        assert(trailing_ws(t) == 0);
        assert(t.take(0) =~= s.subrange(lo, hi));
    } else {
        lemma_run_len_is(s, true, lo);
        let t = s.skip(lo);
        let k = s.len() - hi;
        assert forall|i: int| t.len() - k <= i < t.len() implies is_whitespace(t[i]) by {
            assert(t[i] == s[lo + i]);
        }
        assert(t[t.len() - k - 1] == s[hi - 1]);
        lemma_trailing_ws_is(t, k);
        assert(t.take(t.len() - k) =~= s.subrange(lo, hi));
    }
}

/// Trimming gives a part of the sequence: whatever does not occur in the sequence
/// does not occur in what is left.
pub proof fn lemma_trim_free(s: Seq<char>, c: char)
    requires
        free_of(s, c),
    ensures
        free_of(trim(s), c),
{
    lemma_run_len_bounds(s, true);
    let a = run_len(s, true) as int;
    let t = s.skip(a);
    lemma_trailing_ws_bounds(t);
    let k = trailing_ws(t) as int;
    assert(t.take(t.len() - k) =~= s.subrange(a, s.len() - k));
    lemma_free_of_subrange(s, a, s.len() - k, c);
}

/// A sequence without whitespace at its two ends is its own trimming.
pub proof fn lemma_trim_word(s: Seq<char>)
    requires
        s.len() == 0 || (!is_whitespace(s[0]) && !is_whitespace(s.last())),
    ensures
        trim(s) == s,
{
    lemma_trim_is(s, 0, s.len() as int);
    assert(s.subrange(0, s.len() as int) =~= s);
}

/// A space in front does not change the tokens.
pub proof fn lemma_tokens_space(rest: Seq<char>)
    ensures
        tokens(seq![' '] + rest) == tokens(rest),
{
    let s = seq![' '] + rest;
    assert(s[0] == ' ');
    assert(s.drop_first() =~= rest);
}

/// A word in front of the end, or of whitespace, is the first token.
pub proof fn lemma_tokens_word(t: Seq<char>, rest: Seq<char>)
    requires
        is_word(t),
        rest.len() == 0 || is_whitespace(rest[0]),
    ensures
        tokens(t + rest) == seq![t] + tokens(rest),
{
    let s = t + rest;
    assert(s[0] == t[0]);
    assert forall|i: int| 0 <= i < t.len() implies is_whitespace(s[i]) == false by {
        assert(s[i] == t[i]);
    }
    if rest.len() > 0 {
        assert(s[t.len() as int] == rest[0]);
    }
    lemma_run_len_is(s, false, t.len() as int);
    assert(s.take(t.len() as int) =~= t);
    assert(s.skip(t.len() as int) =~= rest);
}

/// A word followed by a space and more: the word is the first token, and the space
/// counts for nothing.
pub proof fn lemma_tokens_word_space(t: Seq<char>, rest: Seq<char>)
    requires
        is_word(t),
    ensures
        tokens(t + (seq![' '] + rest)) == seq![t] + tokens(rest),
{
    let r = seq![' '] + rest;
    assert(r[0] == ' ');
    lemma_tokens_word(t, r);
    lemma_tokens_space(rest);
}

/// A word alone is its only token.
pub proof fn lemma_tokens_single(t: Seq<char>)
    requires
        is_word(t),
    ensures
        tokens(t) == seq![t],
{
    lemma_tokens_word(t, Seq::empty());
    assert(t + Seq::<char>::empty() =~= t);
    assert(seq![t] + Seq::<Seq<char>>::empty() =~= seq![t]);
}

/// Every token is a word, and holds no character that the sequence does not hold.
pub proof fn lemma_tokens_are_words(s: Seq<char>, c: char)
    ensures
        all_words(tokens(s)),
        free_of(s, c) ==> all_free_of(tokens(s), c),
    decreases s.len(),
{
    if s.len() == 0 {
    } else if is_whitespace(s[0]) {
        let t = s.drop_first();
        lemma_tokens_are_words(t, c);
        if free_of(s, c) {
            lemma_free_of_subrange(s, 1, s.len() as int, c);
        }
    } else {
        lemma_run_len_bounds(s, false);
        let n = run_len(s, false) as int;
        let head = s.take(n);
        let rest = s.skip(n);
        lemma_tokens_are_words(rest, c);
        assert forall|i: int| 0 <= i < head.len() implies !is_whitespace(#[trigger] head[i]) by {
            assert(head[i] == s[i]);
        }
        assert(is_word(head));
        let all = seq![head] + tokens(rest);
        assert forall|i: int| 0 <= i < all.len() implies is_word(#[trigger] all[i]) by {
            if i > 0 {
                assert(all[i] == tokens(rest)[i - 1]);
            }
        }
        if free_of(s, c) {
            lemma_free_of_subrange(s, 0, n, c);
            lemma_free_of_subrange(s, n, s.len() as int, c);
            assert forall|i: int| 0 <= i < all.len() implies free_of(#[trigger] all[i], c) by {
                if i > 0 {
                    assert(all[i] == tokens(rest)[i - 1]);
                }
            }
        }
    }
}

/// A space and a word after a sequence add the word to its tokens.
pub proof fn lemma_tokens_push_word(s: Seq<char>, w: Seq<char>)
    requires
        is_word(w),
    ensures
        tokens(s + (seq![' '] + w)) == tokens(s).push(w),
    decreases s.len(),
{
    let tail = seq![' '] + w;
    let all = s + tail;
    if s.len() == 0 {
        assert(all =~= tail);
        lemma_tokens_space(w);
        lemma_tokens_single(w);
        assert(tokens(s).push(w) =~= seq![w]);
    } else if is_whitespace(s[0]) {
        assert(all[0] == s[0]);
        assert(all.drop_first() =~= s.drop_first() + tail);
        lemma_tokens_push_word(s.drop_first(), w);
    } else {
        lemma_run_len_bounds(s, false);
        let n = run_len(s, false) as int;
        assert(all[0] == s[0]);
        assert forall|i: int| 0 <= i < n implies is_whitespace(all[i]) == false by {
            assert(all[i] == s[i]);
        }
        if n < s.len() {
            assert(all[n] == s[n]);
        } else {
            assert(all[n] == tail[0]);
        }
        lemma_run_len_is(all, false, n);
        assert(all.take(n) =~= s.take(n));
        assert(all.skip(n) =~= s.skip(n) + tail);
        lemma_tokens_push_word(s.skip(n), w);
        assert(seq![s.take(n)] + tokens(s.skip(n)).push(w) =~= (seq![s.take(n)] + tokens(
            s.skip(n),
        )).push(w));
    }
}

/// Words joined with single spaces are the tokens of what they are joined to, also
/// behind a leading space; and what they are joined to is empty only when there is
/// no word.
pub proof fn lemma_tokens_join(words: Seq<Seq<char>>)
    requires
        all_words(words),
    ensures
        tokens(join(words, seq![' '])) == words,
        tokens(seq![' '] + join(words, seq![' '])) == words,
        join(words, seq![' ']).len() == 0 <==> words.len() == 0,
    decreases words.len(),
{
    let sp = seq![' '];
    if words.len() == 0 {
        assert(tokens(join(words, sp)) =~= words);
    } else if words.len() == 1 {
        assert(is_word(words[0]));
        lemma_tokens_single(words[0]);
        assert(seq![words[0]] =~= words);
    } else {
        let front = words.drop_last();
        let w = words.last();
        assert(is_word(w));
        assert forall|i: int| 0 <= i < front.len() implies is_word(#[trigger] front[i]) by {
            assert(front[i] == words[i]);
        }
        lemma_tokens_join(front);
        assert(join(words, sp) =~= join(front, sp) + (sp + w));
        lemma_tokens_push_word(join(front, sp), w);
        assert(front.push(w) =~= words);
    }
    lemma_tokens_space(join(words, sp));
}

/// A sequence that is free of the separator is one piece.
pub proof fn lemma_split_free(s: Seq<char>, sep: char)
    requires
        free_of(s, sep),
    ensures
        split(s, sep) == seq![s],
{
    lemma_index_of_free(s, sep);
}

/// A piece that is free of the separator, then the separator, then more: the piece
/// is the first one, and the rest is split on its own.
pub proof fn lemma_split_cons(a: Seq<char>, rest: Seq<char>, sep: char)
    requires
        free_of(a, sep),
    ensures
        split(a + (seq![sep] + rest), sep) == seq![a] + split(rest, sep),
{
    let tail = seq![sep] + rest;
    let s = a + tail;
    assert(tail[0] == sep);
    lemma_index_of_concat(a, tail, sep);
    let i = a.len() as int;
    assert(s.take(i) =~= a);
    assert(s.skip(i + 1) =~= rest);
}

/// There is always a piece; no piece holds the separator, nor a character that the
/// sequence does not hold.
pub proof fn lemma_split_pieces(s: Seq<char>, sep: char, c: char)
    ensures
        split(s, sep).len() >= 1,
        all_free_of(split(s, sep), sep),
        free_of(s, c) ==> all_free_of(split(s, sep), c),
    decreases s.len(),
{
    lemma_index_of_bounds(s, sep);
    let i = index_of(s, sep) as int;
    if i >= s.len() {
        assert(free_of(s, sep));
    } else {
        let head = s.take(i);
        let rest = s.skip(i + 1);
        lemma_split_pieces(rest, sep, c);
        assert forall|j: int| 0 <= j < head.len() implies #[trigger] head[j] != sep by {
            assert(head[j] == s[j]);
        }
        let all = seq![head] + split(rest, sep);
        assert forall|j: int| 0 <= j < all.len() implies free_of(#[trigger] all[j], sep) by {
            if j > 0 {
                assert(all[j] == split(rest, sep)[j - 1]);
            }
        }
        if free_of(s, c) {
            lemma_free_of_subrange(s, 0, i, c);
            lemma_free_of_subrange(s, i + 1, s.len() as int, c);
            assert forall|j: int| 0 <= j < all.len() implies free_of(#[trigger] all[j], c) by {
                if j > 0 {
                    assert(all[j] == split(rest, sep)[j - 1]);
                }
            }
        }
    }
}

/// A sequence that holds the separator has two pieces at least.
pub proof fn lemma_split_two(s: Seq<char>, sep: char)
    requires
        !free_of(s, sep),
    ensures
        split(s, sep).len() >= 2,
{
    lemma_index_of_bounds(s, sep);
    let i = index_of(s, sep) as int;
    if i >= s.len() {
        assert(free_of(s, sep));
    } else {
        lemma_split_pieces(s.skip(i + 1), sep, sep);
    }
}

/// Trimming gives the part between two positions, and every character that is no
/// whitespace lies between them.
pub proof fn lemma_trim_span(s: Seq<char>) -> (r: (int, int))
    ensures
        0 <= r.0 <= r.1 <= s.len(),
        trim(s) == s.subrange(r.0, r.1),
        forall|p: int| 0 <= p < s.len() && !is_whitespace(#[trigger] s[p]) ==> r.0 <= p < r.1,
{
    lemma_run_len_bounds(s, true);
    let a = run_len(s, true) as int;
    let t = s.skip(a);
    lemma_trailing_ws_bounds(t);
    let k = trailing_ws(t) as int;
    let b = s.len() - k;
    assert(t.take(t.len() - k) =~= s.subrange(a, b));
    assert forall|p: int| 0 <= p < s.len() && !is_whitespace(#[trigger] s[p]) implies a <= p
        < b by {
        if p >= a {
            assert(t[p - a] == s[p]);
        }
    }
    (a, b)
}

/// A piece after a sequence and the separator is one more piece, where the new piece
/// is free of the separator.
pub proof fn lemma_split_push(s: Seq<char>, a: Seq<char>, sep: char)
    requires
        free_of(a, sep),
    ensures
        split(s + (seq![sep] + a), sep) == split(s, sep).push(a),
    decreases s.len(),
{
    let tail = seq![sep] + a;
    let all = s + tail;
    lemma_index_of_bounds(s, sep);
    let i = index_of(s, sep) as int;
    if i >= s.len() {
        assert(free_of(s, sep));
        lemma_split_cons(s, a, sep);
        lemma_split_free(a, sep);
        assert(seq![s] + seq![a] =~= seq![s].push(a));
    } else {
        assert forall|j: int| 0 <= j < i implies all[j] != sep by {
            assert(all[j] == s[j]);
        }
        assert(all[i] == s[i]);
        lemma_index_of_is(all, sep, i);
        assert(all.take(i) =~= s.take(i));
        assert(all.skip(i + 1) =~= s.skip(i + 1) + tail);
        lemma_split_push(s.skip(i + 1), a, sep);
        assert(seq![s.take(i)] + split(s.skip(i + 1), sep).push(a) =~= (seq![s.take(i)] + split(
            s.skip(i + 1),
            sep,
        )).push(a));
    }
}

/// What pieces are joined to holds no character that neither the pieces nor the
/// separator hold.
pub proof fn lemma_join_free(parts: Seq<Seq<char>>, sep: Seq<char>, c: char)
    requires
        all_free_of(parts, c),
        free_of(sep, c),
    ensures
        free_of(join(parts, sep), c),
    decreases parts.len(),
{
    if parts.len() == 0 {
    } else if parts.len() == 1 {
        assert(free_of(parts[0], c));
    } else {
        let front = parts.drop_last();
        assert forall|i: int| 0 <= i < front.len() implies free_of(#[trigger] front[i], c) by {
            assert(front[i] == parts[i]);
        }
        lemma_join_free(front, sep, c);
        assert(free_of(parts.last(), c));
        lemma_free_of_concat(join(front, sep), sep, c);
        lemma_free_of_concat(join(front, sep) + sep, parts.last(), c);
    }
}

/// Words joined with spaces end as the last word ends.
pub proof fn lemma_join_words_last(words: Seq<Seq<char>>)
    requires
        words.len() >= 1,
        all_words(words),
    ensures
        join(words, seq![' ']).len() >= 1,
        !is_whitespace(join(words, seq![' ']).last()),
{
    let w = words.last();
    assert(is_word(w));
    assert(!is_whitespace(w[w.len() - 1]));
    if words.len() > 1 {
        let j = join(words, seq![' ']);
        assert(j.last() == w.last());
    }
}

/// The text of lines without the line feed at its end: the lines with a line feed
/// between each two neighbours.
spec fn unended(ls: Seq<Seq<char>>) -> Seq<char> {
    text_of_lines(ls.drop_last()) + ls.last()
}

/// The text of lines, cut at its line feeds, gives the lines and an empty piece
/// after the last line feed.
proof fn lemma_split_text_of_lines(ls: Seq<Seq<char>>)
    requires
        all_free_of(ls, '\n'),
    ensures
        split(text_of_lines(ls), '\n') == ls.push(Seq::empty()),
        ls.len() > 0 ==> split(unended(ls), '\n') == ls,
    decreases ls.len(),
{
    let none = Seq::<char>::empty();
    let nl = seq!['\n'];
    if ls.len() == 0 {
        lemma_split_free(none, '\n');
        assert(ls.push(none) =~= seq![none]);
    } else {
        let front = ls.drop_last();
        let last = ls.last();
        assert(free_of(last, '\n'));
        assert forall|i: int| 0 <= i < front.len() implies free_of(#[trigger] front[i], '\n') by {
            assert(front[i] == ls[i]);
        }
        lemma_split_text_of_lines(front);
        if front.len() == 0 {
            assert(unended(ls) =~= last);
            lemma_split_free(last, '\n');
            assert(seq![last] =~= ls);
        } else {
            assert(unended(ls) =~= unended(front) + (nl + last));
            lemma_split_push(unended(front), last, '\n');
            assert(front.push(last) =~= ls);
        }
        assert(text_of_lines(ls) =~= unended(ls) + (nl + none));
        lemma_split_push(unended(ls), none, '\n');
    }
}

/// Lines that hold no line feed and do not end in a carriage return are the lines
/// of their own text.
pub proof fn lemma_lines_of_text(ls: Seq<Seq<char>>)
    requires
        all_free_of(ls, '\n'),
        forall|i: int| 0 <= i < ls.len() ==> strip_cr(#[trigger] ls[i]) == ls[i],
    ensures
        lines(text_of_lines(ls)) == ls,
{
    lemma_split_text_of_lines(ls);
    let pieces = split(text_of_lines(ls), '\n');
    let ended = Seq::new((pieces.len() - 1) as nat, |i: int| strip_cr(pieces[i]));
    assert(pieces.last().len() == 0);
    assert(ended =~= ls);
}

} // verus!
