//! Character-sequence primitives of the line grammar: whitespace runs, trimming,
//! tokens, splitting on a separator, substring search and joining.
//!
//! Every specification is stated over `Seq<char>`; the executable functions work on
//! a borrowed slice of characters and report positions in it, so that callers can
//! cut the pieces they need out of the string itself.

use vstd::prelude::*;
use vstd::string::*;

verus! {

/// Whether `c` carries the Unicode `White_Space` property.
pub open spec fn is_whitespace(c: char) -> bool {
    let n = c as u32;
    (0x09 <= n <= 0x0D) || n == 0x20 || n == 0x85 || n == 0xA0 || n == 0x1680 || (0x2000 <= n
        <= 0x200A) || n == 0x2028 || n == 0x2029 || n == 0x202F || n == 0x205F || n == 0x3000
}

/// Length of the longest prefix of `s` whose characters all have whitespace status `ws`.
pub open spec fn run_len(s: Seq<char>, ws: bool) -> nat
    decreases s.len(),
{
    if s.len() > 0 && is_whitespace(s[0]) == ws {
        1 + run_len(s.drop_first(), ws)
    } else {
        0
    }
}

/// Length of the longest suffix of `s` made of whitespace only.
pub open spec fn trailing_ws(s: Seq<char>) -> nat
    decreases s.len(),
{
    if s.len() > 0 && is_whitespace(s.last()) {
        1 + trailing_ws(s.drop_last())
    } else {
        0
    }
}

/// Position of the first occurrence of `c` in `s`, or `s.len()` when there is none.
pub open spec fn index_of(s: Seq<char>, c: char) -> nat
    decreases s.len(),
{
    if s.len() == 0 || s[0] == c {
        0
    } else {
        1 + index_of(s.drop_first(), c)
    }
}

/// `s` without its leading and trailing whitespace.
pub open spec fn trim(s: Seq<char>) -> Seq<char> {
    let t = s.skip(run_len(s, true) as int);
    t.take(t.len() - trailing_ws(t))
}

/// The maximal whitespace-free pieces of `s`, in order.
pub open spec fn tokens(s: Seq<char>) -> Seq<Seq<char>>
    decreases s.len(),
    via tokens_decreases
{
    if s.len() == 0 {
        Seq::empty()
    } else if is_whitespace(s[0]) {
        tokens(s.drop_first())
    } else {
        let n = run_len(s, false) as int;
        seq![s.take(n)] + tokens(s.skip(n))
    }
}

#[via_fn]
proof fn tokens_decreases(s: Seq<char>) {
    lemma_run_len_bounds(s, false);
}

/// The pieces of `s` between occurrences of `sep`; always at least one piece.
pub open spec fn split(s: Seq<char>, sep: char) -> Seq<Seq<char>>
    decreases s.len(),
{
    let i = index_of(s, sep) as int;
    if i >= s.len() {
        seq![s]
    } else {
        seq![s.take(i)] + split(s.skip(i + 1), sep)
    }
}

/// Whether `pat` occurs in `s` starting at position `i`.
pub open spec fn occurs_at(s: Seq<char>, pat: Seq<char>, i: int) -> bool {
    0 <= i && i + pat.len() <= s.len() && s.subrange(i, i + pat.len()) == pat
}

/// Whether `pat` occurs somewhere in `s`.
pub open spec fn contains(s: Seq<char>, pat: Seq<char>) -> bool {
    exists|i: int| occurs_at(s, pat, i)
}

/// The pieces of `parts` with `sep` between each two neighbours.
pub open spec fn join(parts: Seq<Seq<char>>, sep: Seq<char>) -> Seq<char>
    decreases parts.len(),
{
    if parts.len() == 0 {
        Seq::empty()
    } else if parts.len() == 1 {
        parts[0]
    } else {
        join(parts.drop_last(), sep) + sep + parts.last()
    }
}

/// `s` without the carriage return at its end, if it has one.
pub open spec fn strip_cr(s: Seq<char>) -> Seq<char> {
    if s.len() > 0 && s.last() == '\r' {
        s.drop_last()
    } else {
        s
    }
}

/// The lines of a text. A line feed ends a line, and a carriage return just before
/// it belongs to the line end. What follows the last line feed is a line of its own
/// unless it is empty.
pub open spec fn lines(text: Seq<char>) -> Seq<Seq<char>> {
    let pieces = split(text, '\n');
    let ended = Seq::new((pieces.len() - 1) as nat, |i: int| strip_cr(pieces[i]));
    if pieces.last().len() == 0 {
        ended
    } else {
        ended.push(pieces.last())
    }
}

/// The text of lines: each line, followed by a line feed.
pub open spec fn text_of_lines(lines: Seq<Seq<char>>) -> Seq<char>
    decreases lines.len(),
{
    if lines.len() == 0 {
        Seq::empty()
    } else {
        text_of_lines(lines.drop_last()) + lines.last() + seq!['\n']
    }
}

/// The characters of each string of a list.
pub open spec fn texts(v: Seq<String>) -> Seq<Seq<char>> {
    Seq::new(v.len(), |i: int| v[i]@)
}

/// A half-open range of positions in a character slice.
#[derive(Debug, Clone, Copy, PartialEq, Eq)]
pub struct Span {
    pub lo: usize,
    pub hi: usize,
}

impl Span {
    /// The span lies inside `lo..hi` and is not reversed.
    pub open spec fn within(self, lo: int, hi: int) -> bool {
        lo <= self.lo <= self.hi <= hi
    }

    /// The characters of `s` that the span covers.
    pub open spec fn of(self, s: Seq<char>) -> Seq<char> {
        s.subrange(self.lo as int, self.hi as int)
    }
}

/// The pieces of `s` that `spans` cover, in order.
pub open spec fn pieces(s: Seq<char>, spans: Seq<Span>) -> Seq<Seq<char>> {
    Seq::new(spans.len(), |i: int| spans[i].of(s))
}

/// Every span of `spans` lies inside `lo..hi`.
pub open spec fn all_within(spans: Seq<Span>, lo: int, hi: int) -> bool {
    forall|i: int| 0 <= i < spans.len() ==> (#[trigger] spans[i]).within(lo, hi)
}

/// A run of `k` characters of status `ws`, ended by the end of `s` or by a character
/// of the other status, is the run that `run_len` measures.
pub proof fn lemma_run_len_is(s: Seq<char>, ws: bool, k: int)
    requires
        0 <= k <= s.len(),
        forall|i: int| 0 <= i < k ==> is_whitespace(s[i]) == ws,
        k == s.len() || is_whitespace(s[k]) != ws,
    ensures
        run_len(s, ws) == k,
    decreases k,
{
    if k > 0 {
        let t = s.drop_first();
        assert forall|i: int| 0 <= i < k - 1 implies is_whitespace(t[i]) == ws by {
            assert(t[i] == s[i + 1]);
        }
        lemma_run_len_is(t, ws, k - 1);
    }
}

/// What `run_len` measures is a run, and it cannot be extended.
pub proof fn lemma_run_len_bounds(s: Seq<char>, ws: bool)
    ensures
        run_len(s, ws) <= s.len(),
        forall|i: int| 0 <= i < run_len(s, ws) ==> is_whitespace(#[trigger] s[i]) == ws,
        run_len(s, ws) < s.len() ==> is_whitespace(s[run_len(s, ws) as int]) != ws,
    decreases s.len(),
{
    if s.len() > 0 && is_whitespace(s[0]) == ws {
        let t = s.drop_first();
        lemma_run_len_bounds(t, ws);
        let k = run_len(t, ws) as int;
        assert forall|i: int| 0 <= i < k + 1 implies is_whitespace(#[trigger] s[i]) == ws by {
            if i > 0 {
                assert(s[i] == t[i - 1]);
            }
        }
        if k + 1 < s.len() {
            assert(s[k + 1] == t[k]);
        }
    }
}

/// A whitespace suffix of `k` characters that cannot be extended is the one that
/// `trailing_ws` measures.
pub proof fn lemma_trailing_ws_is(s: Seq<char>, k: int)
    requires
        0 <= k <= s.len(),
        forall|i: int| s.len() - k <= i < s.len() ==> is_whitespace(s[i]),
        k == s.len() || !is_whitespace(s[s.len() - k - 1]),
    ensures
        trailing_ws(s) == k,
    decreases k,
{
    if k > 0 {
        let t = s.drop_last();
        assert forall|i: int| t.len() - (k - 1) <= i < t.len() implies is_whitespace(t[i]) by {
            assert(t[i] == s[i]);
        }
        lemma_trailing_ws_is(t, k - 1);
    }
}

/// What `trailing_ws` measures is a whitespace suffix, and it cannot be extended.
pub proof fn lemma_trailing_ws_bounds(s: Seq<char>)
    ensures
        trailing_ws(s) <= s.len(),
        forall|i: int| s.len() - trailing_ws(s) <= i < s.len() ==> is_whitespace(#[trigger] s[i]),
        trailing_ws(s) < s.len() ==> !is_whitespace(s[s.len() - trailing_ws(s) - 1]),
    decreases s.len(),
{
    if s.len() > 0 && is_whitespace(s.last()) {
        let t = s.drop_last();
        lemma_trailing_ws_bounds(t);
        let k = trailing_ws(t) as int;
        assert forall|i: int| s.len() - (k + 1) <= i < s.len() implies is_whitespace(
            #[trigger] s[i],
        ) by {
            if i < s.len() - 1 {
                assert(s[i] == t[i]);
            }
        }
        if k + 1 < s.len() {
            assert(s[s.len() - (k + 1) - 1] == t[t.len() - k - 1]);
        }
    }
}

/// A position `k` that holds `c`, or the end of `s`, with no `c` before it, is the
/// position that `index_of` gives.
pub proof fn lemma_index_of_is(s: Seq<char>, c: char, k: int)
    requires
        0 <= k <= s.len(),
        forall|i: int| 0 <= i < k ==> s[i] != c,
        k == s.len() || s[k] == c,
    ensures
        index_of(s, c) == k,
    decreases k,
{
    if k > 0 {
        let t = s.drop_first();
        assert forall|i: int| 0 <= i < k - 1 implies t[i] != c by {
            assert(t[i] == s[i + 1]);
        }
        lemma_index_of_is(t, c, k - 1);
    }
}

/// `index_of` gives the first position that holds `c`, or the end of `s`.
pub proof fn lemma_index_of_bounds(s: Seq<char>, c: char)
    ensures
        index_of(s, c) <= s.len(),
        forall|i: int| 0 <= i < index_of(s, c) ==> #[trigger] s[i] != c,
        index_of(s, c) < s.len() ==> s[index_of(s, c) as int] == c,
    decreases s.len(),
{
    if !(s.len() == 0 || s[0] == c) {
        let t = s.drop_first();
        lemma_index_of_bounds(t, c);
        let k = index_of(t, c) as int;
        assert forall|i: int| 0 <= i < k + 1 implies #[trigger] s[i] != c by {
            if i > 0 {
                assert(s[i] == t[i - 1]);
            }
        }
        if k + 1 < s.len() {
            assert(s[k + 1] == t[k]);
        }
    }
}

/// Leading whitespace does not change the tokens.
pub proof fn lemma_tokens_skip_ws(s: Seq<char>, k: int)
    requires
        0 <= k <= s.len(),
        forall|i: int| 0 <= i < k ==> is_whitespace(s[i]),
    ensures
        tokens(s) == tokens(s.skip(k)),
    decreases k,
{
    if k > 0 {
        let t = s.drop_first();
        assert forall|i: int| 0 <= i < k - 1 implies is_whitespace(t[i]) by {
            assert(t[i] == s[i + 1]);
        }
        lemma_tokens_skip_ws(t, k - 1);
        assert(t.skip(k - 1) =~= s.skip(k));
    } else {
        assert(s.skip(0) =~= s);
    }
}

/// Whether `c` carries the Unicode `White_Space` property.
pub fn char_is_whitespace(c: char) -> (r: bool)
    ensures
        r == is_whitespace(c),
{
    let n: u32 = c as u32;
    (0x09 <= n && n <= 0x0D) || n == 0x20 || n == 0x85 || n == 0xA0 || n == 0x1680 || (0x2000 <= n
        && n <= 0x200A) || n == 0x2028 || n == 0x2029 || n == 0x202F || n == 0x205F || n == 0x3000
}

/// The characters of `s`, one element each.
pub fn chars_of(s: &str) -> (v: Vec<char>)
    ensures
        v@ == s@,
{
    let mut v: Vec<char> = Vec::new();
    for c in it: s.chars()
        invariant
            v@ == it.seq().take(it.index() as int),
            it.seq() == s@,
    {
        v.push(c);
    }
    v
}

/// The part of `s` between character positions `lo` and `hi`, as an owned string.
pub fn substring(s: &str, lo: usize, hi: usize) -> (r: String)
    requires
        lo <= hi <= s@.len(),
    ensures
        r@ == s@.subrange(lo as int, hi as int),
{
    s.substring_char(lo, hi).to_owned()
}

/// First position at or after `lo` whose character does not have status `ws`, or `hi`.
pub fn skip_run(cs: &[char], lo: usize, hi: usize, ws: bool) -> (r: usize)
    requires
        lo <= hi <= cs@.len(),
    ensures
        lo <= r <= hi,
        r - lo == run_len(cs@.subrange(lo as int, hi as int), ws),
{
    let mut i: usize = lo;
    while i < hi && char_is_whitespace(cs[i]) == ws
        invariant
            lo <= i <= hi <= cs@.len(),
            forall|j: int| lo <= j < i ==> is_whitespace(cs@[j]) == ws,
        decreases hi - i,
    {
        i += 1;
    }
    proof {
        lemma_run_len_is(cs@.subrange(lo as int, hi as int), ws, i - lo);
    }
    i
}

/// End of the part of `lo..hi` that is left when trailing whitespace is dropped.
pub fn skip_trailing_ws(cs: &[char], lo: usize, hi: usize) -> (r: usize)
    requires
        lo <= hi <= cs@.len(),
    ensures
        lo <= r <= hi,
        hi - r == trailing_ws(cs@.subrange(lo as int, hi as int)),
{
    let mut i: usize = hi;
    while i > lo && char_is_whitespace(cs[i - 1])
        invariant
            lo <= i <= hi <= cs@.len(),
            forall|j: int| i <= j < hi ==> is_whitespace(cs@[j]),
        decreases i,
    {
        i -= 1;
    }
    proof {
        lemma_trailing_ws_is(cs@.subrange(lo as int, hi as int), hi - i);
    }
    i
}

/// First position at or after `lo` that holds `c`, or `hi`.
pub fn find_char(cs: &[char], lo: usize, hi: usize, c: char) -> (r: usize)
    requires
        lo <= hi <= cs@.len(),
    ensures
        lo <= r <= hi,
        r - lo == index_of(cs@.subrange(lo as int, hi as int), c),
{
    let mut i: usize = lo;
    while i < hi && cs[i] != c
        invariant
            lo <= i <= hi <= cs@.len(),
            forall|j: int| lo <= j < i ==> cs@[j] != c,
        decreases hi - i,
    {
        i += 1;
    }
    proof {
        lemma_index_of_is(cs@.subrange(lo as int, hi as int), c, i - lo);
    }
    i
}

/// The part of `lo..hi` that is left when whitespace is dropped at both ends.
pub fn trim_span(cs: &[char], lo: usize, hi: usize) -> (r: Span)
    requires
        lo <= hi <= cs@.len(),
    ensures
        r.within(lo as int, hi as int),
        r.of(cs@) == trim(cs@.subrange(lo as int, hi as int)),
{
    let a = skip_run(cs, lo, hi, true);
    let b = skip_trailing_ws(cs, a, hi);
    proof {
        let s = cs@.subrange(lo as int, hi as int);
        let t = s.skip(a - lo);
        assert(t =~= cs@.subrange(a as int, hi as int));
        assert(t.take(t.len() - trailing_ws(t)) =~= cs@.subrange(a as int, b as int));
    }
    Span { lo: a, hi: b }
}

/// The tokens of `lo..hi`, as spans.
pub fn token_spans(cs: &[char], lo: usize, hi: usize) -> (r: Vec<Span>)
    requires
        lo <= hi <= cs@.len(),
    ensures
        all_within(r@, lo as int, hi as int),
        pieces(cs@, r@) == tokens(cs@.subrange(lo as int, hi as int)),
{
    let mut out: Vec<Span> = Vec::new();
    let mut pos: usize = lo;
    proof {
        assert(pieces(cs@, out@) + tokens(cs@.subrange(pos as int, hi as int)) =~= tokens(
            cs@.subrange(lo as int, hi as int),
        ));
    }
    loop
        invariant_except_break
            pieces(cs@, out@) + tokens(cs@.subrange(pos as int, hi as int)) == tokens(
                cs@.subrange(lo as int, hi as int),
            ),
        invariant
            lo <= pos <= hi <= cs@.len(),
            all_within(out@, lo as int, hi as int),
        ensures
            all_within(out@, lo as int, hi as int),
            pieces(cs@, out@) == tokens(cs@.subrange(lo as int, hi as int)),
        decreases hi - pos,
    {
        let a = skip_run(cs, pos, hi, true);
        let ghost rest = cs@.subrange(pos as int, hi as int);
        let ghost s = cs@.subrange(a as int, hi as int);
        proof {
            lemma_run_len_bounds(rest, true);
            lemma_tokens_skip_ws(rest, a - pos);
            assert(rest.skip(a - pos) =~= s);
        }
        if a == hi {
            proof {
                assert(pieces(cs@, out@) + Seq::<Seq<char>>::empty() =~= pieces(cs@, out@));
            }
            break ;
        }
        let b = skip_run(cs, a, hi, false);
        proof {
            lemma_run_len_bounds(s, false);
            assert(s[0] == rest[a - pos]);
            assert(!is_whitespace(s[0]));
            assert(b > a);
            let n = (b - a) as int;
            assert(s.take(n) =~= cs@.subrange(a as int, b as int));
            assert(s.skip(n) =~= cs@.subrange(b as int, hi as int));
            let old_pieces = pieces(cs@, out@);
            let new_pieces = pieces(cs@, out@.push(Span { lo: a, hi: b }));
            assert(new_pieces =~= old_pieces + seq![s.take(n)]);
            assert(old_pieces + (seq![s.take(n)] + tokens(s.skip(n))) =~= new_pieces + tokens(
                s.skip(n),
            ));
        }
        out.push(Span { lo: a, hi: b });
        pos = b;
    }
    out
}

/// The pieces of `lo..hi` between occurrences of `sep`, as spans.
pub fn split_spans(cs: &[char], lo: usize, hi: usize, sep: char) -> (r: Vec<Span>)
    requires
        lo <= hi <= cs@.len(),
    ensures
        r@.len() >= 1,
        all_within(r@, lo as int, hi as int),
        pieces(cs@, r@) == split(cs@.subrange(lo as int, hi as int), sep),
{
    let mut out: Vec<Span> = Vec::new();
    let mut pos: usize = lo;
    proof {
        assert(pieces(cs@, out@) + split(cs@.subrange(pos as int, hi as int), sep) =~= split(
            cs@.subrange(lo as int, hi as int),
            sep,
        ));
    }
    loop
        invariant_except_break
            pieces(cs@, out@) + split(cs@.subrange(pos as int, hi as int), sep) == split(
                cs@.subrange(lo as int, hi as int),
                sep,
            ),
        invariant
            lo <= pos <= hi <= cs@.len(),
            all_within(out@, lo as int, hi as int),
        ensures
            out@.len() >= 1,
            all_within(out@, lo as int, hi as int),
            pieces(cs@, out@) == split(cs@.subrange(lo as int, hi as int), sep),
        decreases hi - pos,
    {
        let i = find_char(cs, pos, hi, sep);
        let ghost s = cs@.subrange(pos as int, hi as int);
        let ghost old_pieces = pieces(cs@, out@);
        if i == hi {
            proof {
                assert(pieces(cs@, out@.push(Span { lo: pos, hi: hi })) =~= old_pieces + seq![s]);
            }
            out.push(Span { lo: pos, hi: hi });
            break ;
        }
        proof {
            let n = (i - pos) as int;
            assert(s.take(n) =~= cs@.subrange(pos as int, i as int));
            assert(s.skip(n + 1) =~= cs@.subrange(i + 1, hi as int));
            let new_pieces = pieces(cs@, out@.push(Span { lo: pos, hi: i }));
            assert(new_pieces =~= old_pieces + seq![s.take(n)]);
            assert(old_pieces + (seq![s.take(n)] + split(s.skip(n + 1), sep)) =~= new_pieces
                + split(s.skip(n + 1), sep));
        }
        out.push(Span { lo: pos, hi: i });
        pos = i + 1;
    }
    out
}

/// Whether `pat` occurs in `lo..hi` of `cs`.
pub fn span_contains(cs: &[char], lo: usize, hi: usize, pat: &[char]) -> (r: bool)
    requires
        lo <= hi <= cs@.len(),
    ensures
        r == contains(cs@.subrange(lo as int, hi as int), pat@),
{
    let n = pat.len();
    let ghost s = cs@.subrange(lo as int, hi as int);
    if hi - lo < n {
        return false;
    }
    let last: usize = hi - n;
    let mut i: usize = lo;
    while i <= last
        invariant
            lo <= i <= last + 1,
            last == hi - n,
            n == pat@.len(),
            lo <= hi <= cs@.len(),
            s == cs@.subrange(lo as int, hi as int),
            forall|k: int| 0 <= k < i - lo ==> !occurs_at(s, pat@, k),
        decreases last + 1 - i,
    {
        let mut j: usize = 0;
        while j < n && cs[i + j] == pat[j]
            invariant
                0 <= j <= n,
                n == pat@.len(),
                i + n <= hi <= cs@.len(),
                forall|k: int| 0 <= k < j ==> cs@[i + k] == pat@[k],
            decreases n - j,
        {
            j += 1;
        }
        if j == n {
            proof {
                assert(s.subrange(i - lo, i - lo + n) =~= pat@);
                assert(occurs_at(s, pat@, i - lo));
            }
            return true;
        }
        proof {
            let k = (i - lo) as int;
            assert(s.subrange(k, k + n)[j as int] == cs@[i + j]);
            assert(!occurs_at(s, pat@, k));
        }
        i += 1;
    }
    false
}

/// Whether two strings hold the same characters.
pub fn same_text(a: &str, b: &str) -> (r: bool)
    ensures
        r == (a@ == b@),
{
    let x = chars_of(a);
    let y = chars_of(b);
    if x.len() != y.len() {
        return false;
    }
    let mut i: usize = 0;
    while i < x.len()
        invariant
            i <= x@.len(),
            x@.len() == y@.len(),
            x@ == a@,
            y@ == b@,
            forall|j: int| 0 <= j < i ==> x@[j] == y@[j],
        decreases x@.len() - i,
    {
        if x[i] != y[i] {
            return false;
        }
        i += 1;
    }
    assert(x@ =~= y@);
    true
}

/// Whether the characters `lo..hi` of `cs` are those of `word`.
pub fn span_is(cs: &[char], lo: usize, hi: usize, word: &str) -> (r: bool)
    requires
        lo <= hi <= cs@.len(),
    ensures
        r == (cs@.subrange(lo as int, hi as int) == word@),
{
    let w = chars_of(word);
    let ghost s = cs@.subrange(lo as int, hi as int);
    if hi - lo != w.len() {
        return false;
    }
    let mut i: usize = 0;
    while i < w.len()
        invariant
            i <= w@.len(),
            lo <= hi <= cs@.len(),
            hi - lo == w@.len(),
            w@ == word@,
            s == cs@.subrange(lo as int, hi as int),
            forall|j: int| 0 <= j < i ==> s[j] == w@[j],
        decreases w@.len() - i,
    {
        if cs[lo + i] != w[i] {
            assert(s[i as int] != w@[i as int]);
            return false;
        }
        i += 1;
    }
    assert(s =~= w@);
    true
}

/// Whether `word` occurs in `s`.
pub fn text_contains(s: &str, word: &str) -> (r: bool)
    ensures
        r == contains(s@, word@),
{
    let cs = chars_of(s);
    let w = chars_of(word);
    assert(cs@.subrange(0, cs@.len() as int) =~= cs@);
    span_contains(cs.as_slice(), 0, cs.len(), w.as_slice())
}

/// Whether `s` holds a whitespace character.
pub fn text_has_whitespace(s: &str) -> (r: bool)
    ensures
        r == exists|i: int| 0 <= i < s@.len() && is_whitespace(#[trigger] s@[i]),
{
    let cs = chars_of(s);
    let mut i: usize = 0;
    while i < cs.len()
        invariant
            i <= cs@.len(),
            cs@ == s@,
            forall|j: int| 0 <= j < i ==> !is_whitespace(#[trigger] cs@[j]),
        decreases cs@.len() - i,
    {
        if char_is_whitespace(cs[i]) {
            return true;
        }
        i += 1;
    }
    false
}

/// Each span of `spans`, without the whitespace at its ends.
pub(crate) fn trim_spans(cs: &[char], spans: &Vec<Span>, Ghost(lo): Ghost<int>, Ghost(hi): Ghost<int>) -> (r:
    Vec<Span>)
    requires
        0 <= lo <= hi <= cs@.len(),
        all_within(spans@, lo, hi),
    ensures
        r@.len() == spans@.len(),
        all_within(r@, lo, hi),
        forall|i: int| 0 <= i < r@.len() ==> (#[trigger] r@[i]).of(cs@) == trim(spans@[i].of(cs@)),
{
    let mut out: Vec<Span> = Vec::new();
    let mut i: usize = 0;
    while i < spans.len()
        invariant
            i <= spans@.len(),
            out@.len() == i,
            0 <= lo <= hi <= cs@.len(),
            all_within(spans@, lo, hi),
            all_within(out@, lo, hi),
            forall|j: int| 0 <= j < i ==> (#[trigger] out@[j]).of(cs@) == trim(spans@[j].of(cs@)),
        decreases spans@.len() - i,
    {
        let sp = spans[i];
        assert(sp.within(lo, hi));
        let t = trim_span(cs, sp.lo, sp.hi);
        out.push(t);
        i += 1;
    }
    out
}

/// Appends `part` to `out`, after `sep` unless it is the first part. `out` then holds
/// the parts so far, joined.
pub(crate) fn push_part(
    out: &mut String,
    Ghost(parts): Ghost<Seq<Seq<char>>>,
    first: bool,
    part: &str,
    sep: &str,
)
    requires
        old(out)@ == join(parts, sep@),
        first == (parts.len() == 0),
    ensures
        final(out)@ == join(parts.push(part@), sep@),
{
    let ghost next = parts.push(part@);
    proof {
        assert(next.drop_last() =~= parts);
        assert(next.last() == part@);
    }
    if !first {
        out.append(sep);
    }
    out.append(part);
    proof {
        if first {
            assert(out@ =~= part@);
        }
    }
}

/// The pieces that the spans from position `from` on cover, joined with `sep`.
pub fn join_spans(line: &str, cs: &[char], spans: &Vec<Span>, from: usize, sep: &str) -> (r:
    String)
    requires
        cs@ == line@,
        from <= spans@.len(),
        all_within(spans@, 0, cs@.len() as int),
    ensures
        r@ == join(pieces(cs@, spans@).skip(from as int), sep@),
{
    let mut out = String::new();
    let ghost all = pieces(cs@, spans@).skip(from as int);
    let mut i: usize = from;
    proof {
        assert(all.take(0) =~= Seq::<Seq<char>>::empty());
    }
    while i < spans.len()
        invariant
            from <= i <= spans@.len(),
            cs@ == line@,
            all_within(spans@, 0, cs@.len() as int),
            all == pieces(cs@, spans@).skip(from as int),
            out@ == join(all.take(i - from), sep@),
        decreases spans@.len() - i,
    {
        let sp = spans[i];
        assert(sp.within(0, cs@.len() as int));
        let piece = substring(line, sp.lo, sp.hi);
        proof {
            assert(all.take(i - from).push(piece@) =~= all.take(i + 1 - from));
        }
        push_part(&mut out, Ghost(all.take(i - from)), i == from, piece.as_str(), sep);
        i += 1;
    }
    proof {
        assert(all.take(i - from) =~= all);
    }
    out
}

/// The lines of a text, without their line ends.
pub fn text_lines(text: &str) -> (r: Vec<String>)
    ensures
        texts(r@) == lines(text@),
{
    let chars = chars_of(text);
    let cs = chars.as_slice();
    let n = cs.len();
    assert(cs@.subrange(0, n as int) =~= text@);
    let spans = split_spans(cs, 0, n, '\n');
    let ghost parts = split(text@, '\n');
    let ghost ended = Seq::new((parts.len() - 1) as nat, |i: int| strip_cr(parts[i]));
    let mut out: Vec<String> = Vec::new();
    let last: usize = spans.len() - 1;
    let mut i: usize = 0;
    while i < last
        invariant
            i <= last,
            last == spans@.len() - 1,
            cs@ == text@,
            all_within(spans@, 0, cs@.len() as int),
            pieces(cs@, spans@) == parts,
            out@.len() == i,
            forall|j: int| 0 <= j < i ==> (#[trigger] out@[j])@ == strip_cr(parts[j]),
        decreases last - i,
    {
        let sp = spans[i];
        assert(sp.within(0, cs@.len() as int));
        assert(parts[i as int] == sp.of(cs@));
        let hi: usize = if sp.lo < sp.hi && cs[sp.hi - 1] == '\r' {
            sp.hi - 1
        } else {
            sp.hi
        };
        let line = substring(text, sp.lo, hi);
        assert(line@ =~= strip_cr(parts[i as int]));
        out.push(line);
        i += 1;
    }
    assert(texts(out@) =~= ended);
    let sp = spans[last];
    assert(sp.within(0, cs@.len() as int));
    assert(parts[last as int] == sp.of(cs@));
    if sp.lo < sp.hi {
        let line = substring(text, sp.lo, sp.hi);
        out.push(line);
        assert(texts(out@) =~= ended.push(parts.last()));
    }
    out
}

/// The text of lines: each line, followed by a line feed.
pub fn lines_text(lines: &Vec<String>) -> (r: String)
    ensures
        r@ == text_of_lines(texts(lines@)),
{
    let mut out = String::new();
    let ghost all = texts(lines@);
    let mut i: usize = 0;
    proof {
        reveal_strlit("\n");
        assert(all.take(0) =~= Seq::<Seq<char>>::empty());
    }
    while i < lines.len()
        invariant
            i <= lines@.len(),
            all == texts(lines@),
            out@ == text_of_lines(all.take(i as int)),
            "\n"@ =~= seq!['\n'],
        decreases lines@.len() - i,
    {
        proof {
            let next = all.take(i + 1);
            assert(next.drop_last() =~= all.take(i as int));
            assert(next.last() == lines@[i as int]@);
        }
        out.append(lines[i].as_str());
        out.append("\n");
        i += 1;
    }
    proof {
        assert(all.take(i as int) =~= all);
    }
    out
}

} // verus!
