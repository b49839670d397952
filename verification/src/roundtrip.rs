//! Round-trip laws of the line grammar: which entries are read back from their own
//! lines, and that every entry that a line gives is one of them, but for a few that
//! writing has to escape.

use crate::decimal::{decimal, is_digit, lemma_decimal_digits, lemma_parse_decimal};
use crate::entry::{
    ActionEntryView, CommentView, KeyEntryView, KeyInputType, ReaperEntryView, ScriptEntryView,
    KNOWN_ACTION_BITS,
};
use crate::grammar::{
    action_line, comment_line, comment_part, data_part, default_comment, entry_line, escape,
    has_whitespace, key_line, key_value, parse_comment, parse_line, quote_if_spaced, script_line,
    trimmed,
};
use crate::keycodes::lemma_key_round_trip;
use crate::modifiers::{lemma_code_round_trip, lemma_modifiers_round_trip};
use crate::sections::lemma_section_round_trip;
use crate::special_inputs::lemma_special_code_canonical;
use crate::text::{
    index_of, is_whitespace, join, lemma_index_of_bounds, split, tokens, trim,
};
use crate::text_laws::{
    all_free_of, all_words, free_of, is_word, lemma_free_of_concat, lemma_free_of_subrange,
    lemma_index_of_concat, lemma_index_of_free, lemma_join_free, lemma_join_words_last,
    lemma_split_cons, lemma_split_free, lemma_split_pieces, lemma_split_two, lemma_tokens_are_words,
    lemma_tokens_join, lemma_tokens_single, lemma_tokens_word_space,
    lemma_trim_free, lemma_trim_is, lemma_trim_span,
};
use vstd::prelude::*;

verus! {

/// A keyboard binding that a line can stand for: its command is a word without `#`,
/// its modifiers are representable, and they carry the special-input mark exactly
/// when the input is a special one, which then is one that reading a code can give.
pub open spec fn stable_key(k: KeyEntryView) -> bool {
    &&& is_word(k.command_id)
    &&& free_of(k.command_id, '#')
    &&& k.modifiers.representable()
    &&& match k.key_input {
        KeyInputType::Regular(_) => !k.modifiers.spec_is_special_input(),
        KeyInputType::Special(s) => k.modifiers.spec_is_special_input() && s.canonical(),
    }
}

/// `r` is the binding `k` with some comment: the same modifiers, input, command and
/// section.
pub open spec fn same_binding(k: KeyEntryView, r: KeyEntryView) -> bool {
    &&& r.modifiers == k.modifiers
    &&& r.key_input == k.key_input
    &&& r.command_id == k.command_id
    &&& r.section == k.section
    &&& r.comment is Some
}

/// The line of `k` is read back as the binding `k` with a comment.
pub open spec fn key_reads_back(k: KeyEntryView) -> bool {
    match parse_line(key_line(k)) {
        Ok(ReaperEntryView::Key(r)) => same_binding(k, r),
        _ => false,
    }
}

/// The digits of a number make a word without `#` and `"`.
pub proof fn lemma_decimal_word(n: nat)
    ensures
        is_word(decimal(n)),
        free_of(decimal(n), '#'),
        free_of(decimal(n), '"'),
{
    lemma_decimal_digits(n);
    let d = decimal(n);
    assert forall|i: int| 0 <= i < d.len() implies !is_whitespace(#[trigger] d[i]) by {
        assert(is_digit(d[i]));
    }
    assert forall|i: int| 0 <= i < d.len() implies #[trigger] d[i] != '#' by {
        assert(is_digit(d[i]));
    }
    assert forall|i: int| 0 <= i < d.len() implies #[trigger] d[i] != '"' by {
        assert(is_digit(d[i]));
    }
}

/// Three words, each followed by a space, are the first three tokens.
pub proof fn lemma_tokens_header(w0: Seq<char>, w1: Seq<char>, w2: Seq<char>, rest: Seq<char>)
    requires
        is_word(w0),
        is_word(w1),
        is_word(w2),
    ensures
        tokens(w0 + (seq![' '] + (w1 + (seq![' '] + (w2 + (seq![' '] + rest)))))) == seq![
            w0,
            w1,
            w2,
        ] + tokens(rest),
{
    let sp = seq![' '];
    lemma_tokens_word_space(w2, rest);
    lemma_tokens_word_space(w1, w2 + (sp + rest));
    lemma_tokens_word_space(w0, w1 + (sp + (w2 + (sp + rest))));
    assert(seq![w0] + (seq![w1] + (seq![w2] + tokens(rest))) =~= seq![w0, w1, w2] + tokens(rest));
}

/// A written comment is read as a comment.
#[verifier::rlimit(40)]
pub proof fn lemma_comment_line_parses(c: CommentView)
    ensures
        parse_comment(comment_line(c)) is Some,
{
    reveal_strlit("# ");
    reveal_strlit(" : ");
    let cl = comment_line(c);
    let colon: int = (2 + c.section.len() + 1) as int;
    let head = "# "@ + c.section + " : "@;
    assert(head[0] == '#');
    assert(head[colon] == ':');
    assert(cl[0] == head[0]);
    assert(cl[colon] == head[colon]);
    let (a, b) = lemma_trim_span(cl);
    let t = trim(cl);
    assert(!is_whitespace(cl[0]));
    assert(!is_whitespace(cl[colon]));
    assert(t[0] == cl[0]);
    let u = t.skip(1);
    assert(u[colon - 1] == cl[colon]);
    let (a2, b2) = lemma_trim_span(u);
    let v = trim(u);
    assert(!is_whitespace(u[colon - 1]));
    assert(v[colon - 1 - a2] == ':');
    lemma_split_two(v, ':');
    assert(trimmed(split(v, ':')).len() >= 2);
}

/// Every stable keyboard binding is read back from its own line, with a comment.
#[verifier::rlimit(40)]
pub proof fn lemma_key_line_reads_back(k: KeyEntryView)
    requires
        stable_key(k),
    ensures
        key_reads_back(k),
{
    reveal_strlit("KEY ");
    reveal_strlit("KEY");
    reveal_strlit(" ");
    reveal_strlit("# ");
    let sp = seq![' '];
    let word = "KEY"@;
    let code = k.modifiers.spec_reaper_code() as nat;
    let key = key_value(k.key_input) as nat;
    let sec = k.section.spec_as_u32() as nat;
    let dm = decimal(code);
    let dk = decimal(key);
    let ds = decimal(sec);
    let cmd = k.command_id;
    let c = match k.comment {
        Some(c) => c,
        None => default_comment(k),
    };
    let cl = comment_line(c);
    let core = word + (sp + (dm + (sp + (dk + (sp + (cmd + (sp + ds)))))));
    let data = core + sp;
    let line = key_line(k);
    assert("KEY "@ =~= word + sp);
    assert(" "@ =~= sp);
    assert(line =~= data + cl);
    lemma_decimal_word(code);
    lemma_decimal_word(key);
    lemma_decimal_word(sec);
    assert(is_word(word));
    assert(free_of(word, '#'));
    assert(free_of(sp, '#'));
    // The tokens of the data part.
    lemma_tokens_header(word, dm, dk, cmd + (sp + ds));
    lemma_tokens_word_space(cmd, ds);
    lemma_tokens_single(ds);
    assert(tokens(core) =~= seq![word, dm, dk, cmd, ds]);
    // The first `#` starts the comment.
    lemma_free_of_concat(cmd, sp + ds, '#');
    lemma_free_of_concat(sp, ds, '#');
    lemma_free_of_concat(sp, cmd + (sp + ds), '#');
    lemma_free_of_concat(dk, sp + (cmd + (sp + ds)), '#');
    lemma_free_of_concat(sp, dk + (sp + (cmd + (sp + ds))), '#');
    lemma_free_of_concat(dm, sp + (dk + (sp + (cmd + (sp + ds)))), '#');
    lemma_free_of_concat(sp, dm + (sp + (dk + (sp + (cmd + (sp + ds))))), '#');
    lemma_free_of_concat(word, sp + (dm + (sp + (dk + (sp + (cmd + (sp + ds)))))), '#');
    lemma_free_of_concat(core, sp, '#');
    assert(cl[0] == '#');
    lemma_index_of_concat(data, cl, '#');
    assert(line.take(data.len() as int) =~= data);
    assert(line.skip(data.len() as int) =~= cl);
    // Trimming drops the space before the comment.
    assert(data[0] == 'K');
    assert(data[core.len() - 1] == ds.last());
    assert(!is_whitespace(ds[ds.len() - 1]));
    assert(data[core.len() as int] == ' ');
    lemma_trim_is(data, 0, core.len() as int);
    assert(data.subrange(0, core.len() as int) =~= core);
    assert(data_part(line) == core);
    assert(comment_part(line) == Some(cl));
    // Each field is read back.
    lemma_parse_decimal(code, 255);
    lemma_parse_decimal(key, 65535);
    lemma_parse_decimal(sec, u32::MAX as nat);
    lemma_modifiers_round_trip(k.modifiers);
    lemma_section_round_trip(k.section);
    match k.key_input {
        KeyInputType::Regular(key_code) => {
            lemma_key_round_trip(key_code);
        },
        KeyInputType::Special(_) => {},
    }
    lemma_comment_line_parses(c);
}

/// A text that is written as it is inside quotes: it holds no backslash, no double
/// quote and no `#`.
pub open spec fn plain(s: Seq<char>) -> bool {
    free_of(s, '\\') && free_of(s, '"') && free_of(s, '#')
}

/// A script binding that a line can stand for: its command is not empty, its command
/// and description are plain, and its path holds no double quote and no `#`.
pub open spec fn stable_script(s: ScriptEntryView) -> bool {
    &&& s.command_id.len() > 0
    &&& plain(s.command_id)
    &&& plain(s.description)
    &&& free_of(s.path, '"')
    &&& free_of(s.path, '#')
}

/// A text without backslash and double quote is written as it is.
pub proof fn lemma_escape_plain(s: Seq<char>)
    requires
        free_of(s, '\\'),
        free_of(s, '"'),
    ensures
        escape(s) == s,
    decreases s.len(),
{
    if s.len() > 0 {
        let front = s.drop_last();
        lemma_free_of_subrange(s, 0, s.len() - 1, '\\');
        lemma_free_of_subrange(s, 0, s.len() - 1, '"');
        lemma_escape_plain(front);
        assert(s[s.len() - 1] != '\\' && s[s.len() - 1] != '"');
        assert(front + seq![s.last()] =~= s);
    } else {
        assert(escape(s) =~= s);
    }
}

/// The start of a line: the tag and two numbers, each followed by a space, then
/// `rest`.
#[verifier::opaque]
spec fn header(word: Seq<char>, a: Seq<char>, b: Seq<char>, rest: Seq<char>) -> Seq<char> {
    let sp = seq![' '];
    word + (sp + (a + (sp + (b + (sp + rest)))))
}

/// The start of a line holds no character that its pieces do not hold.
proof fn lemma_header_free(word: Seq<char>, a: Seq<char>, b: Seq<char>, rest: Seq<char>, c: char)
    requires
        c != ' ',
        free_of(word, c),
        free_of(a, c),
        free_of(b, c),
        free_of(rest, c),
    ensures
        free_of(header(word, a, b, rest), c),
{
    reveal(header);
    let sp = seq![' '];
    assert(free_of(sp, c));
    lemma_free_of_concat(sp, rest, c);
    lemma_free_of_concat(b, sp + rest, c);
    lemma_free_of_concat(sp, b + (sp + rest), c);
    lemma_free_of_concat(a, sp + (b + (sp + rest)), c);
    lemma_free_of_concat(sp, a + (sp + (b + (sp + rest))), c);
    lemma_free_of_concat(word, sp + (a + (sp + (b + (sp + rest)))), c);
}

/// The tokens of the start of a line.
proof fn lemma_header_tokens(word: Seq<char>, a: Seq<char>, b: Seq<char>, rest: Seq<char>)
    requires
        is_word(word),
        is_word(a),
        is_word(b),
    ensures
        tokens(header(word, a, b, rest)) == seq![word, a, b] + tokens(rest),
        tokens(header(word, a, b, rest)).len() == 3 + tokens(rest).len(),
        tokens(header(word, a, b, rest))[0] == word,
        tokens(header(word, a, b, rest))[1] == a,
        tokens(header(word, a, b, rest))[2] == b,
        forall|i: int|
            0 <= i < tokens(rest).len() ==> tokens(header(word, a, b, rest))[3 + i] == tokens(
                rest,
            )[i],
{
    reveal(header);
    lemma_tokens_header(word, a, b, rest);
}

/// The start of a line begins as its tag begins, ends as its rest ends, and takes
/// what is added to its rest.
proof fn lemma_header_ends(word: Seq<char>, a: Seq<char>, b: Seq<char>, rest: Seq<char>)
    requires
        word.len() > 0,
    ensures
        header(word, a, b, rest).len() > rest.len(),
        header(word, a, b, rest)[0] == word[0],
        rest.len() > 0 ==> header(word, a, b, rest).last() == rest.last(),
        forall|more: Seq<char>| #[trigger]
            header(word, a, b, rest + more) == header(word, a, b, rest) + more,
{
    reveal(header);
    let h = header(word, a, b, rest);
    assert forall|more: Seq<char>| #[trigger]
        header(word, a, b, rest + more) == header(word, a, b, rest) + more by {
        assert(header(word, a, b, rest + more) =~= header(word, a, b, rest) + more);
    }
}

/// What follows the numbers of a script line: the command as it is written, the
/// description in quotes, and `tail`.
#[verifier::opaque]
spec fn script_rest(cq: Seq<char>, desc: Seq<char>, tail: Seq<char>) -> Seq<char> {
    let sp = seq![' '];
    let q = seq!['"'];
    cq + (sp + (q + (desc + (q + tail))))
}

/// A script line as it is written, piece after piece, is its start and its rest.
proof fn lemma_script_shape(
    t4: Seq<char>,
    l1: Seq<char>,
    l2: Seq<char>,
    word: Seq<char>,
    dt: Seq<char>,
    ds: Seq<char>,
    cq: Seq<char>,
    desc: Seq<char>,
    pq: Seq<char>,
)
    requires
        t4 == word + seq![' '],
        l1 == seq![' ', '"'],
        l2 == seq!['"', ' '],
    ensures
        t4 + dt + seq![' '] + ds + seq![' '] + cq + l1 + desc + l2 + pq == header(
            word,
            dt,
            ds,
            script_rest(cq, desc, seq![' '] + pq),
        ),
{
    reveal(header);
    reveal(script_rest);
    let sp = seq![' '];
    let q = seq!['"'];
    assert(l1 =~= sp + q);
    assert(l2 =~= q + sp);
    assert(t4 + dt + sp + ds + sp + cq + l1 + desc + l2 + pq =~= header(
        word,
        dt,
        ds,
        script_rest(cq, desc, sp + pq),
    ));
}

/// The rest of a script line holds no `#` that its pieces do not hold, ends with a
/// `"` where nothing follows the description, and takes what is added to its tail.
proof fn lemma_script_rest(cq: Seq<char>, desc: Seq<char>, tail: Seq<char>)
    ensures
        free_of(cq, '#') && free_of(desc, '#') && free_of(tail, '#') ==> free_of(
            script_rest(cq, desc, tail),
            '#',
        ),
        script_rest(cq, desc, Seq::empty()).len() > 0,
        script_rest(cq, desc, Seq::empty()).last() == '"',
        script_rest(cq, desc, tail) == script_rest(cq, desc, Seq::empty()) + tail,
        script_rest(cq, desc, tail) == cq + (seq![' '] + (seq!['"'] + (desc + (seq!['"']
            + tail)))),
{
    reveal(script_rest);
    let sp = seq![' '];
    let q = seq!['"'];
    if free_of(cq, '#') && free_of(desc, '#') && free_of(tail, '#') {
        assert(free_of(sp, '#'));
        assert(free_of(q, '#'));
        lemma_free_of_concat(q, tail, '#');
        lemma_free_of_concat(desc, q + tail, '#');
        lemma_free_of_concat(q, desc + (q + tail), '#');
        lemma_free_of_concat(sp, q + (desc + (q + tail)), '#');
        lemma_free_of_concat(cq, sp + (q + (desc + (q + tail))), '#');
    }
    assert(script_rest(cq, desc, tail) =~= script_rest(cq, desc, Seq::empty()) + tail);
}

/// A text in quotes, or a word as it is, starts and ends without whitespace and
/// holds no `#` that the text does not hold.
proof fn lemma_quote_if_spaced(s: Seq<char>)
    requires
        s.len() > 0,
    ensures
        quote_if_spaced(s).len() > 0,
        !is_whitespace(quote_if_spaced(s)[0]),
        !is_whitespace(quote_if_spaced(s).last()),
        free_of(s, '#') ==> free_of(quote_if_spaced(s), '#'),
        has_whitespace(s) ==> quote_if_spaced(s) == seq!['"'] + (s + seq!['"']),
        !has_whitespace(s) ==> quote_if_spaced(s) == s && is_word(s),
{
    reveal_strlit("\"");
    let q = seq!['"'];
    if has_whitespace(s) {
        assert("\""@ =~= q);
        assert(quote_if_spaced(s) =~= q + (s + q));
        if free_of(s, '#') {
            assert(free_of(q, '#'));
            lemma_free_of_concat(s, q, '#');
            lemma_free_of_concat(q, s + q, '#');
        }
    } else {
        assert(!is_whitespace(s[0]));
        assert(!is_whitespace(s[s.len() - 1]));
    }
}

/// What follows the description of a script line, once the line is trimmed: nothing
/// for an empty path, else a space and the path as it is written.
spec fn script_tail(path: Seq<char>) -> Seq<char> {
    if path.len() == 0 {
        Seq::empty()
    } else {
        seq![' '] + quote_if_spaced(path)
    }
}

/// The data part of the line of a stable script binding.
spec fn script_before(s: ScriptEntryView) -> Seq<char> {
    header(
        "SCR"@,
        decimal(s.termination_behavior.spec_as_u32() as nat),
        decimal(s.section.spec_as_u32() as nat),
        script_rest(quote_if_spaced(s.command_id), s.description, script_tail(s.path)),
    )
}

/// The pieces between the double quotes of what follows the description, and the
/// path among them.
proof fn lemma_script_tail(path: Seq<char>)
    requires
        free_of(path, '"'),
    ensures
        has_whitespace(path) ==> split(script_tail(path), '"') == seq![
            seq![' '],
            path,
            Seq::<char>::empty(),
        ],
        !has_whitespace(path) ==> split(script_tail(path), '"') == seq![script_tail(path)] && trim(
            script_tail(path),
        ) == path,
{
    let sp = seq![' '];
    let q = seq!['"'];
    let tail = script_tail(path);
    let none = Seq::<char>::empty();
    assert(free_of(sp, '"'));
    if path.len() == 0 {
        lemma_trim_is(tail, 0, 0);
        assert(tail.subrange(0, 0) =~= path);
        lemma_split_free(tail, '"');
    } else {
        lemma_quote_if_spaced(path);
        if has_whitespace(path) {
            assert(tail =~= sp + (q + (path + (q + none))));
            lemma_split_cons(sp, path + (q + none), '"');
            lemma_split_cons(path, none, '"');
            lemma_split_free(none, '"');
            assert(seq![sp] + (seq![path] + seq![none]) =~= seq![sp, path, none]);
        } else {
            lemma_free_of_concat(sp, path, '"');
            assert(tail[0] == ' ');
            assert(tail[1] == path[0]);
            assert(tail[tail.len() - 1] == path[path.len() - 1]);
            lemma_trim_is(tail, 1, tail.len() as int);
            assert(tail.subrange(1, tail.len() as int) =~= path);
            lemma_split_free(tail, '"');
        }
    }
}

/// Trimming a line that starts and ends without whitespace, followed by a space and
/// by `more`: the line is left as it is when `more` ends without whitespace, and
/// loses the space when `more` is empty.
proof fn lemma_trim_line(stem: Seq<char>, more: Seq<char>)
    requires
        stem.len() > 0,
        !is_whitespace(stem[0]),
        !is_whitespace(stem.last()),
        more.len() > 0 ==> !is_whitespace(more.last()),
    ensures
        trim(stem + (seq![' '] + more)) == if more.len() == 0 {
            stem
        } else {
            stem + (seq![' '] + more)
        },
{
    let line = stem + (seq![' '] + more);
    assert(line[0] == stem[0]);
    if more.len() == 0 {
        assert(line[stem.len() - 1] == stem[stem.len() - 1]);
        assert(line[stem.len() as int] == ' ');
        lemma_trim_is(line, 0, stem.len() as int);
        assert(line.subrange(0, stem.len() as int) =~= stem);
    } else {
        assert(line[line.len() - 1] == more[more.len() - 1]);
        lemma_trim_is(line, 0, line.len() as int);
        assert(line.subrange(0, line.len() as int) =~= line);
    }
}

/// The line of a stable script binding has no comment part, and its data part is
/// the line without the space that an empty path leaves at its end.
#[verifier::rlimit(40)]
proof fn lemma_script_data_part(s: ScriptEntryView)
    requires
        stable_script(s),
    ensures
        data_part(script_line(s)) == script_before(s),
{
    let sp = seq![' '];
    let none = Seq::<char>::empty();
    let word = "SCR"@;
    let dt = decimal(s.termination_behavior.spec_as_u32() as nat);
    let ds = decimal(s.section.spec_as_u32() as nat);
    let cq = quote_if_spaced(s.command_id);
    let pq = quote_if_spaced(s.path);
    let desc = s.description;
    let line = script_line(s);
    let stem = header(word, dt, ds, script_rest(cq, desc, none));
    assert(line == header(word, dt, ds, script_rest(cq, desc, sp + pq))) by {
        reveal_strlit("SCR ");
        reveal_strlit("SCR");
        reveal_strlit(" ");
        reveal_strlit(" \"");
        reveal_strlit("\" ");
        lemma_escape_plain(s.command_id);
        lemma_escape_plain(s.description);
        assert("SCR "@ =~= word + sp);
        assert(" "@ =~= sp);
        assert(" \""@ =~= seq![' ', '"']);
        assert("\" "@ =~= seq!['"', ' ']);
        lemma_script_shape("SCR "@, " \""@, "\" "@, word, dt, ds, cq, desc, pq);
    }
    assert(word.len() > 0 && word[0] == 'S' && free_of(word, '#')) by {
        reveal_strlit("SCR");
    }
    lemma_script_rest(cq, desc, sp + pq);
    lemma_script_rest(cq, desc, none);
    lemma_header_ends(word, dt, ds, script_rest(cq, desc, none));
    assert(line == stem + (sp + pq));
    assert(stem.last() == '"');
    lemma_decimal_word(s.termination_behavior.spec_as_u32() as nat);
    lemma_decimal_word(s.section.spec_as_u32() as nat);
    lemma_quote_if_spaced(s.command_id);
    if s.path.len() == 0 {
        assert(pq =~= none);
    } else {
        lemma_quote_if_spaced(s.path);
    }
    lemma_free_of_concat(sp, pq, '#');
    assert(free_of(sp, '#'));
    lemma_header_free(word, dt, ds, script_rest(cq, desc, sp + pq), '#');
    lemma_index_of_free(line, '#');
    assert(line.take(line.len() as int) =~= line);
    lemma_trim_line(stem, pq);
    if s.path.len() == 0 {
        assert(script_tail(s.path) == none);
    } else {
        assert(script_tail(s.path) == sp + pq);
    }
}

/// The command, the description and the path are read back from the data part of
/// the line of a stable script binding whose command is written in quotes.
#[verifier::rlimit(40)]
proof fn lemma_script_texts_quoted(s: ScriptEntryView)
    requires
        stable_script(s),
        has_whitespace(s.command_id),
    ensures
        crate::grammar::script_texts(script_before(s), tokens(script_before(s))) == Ok::<
            _,
            crate::error::ParseErrorView,
        >((s.command_id, s.description, s.path)),
{
    let sp = seq![' '];
    let q = seq!['"'];
    let none = Seq::<char>::empty();
    let word = "SCR"@;
    let dt = decimal(s.termination_behavior.spec_as_u32() as nat);
    let ds = decimal(s.section.spec_as_u32() as nat);
    lemma_decimal_word(s.termination_behavior.spec_as_u32() as nat);
    lemma_decimal_word(s.section.spec_as_u32() as nat);
    let cmd = s.command_id;
    let desc = s.description;
    let tail = script_tail(s.path);
    let before = script_before(s);
    lemma_quote_if_spaced(cmd);
    let x0 = header(word, dt, ds, none);
    let r3 = desc + (q + tail);
    let r2 = sp + (q + r3);
    let r1 = cmd + (q + r2);
    assert(before == x0 + (q + r1)) by {
        lemma_script_rest(quote_if_spaced(cmd), desc, tail);
        assert(script_rest(quote_if_spaced(cmd), desc, tail) =~= none + (q + r1));
        assert(word.len() > 0) by {
            reveal_strlit("SCR");
        }
        lemma_header_ends(word, dt, ds, none);
    }
    assert(is_word(word) && free_of(word, '"')) by {
        reveal_strlit("SCR");
    }
    assert(free_of(none, '"'));
    lemma_header_free(word, dt, ds, none, '"');
    lemma_header_tokens(word, dt, ds, none);
    assert(tokens(x0).len() == 3);
    assert(free_of(sp, '"'));
    lemma_split_cons(x0, r1, '"');
    lemma_split_cons(cmd, r2, '"');
    lemma_split_cons(sp, r3, '"');
    lemma_split_cons(desc, tail, '"');
    lemma_script_tail(s.path);
    let pieces = split(before, '"');
    assert(pieces =~= seq![x0, cmd, sp, desc] + split(tail, '"'));
    if has_whitespace(s.path) {
        assert(pieces =~= seq![x0, cmd, sp, desc, sp, s.path, none]);
    } else {
        assert(pieces =~= seq![x0, cmd, sp, desc, tail]);
    }
}

/// The command, the description and the path are read back from the data part of
/// the line of a stable script binding whose command is written without quotes.
#[verifier::rlimit(40)]
proof fn lemma_script_texts_bare(s: ScriptEntryView)
    requires
        stable_script(s),
        !has_whitespace(s.command_id),
    ensures
        crate::grammar::script_texts(script_before(s), tokens(script_before(s))) == Ok::<
            _,
            crate::error::ParseErrorView,
        >((s.command_id, s.description, s.path)),
{
    let sp = seq![' '];
    let q = seq!['"'];
    let none = Seq::<char>::empty();
    let word = "SCR"@;
    let dt = decimal(s.termination_behavior.spec_as_u32() as nat);
    let ds = decimal(s.section.spec_as_u32() as nat);
    lemma_decimal_word(s.termination_behavior.spec_as_u32() as nat);
    lemma_decimal_word(s.section.spec_as_u32() as nat);
    let cmd = s.command_id;
    let desc = s.description;
    let tail = script_tail(s.path);
    let before = script_before(s);
    lemma_quote_if_spaced(cmd);
    assert(is_word(cmd));
    assert(is_word(word) && free_of(word, '"')) by {
        reveal_strlit("SCR");
    }
    assert(free_of(sp, '"'));
    let r3 = desc + (q + tail);
    let x1 = header(word, dt, ds, cmd + (sp + none));
    lemma_script_rest(cmd, desc, tail);
    assert(before == header(word, dt, ds, cmd + (sp + (q + r3))));
    assert(before == x1 + (q + r3)) by {
        assert(cmd + (sp + (q + r3)) =~= (cmd + (sp + none)) + (q + r3));
        lemma_header_ends(word, dt, ds, cmd + (sp + none));
    }
    // The tokens before the first quote: the tag, two numbers and the command.
    lemma_tokens_word_space(cmd, none);
    lemma_header_tokens(word, dt, ds, cmd + (sp + none));
    assert(tokens(x1).len() == 4);
    // The fourth token of the data part is the command.
    lemma_tokens_word_space(cmd, q + r3);
    lemma_header_tokens(word, dt, ds, cmd + (sp + (q + r3)));
    assert(tokens(cmd + (sp + (q + r3)))[0] == cmd);
    assert(tokens(before)[3] == cmd);
    // The pieces between the quotes.
    lemma_free_of_concat(sp, none, '"');
    lemma_free_of_concat(cmd, sp + none, '"');
    lemma_header_free(word, dt, ds, cmd + (sp + none), '"');
    lemma_split_cons(x1, r3, '"');
    lemma_split_cons(desc, tail, '"');
    lemma_script_tail(s.path);
    let pieces = split(before, '"');
    assert(pieces =~= seq![x1, desc] + split(tail, '"'));
    if has_whitespace(s.path) {
        assert(pieces =~= seq![x1, desc, sp, s.path, none]);
    } else {
        assert(pieces =~= seq![x1, desc, tail]);
    }
}

/// Every stable script binding is read back from its own line.
#[verifier::rlimit(40)]
pub proof fn lemma_script_line_reads_back(s: ScriptEntryView)
    requires
        stable_script(s),
    ensures
        parse_line(script_line(s)) == Ok::<_, crate::error::ParseErrorView>(
            ReaperEntryView::Script(s),
        ),
{
    let word = "SCR"@;
    let t = s.termination_behavior.spec_as_u32() as nat;
    let sec = s.section.spec_as_u32() as nat;
    lemma_decimal_word(t);
    lemma_decimal_word(sec);
    lemma_script_data_part(s);
    let before = script_before(s);
    let rest = script_rest(quote_if_spaced(s.command_id), s.description, script_tail(s.path));
    assert(is_word(word) && word != "KEY"@) by {
        reveal_strlit("SCR");
        reveal_strlit("KEY");
        assert(word[0] == 'S');
        assert("KEY"@[0] == 'K');
    }
    lemma_header_tokens(word, decimal(t), decimal(sec), rest);
    lemma_parse_decimal(t, u32::MAX as nat);
    lemma_parse_decimal(sec, u32::MAX as nat);
    lemma_section_round_trip(s.section);
    if has_whitespace(s.command_id) {
        lemma_script_texts_quoted(s);
    } else {
        lemma_script_texts_bare(s);
    }
}

/// A custom action that a line can stand for: its command and description are plain,
/// its constituent actions are words without `"` and `#`, and its flags hold no bit
/// without a meaning.
pub open spec fn stable_action(a: ActionEntryView) -> bool {
    &&& plain(a.command_id)
    &&& plain(a.description)
    &&& all_words(a.action_ids)
    &&& all_free_of(a.action_ids, '"')
    &&& all_free_of(a.action_ids, '#')
    &&& a.action_flags.bits & KNOWN_ACTION_BITS == a.action_flags.bits
}

/// What follows the description of an action line: nothing without constituent
/// actions, else a space and the actions with spaces between them.
spec fn action_tail(ids: Seq<Seq<char>>) -> Seq<char> {
    if ids.len() == 0 {
        Seq::empty()
    } else {
        seq![' '] + join(ids, seq![' '])
    }
}

/// What follows the numbers of an action line: the command and the description in
/// quotes, and `tail`.
#[verifier::opaque]
spec fn action_rest(cmd: Seq<char>, desc: Seq<char>, tail: Seq<char>) -> Seq<char> {
    let sp = seq![' '];
    let q = seq!['"'];
    q + (cmd + (q + (sp + (q + (desc + (q + tail))))))
}

/// An action line as it is written, piece after piece, is its start and its rest.
proof fn lemma_action_shape(
    t4: Seq<char>,
    l1: Seq<char>,
    l2: Seq<char>,
    word: Seq<char>,
    df: Seq<char>,
    ds: Seq<char>,
    cmd: Seq<char>,
    desc: Seq<char>,
    tail: Seq<char>,
)
    requires
        t4 == word + seq![' '],
        l1 == seq![' ', '"'],
        l2 == seq!['"', ' ', '"'],
    ensures
        t4 + df + seq![' '] + ds + l1 + cmd + l2 + desc + seq!['"'] + tail == header(
            word,
            df,
            ds,
            action_rest(cmd, desc, tail),
        ),
{
    reveal(header);
    reveal(action_rest);
    let sp = seq![' '];
    let q = seq!['"'];
    assert(l1 =~= sp + q);
    assert(l2 =~= q + (sp + q));
    assert(t4 + df + sp + ds + l1 + cmd + l2 + desc + q + tail =~= header(
        word,
        df,
        ds,
        action_rest(cmd, desc, tail),
    ));
}

/// The rest of an action line holds no `#` that its pieces do not hold, and ends as
/// its tail ends, or with a `"` where the tail is empty.
proof fn lemma_action_rest(cmd: Seq<char>, desc: Seq<char>, tail: Seq<char>)
    ensures
        free_of(cmd, '#') && free_of(desc, '#') && free_of(tail, '#') ==> free_of(
            action_rest(cmd, desc, tail),
            '#',
        ),
        action_rest(cmd, desc, tail).len() > 0,
        action_rest(cmd, desc, tail).last() == if tail.len() == 0 {
            '"'
        } else {
            tail.last()
        },
        action_rest(cmd, desc, tail) == seq!['"'] + (cmd + (seq!['"'] + (seq![' '] + (seq!['"'] + (
        desc + (seq!['"'] + tail)))))),
{
    reveal(action_rest);
    let sp = seq![' '];
    let q = seq!['"'];
    if free_of(cmd, '#') && free_of(desc, '#') && free_of(tail, '#') {
        assert(free_of(sp, '#'));
        assert(free_of(q, '#'));
        let r4 = desc + (q + tail);
        let r3 = sp + (q + r4);
        let r2 = cmd + (q + r3);
        lemma_free_of_concat(q, tail, '#');
        lemma_free_of_concat(desc, q + tail, '#');
        lemma_free_of_concat(q, r4, '#');
        lemma_free_of_concat(sp, q + r4, '#');
        lemma_free_of_concat(q, r3, '#');
        lemma_free_of_concat(cmd, q + r3, '#');
        lemma_free_of_concat(q, r2, '#');
    }
}

/// What follows the description of the line of a stable action: it holds no `"` and
/// no `#`, its tokens are the constituent actions, and it does not end in
/// whitespace.
proof fn lemma_action_tail(ids: Seq<Seq<char>>)
    requires
        all_words(ids),
        all_free_of(ids, '"'),
        all_free_of(ids, '#'),
    ensures
        free_of(action_tail(ids), '"'),
        free_of(action_tail(ids), '#'),
        tokens(action_tail(ids)) == ids,
        join(ids, seq![' ']).len() == 0 <==> ids.len() == 0,
        ids.len() > 0 ==> action_tail(ids).len() > 0 && !is_whitespace(action_tail(ids).last()),
{
    let sp = seq![' '];
    lemma_tokens_join(ids);
    assert(free_of(sp, '"'));
    assert(free_of(sp, '#'));
    lemma_join_free(ids, sp, '"');
    lemma_join_free(ids, sp, '#');
    lemma_free_of_concat(sp, join(ids, sp), '"');
    lemma_free_of_concat(sp, join(ids, sp), '#');
    if ids.len() == 0 {
        assert(tokens(action_tail(ids)) =~= ids);
    } else {
        lemma_join_words_last(ids);
        let j = join(ids, sp);
        assert((sp + j).last() == j.last());
    }
}

/// The line of a stable custom action, as its start and its rest.
spec fn action_full(a: ActionEntryView) -> Seq<char> {
    header(
        "ACT"@,
        decimal(a.action_flags.bits as nat),
        decimal(a.section.spec_as_u32() as nat),
        action_rest(a.command_id, a.description, action_tail(a.action_ids)),
    )
}

/// The line of a stable custom action has no comment part and nothing to trim.
#[verifier::rlimit(40)]
proof fn lemma_action_data_part(a: ActionEntryView)
    requires
        stable_action(a),
    ensures
        action_line(a) == action_full(a),
        data_part(action_line(a)) == action_full(a),
{
    let sp = seq![' '];
    let q = seq!['"'];
    let word = "ACT"@;
    let df = decimal(a.action_flags.bits as nat);
    let ds = decimal(a.section.spec_as_u32() as nat);
    let cmd = a.command_id;
    let desc = a.description;
    let tail = action_tail(a.action_ids);
    let line = action_line(a);
    lemma_action_tail(a.action_ids);
    assert(line == action_full(a)) by {
        reveal_strlit("ACT ");
        reveal_strlit("ACT");
        reveal_strlit(" ");
        reveal_strlit(" \"");
        reveal_strlit("\" \"");
        reveal_strlit("\"");
        lemma_escape_plain(cmd);
        lemma_escape_plain(desc);
        assert("ACT "@ =~= word + sp);
        assert(" "@ =~= sp);
        assert(" \""@ =~= seq![' ', '"']);
        assert("\" \""@ =~= seq!['"', ' ', '"']);
        assert("\""@ =~= q);
        lemma_action_shape("ACT "@, " \""@, "\" \""@, word, df, ds, cmd, desc, tail);
    }
    assert(word.len() > 0 && word[0] == 'A' && free_of(word, '#')) by {
        reveal_strlit("ACT");
    }
    let rest = action_rest(cmd, desc, tail);
    lemma_action_rest(cmd, desc, tail);
    lemma_header_ends(word, df, ds, rest);
    lemma_decimal_word(a.action_flags.bits as nat);
    lemma_decimal_word(a.section.spec_as_u32() as nat);
    lemma_header_free(word, df, ds, rest, '#');
    lemma_index_of_free(line, '#');
    assert(line.take(line.len() as int) =~= line);
    assert(!is_whitespace(line[0]));
    assert(!is_whitespace(line.last()));
    crate::text_laws::lemma_trim_word(line);
}

/// The pieces between the double quotes of the line of a stable custom action.
#[verifier::rlimit(40)]
proof fn lemma_action_pieces(a: ActionEntryView)
    requires
        stable_action(a),
    ensures
        split(action_full(a), '"').len() == 5,
        split(action_full(a), '"')[1] == a.command_id,
        split(action_full(a), '"')[3] == a.description,
        tokens(split(action_full(a), '"')[4]) == a.action_ids,
{
    let sp = seq![' '];
    let q = seq!['"'];
    let none = Seq::<char>::empty();
    let word = "ACT"@;
    let df = decimal(a.action_flags.bits as nat);
    let ds = decimal(a.section.spec_as_u32() as nat);
    let cmd = a.command_id;
    let desc = a.description;
    let tail = action_tail(a.action_ids);
    lemma_action_tail(a.action_ids);
    lemma_decimal_word(a.action_flags.bits as nat);
    lemma_decimal_word(a.section.spec_as_u32() as nat);
    let r4 = desc + (q + tail);
    let r3 = sp + (q + r4);
    let r2 = cmd + (q + r3);
    let x0 = header(word, df, ds, none);
    assert(word.len() > 0 && free_of(word, '"')) by {
        reveal_strlit("ACT");
    }
    assert(action_full(a) == x0 + (q + r2)) by {
        lemma_action_rest(cmd, desc, tail);
        assert(action_rest(cmd, desc, tail) =~= none + (q + r2));
        lemma_header_ends(word, df, ds, none);
    }
    assert(free_of(none, '"'));
    assert(free_of(sp, '"'));
    lemma_header_free(word, df, ds, none, '"');
    lemma_split_cons(x0, r2, '"');
    lemma_split_cons(cmd, r3, '"');
    lemma_split_cons(sp, r4, '"');
    lemma_split_cons(desc, tail, '"');
    lemma_split_free(tail, '"');
    assert(split(action_full(a), '"') =~= seq![x0, cmd, sp, desc, tail]);
}

/// Every stable custom action is read back from its own line.
#[verifier::rlimit(40)]
pub proof fn lemma_action_line_reads_back(a: ActionEntryView)
    requires
        stable_action(a),
    ensures
        parse_line(action_line(a)) == Ok::<_, crate::error::ParseErrorView>(
            ReaperEntryView::Action(a),
        ),
{
    let word = "ACT"@;
    let f = a.action_flags.bits as nat;
    let sec = a.section.spec_as_u32() as nat;
    lemma_decimal_word(f);
    lemma_decimal_word(sec);
    lemma_action_data_part(a);
    lemma_action_pieces(a);
    let rest = action_rest(a.command_id, a.description, action_tail(a.action_ids));
    assert(is_word(word) && word != "KEY"@ && word != "SCR"@) by {
        reveal_strlit("ACT");
        reveal_strlit("KEY");
        reveal_strlit("SCR");
        assert(word[0] == 'A');
        assert("KEY"@[0] == 'K');
        assert("SCR"@[0] == 'S');
    }
    lemma_header_tokens(word, decimal(f), decimal(sec), rest);
    lemma_parse_decimal(f, u32::MAX as nat);
    lemma_parse_decimal(sec, u32::MAX as nat);
    lemma_section_round_trip(a.section);
}

/// What stands before the first `#` of a line, trimmed, holds no `#`.
proof fn lemma_data_part_free(line: Seq<char>)
    ensures
        free_of(data_part(line), '#'),
{
    lemma_index_of_bounds(line, '#');
    let i = index_of(line, '#') as int;
    let head = line.take(i);
    assert forall|j: int| 0 <= j < head.len() implies #[trigger] head[j] != '#' by {
        assert(head[j] == line[j]);
    }
    lemma_trim_free(head, '#');
}

/// Every keyboard binding that a line gives is stable.
#[verifier::rlimit(40)]
pub proof fn lemma_parsed_key_is_stable(line: Seq<char>)
    ensures
        match parse_line(line) {
            Ok(ReaperEntryView::Key(k)) => stable_key(k),
            _ => true,
        },
{
    let before = data_part(line);
    let toks = tokens(before);
    lemma_data_part_free(line);
    lemma_tokens_are_words(before, '#');
    match parse_line(line) {
        Ok(ReaperEntryView::Key(k)) => {
            match crate::grammar::number_field(toks, 1, 255, "KEY"@, "modifiers"@) {
                Ok(mods) => {
                    lemma_code_round_trip(mods as u8);
                },
                Err(_) => {},
            }
            match crate::grammar::number_field(toks, 2, 65535, "KEY"@, "key_code"@) {
                Ok(code) => {
                    lemma_special_code_canonical(code as u16);
                },
                Err(_) => {},
            }
            assert(k.command_id == toks[3]);
            assert(is_word(toks[3]));
            assert(free_of(toks[3], '#'));
        },
        _ => {},
    }
}

/// What a line gives as a script binding holds no `#`, and no `"` in its description
/// and path: such a binding is stable as soon as its command is not empty and
/// nothing in it needs an escape.
#[verifier::rlimit(40)]
pub proof fn lemma_parsed_script_is_stable(line: Seq<char>)
    ensures
        match parse_line(line) {
            Ok(ReaperEntryView::Script(s)) => s.command_id.len() > 0 && free_of(
                s.command_id,
                '\\',
            ) && free_of(s.command_id, '"') && free_of(s.description, '\\') ==> stable_script(s),
            _ => true,
        },
{
    let before = data_part(line);
    let toks = tokens(before);
    lemma_data_part_free(line);
    lemma_tokens_are_words(before, '#');
    lemma_split_pieces(before, '"', '#');
    let q = split(before, '"');
    match parse_line(line) {
        Ok(ReaperEntryView::Script(s)) => {
            assert(q.len() >= 3);
            assert(free_of(q[1], '"') && free_of(q[1], '#'));
            assert(free_of(q[2], '"') && free_of(q[2], '#'));
            lemma_trim_free(q[2], '"');
            lemma_trim_free(q[2], '#');
            if tokens(q[0]).len() == 3 {
                assert(free_of(q[3], '"') && free_of(q[3], '#'));
                assert(free_of(q[4], '"') && free_of(q[4], '#'));
                lemma_trim_free(q[4], '"');
                lemma_trim_free(q[4], '#');
                if q.len() > 5 {
                    assert(free_of(q[5], '"') && free_of(q[5], '#'));
                }
            } else {
                assert(free_of(toks[3], '#'));
                if q.len() > 3 {
                    assert(free_of(q[3], '"') && free_of(q[3], '#'));
                }
            }
        },
        _ => {},
    }
}

/// What a line gives as a custom action holds no `#` and no `"`, and its flags are
/// cut to the known bits: such an action is stable as soon as nothing in it needs an
/// escape.
#[verifier::rlimit(40)]
pub proof fn lemma_parsed_action_is_stable(line: Seq<char>)
    ensures
        match parse_line(line) {
            Ok(ReaperEntryView::Action(a)) => free_of(a.command_id, '\\') && free_of(
                a.description,
                '\\',
            ) ==> stable_action(a),
            _ => true,
        },
{
    let before = data_part(line);
    let toks = tokens(before);
    lemma_data_part_free(line);
    lemma_split_pieces(before, '"', '#');
    let q = split(before, '"');
    match parse_line(line) {
        Ok(ReaperEntryView::Action(a)) => {
            assert(q.len() >= 4);
            assert(free_of(q[1], '"') && free_of(q[1], '#'));
            assert(free_of(q[3], '"') && free_of(q[3], '#'));
            if q.len() > 4 {
                assert(free_of(q[4], '"') && free_of(q[4], '#'));
                lemma_tokens_are_words(q[4], '"');
                lemma_tokens_are_words(q[4], '#');
            }
            match crate::grammar::number_field(toks, 1, u32::MAX as nat, "ACT"@, "flags"@) {
                Ok(flags) => {
                    let x = flags as u32;
                    assert((x & 0b0011_0011u32) & 0b0011_0011u32 == x & 0b0011_0011u32)
                        by (bit_vector);
                },
                Err(_) => {},
            }
        },
        _ => {},
    }
}

/// What writing leaves as it is: a keyboard binding always; a script binding whose
/// command is not empty and holds no backslash and no `"`, and whose description
/// holds no backslash; a custom action whose command and description hold no
/// backslash.
pub open spec fn written_as_read(e: ReaperEntryView) -> bool {
    match e {
        ReaperEntryView::Key(_) => true,
        ReaperEntryView::Script(s) => s.command_id.len() > 0 && free_of(s.command_id, '\\')
            && free_of(s.command_id, '"') && free_of(s.description, '\\'),
        ReaperEntryView::Action(a) => free_of(a.command_id, '\\') && free_of(a.description, '\\'),
    }
}

/// Reading a `KEY` line, writing the binding and reading the written line gives the
/// same modifiers, input, command and section, and a comment.
pub proof fn lemma_key_round_trip_functional(line: Seq<char>)
    ensures
        match parse_line(line) {
            Ok(ReaperEntryView::Key(k)) => key_reads_back(k),
            _ => true,
        },
{
    lemma_parsed_key_is_stable(line);
    match parse_line(line) {
        Ok(ReaperEntryView::Key(k)) => {
            lemma_key_line_reads_back(k);
        },
        _ => {},
    }
}

/// Reading an `SCR` or `ACT` line, writing the entry and reading the written line
/// gives exactly the entry again, where writing leaves its texts as they are.
pub proof fn lemma_entry_round_trip_exact(line: Seq<char>)
    ensures
        match parse_line(line) {
            Ok(e) => !(e is Key) && written_as_read(e) ==> parse_line(entry_line(e))
                == parse_line(line),
            Err(_) => true,
        },
{
    lemma_parsed_script_is_stable(line);
    lemma_parsed_action_is_stable(line);
    match parse_line(line) {
        Ok(ReaperEntryView::Script(s)) => {
            if written_as_read(ReaperEntryView::Script(s)) {
                lemma_script_line_reads_back(s);
            }
        },
        Ok(ReaperEntryView::Action(a)) => {
            if written_as_read(ReaperEntryView::Action(a)) {
                lemma_action_line_reads_back(a);
            }
        },
        _ => {},
    }
}

} // verus!
