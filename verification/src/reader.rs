//! Reading one line of a keymap into an entry.

use crate::decimal::{number_error_message, parse_number_in};
use crate::text::texts;
use crate::entry::{ActionEntry, ActionFlags, Comment, KeyEntry, KeyInputType, ReaperEntry,
    ReaperEntryView, ScriptEntry, TerminationBehavior,
};
use crate::error::{ParseError, ParseErrorView};
use crate::grammar::{
    comment_part, data_part, key_input_of, number_field, parse_action, parse_key, parse_line,
    parse_script, script_texts, section_field,
};
use crate::keycodes::KeyCode;
use crate::modifiers::Modifiers;
use crate::roundtrip::{lemma_parsed_key_is_stable, stable_key};
use crate::sections::ReaperActionSection;
use crate::special_inputs::SpecialInput;
use crate::text::{
    all_within, chars_of, find_char, pieces, span_is, split, split_spans, substring, token_spans,
    tokens, trim_span, Span,
};
use vstd::prelude::*;
use vstd::string::*;

verus! {

/// The token at position `i` as a number of at most `max`.
fn read_number(
    cs: &[char],
    toks: &Vec<Span>,
    i: usize,
    max: u32,
    tag: &'static str,
    field: &'static str,
) -> (r: Result<u32, ParseError>)
    requires
        all_within(toks@, 0, cs@.len() as int),
    ensures
        match r {
            Ok(v) => v <= max && number_field(
                pieces(cs@, toks@),
                i as int,
                max as nat,
                tag@,
                field@,
            ) == Ok::<nat, ParseErrorView>(v as nat),
            Err(e) => number_field(pieces(cs@, toks@), i as int, max as nat, tag@, field@) == Err::<
                nat,
                ParseErrorView,
            >(e@),
        },
{
    if toks.len() <= i {
        return Err(ParseError::MissingField { tag, field });
    }
    let sp = toks[i];
    assert(sp.within(0, cs@.len() as int));
    assert(pieces(cs@, toks@)[i as int] == sp.of(cs@));
    match parse_number_in(cs, sp.lo, sp.hi, max) {
        Ok(v) => Ok(v),
        Err(e) => Err(
            ParseError::InvalidNumber { tag, field, err: number_error_message(e).to_string() },
        ),
    }
}

/// The section that the token at position `i` names.
fn read_section(cs: &[char], toks: &Vec<Span>, i: usize, tag: &'static str) -> (r: Result<
    ReaperActionSection,
    ParseError,
>)
    requires
        all_within(toks@, 0, cs@.len() as int),
    ensures
        match r {
            Ok(s) => section_field(pieces(cs@, toks@), i as int, tag@) == Ok::<
                ReaperActionSection,
                ParseErrorView,
            >(s),
            Err(e) => section_field(pieces(cs@, toks@), i as int, tag@) == Err::<
                ReaperActionSection,
                ParseErrorView,
            >(e@),
        },
{
    match read_number(cs, toks, i, u32::MAX, tag, "section") {
        Err(e) => Err(e),
        Ok(n) => match ReaperActionSection::from_u32(n) {
            Some(s) => Ok(s),
            None => Err(ParseError::InvalidSectionCode(n)),
        },
    }
}

/// The pieces of `line` that `spans` cover, as owned strings.
fn substrings(line: &str, cs: &[char], spans: &Vec<Span>) -> (r: Vec<String>)
    requires
        cs@ == line@,
        all_within(spans@, 0, cs@.len() as int),
    ensures
        texts(r@) == pieces(cs@, spans@),
{
    let mut out: Vec<String> = Vec::new();
    let mut i: usize = 0;
    while i < spans.len()
        invariant
            i <= spans@.len(),
            out@.len() == i,
            cs@ == line@,
            all_within(spans@, 0, cs@.len() as int),
            forall|j: int| 0 <= j < i ==> (#[trigger] out@[j])@ == spans@[j].of(cs@),
        decreases spans@.len() - i,
    {
        let sp = spans[i];
        assert(sp.within(0, cs@.len() as int));
        out.push(substring(line, sp.lo, sp.hi));
        i += 1;
    }
    assert(texts(out@) =~= pieces(cs@, spans@));
    out
}

/// Reads the tokens of a `KEY` line; `hash` is the position of the first `#` of the
/// line, or the length of the line.
fn read_key(line: &str, cs: &[char], toks: &Vec<Span>, hash: usize) -> (r: Result<
    KeyEntry,
    ParseError,
>)
    requires
        cs@ == line@,
        hash <= cs@.len(),
        all_within(toks@, 0, cs@.len() as int),
    ensures
        match r {
            Ok(k) => parse_key(
                pieces(cs@, toks@),
                if hash < line@.len() {
                    Some(line@.skip(hash as int))
                } else {
                    None
                },
            ) == Ok::<_, ParseErrorView>(k@),
            Err(e) => parse_key(
                pieces(cs@, toks@),
                if hash < line@.len() {
                    Some(line@.skip(hash as int))
                } else {
                    None
                },
            ) == Err::<crate::entry::KeyEntryView, _>(e@),
        },
{
    let n = cs.len();
    let mods: u8 = match read_number(cs, toks, 1, 255, "KEY", "modifiers") {
        Err(e) => {
            return Err(e);
        },
        Ok(v) => v as u8,
    };
    let modifiers = match Modifiers::try_from_reaper_code(mods) {
        None => {
            return Err(ParseError::InvalidModifierCode(mods));
        },
        Some(m) => m,
    };
    let code: u16 = match read_number(cs, toks, 2, 65535, "KEY", "key_code") {
        Err(e) => {
            return Err(e);
        },
        Ok(v) => v as u16,
    };
    let key_input = if modifiers.is_special_input() {
        KeyInputType::Special(SpecialInput::from_key_code(code))
    } else {
        match KeyCode::from_u16(code) {
            Some(k) => KeyInputType::Regular(k),
            None => {
                return Err(ParseError::InvalidKeyCode(code));
            },
        }
    };
    assert(key_input_of(modifiers, code) == Ok::<_, ParseErrorView>(key_input));
    if toks.len() <= 3 {
        return Err(ParseError::MissingField { tag: "KEY", field: "command_id" });
    }
    let section = match read_section(cs, toks, 4, "KEY") {
        Err(e) => {
            return Err(e);
        },
        Ok(s) => s,
    };
    let sp = toks[3];
    assert(sp.within(0, n as int));
    assert(pieces(cs@, toks@)[3] == sp.of(cs@));
    let command_id = substring(line, sp.lo, sp.hi);
    let comment = if hash < n {
        let text = substring(line, hash, n);
        assert(text@ =~= line@.skip(hash as int));
        Comment::from_line(text.as_str())
    } else {
        None
    };
    Ok(KeyEntry { modifiers, key_input, command_id, section, comment })
}

/// Reads the command, the description and the path of an `SCR` line.
fn read_script_texts(line: &str, cs: &[char], before: Span, toks: &Vec<Span>) -> (r: Result<
    (String, String, String),
    ParseError,
>)
    requires
        cs@ == line@,
        before.within(0, cs@.len() as int),
        all_within(toks@, 0, cs@.len() as int),
    ensures
        match r {
            Ok(t) => script_texts(before.of(cs@), pieces(cs@, toks@)) == Ok::<_, ParseErrorView>(
                (t.0@, t.1@, t.2@),
            ),
            Err(e) => script_texts(before.of(cs@), pieces(cs@, toks@)) == Err::<
                (Seq<char>, Seq<char>, Seq<char>),
                _,
            >(e@),
        },
{
    let n = cs.len();
    let q = split_spans(cs, before.lo, before.hi, '"');
    let ghost qs = split(before.of(cs@), '"');
    assert(pieces(cs@, q@) == qs);
    assert(all_within(q@, 0, n as int)) by {
        assert forall|i: int| 0 <= i < q@.len() implies (#[trigger] q@[i]).within(0, n as int) by {
            assert(q@[i].within(before.lo as int, before.hi as int));
        }
    }
    if q.len() < 3 {
        return Err(ParseError::MissingField { tag: "SCR", field: "description" });
    }
    let q0 = q[0];
    let q1 = q[1];
    let q2 = q[2];
    assert(q0.within(0, n as int) && q1.within(0, n as int) && q2.within(0, n as int));
    assert(qs[0] == q0.of(cs@) && qs[1] == q1.of(cs@) && qs[2] == q2.of(cs@));
    let lead = token_spans(cs, q0.lo, q0.hi);
    assert(pieces(cs@, lead@).len() == tokens(qs[0]).len());
    if lead.len() == 3 {
        if q.len() < 5 {
            return Err(ParseError::MissingField { tag: "SCR", field: "description" });
        }
        let q3 = q[3];
        let q4 = q[4];
        assert(q3.within(0, n as int) && q4.within(0, n as int));
        assert(qs[3] == q3.of(cs@) && qs[4] == q4.of(cs@));
        let command_id = substring(line, q1.lo, q1.hi);
        let description = substring(line, q3.lo, q3.hi);
        let path = if q.len() > 5 {
            let q5 = q[5];
            assert(q5.within(0, n as int));
            assert(qs[5] == q5.of(cs@));
            substring(line, q5.lo, q5.hi)
        } else {
            let t = trim_span(cs, q4.lo, q4.hi);
            substring(line, t.lo, t.hi)
        };
        Ok((command_id, description, path))
    } else {
        if toks.len() <= 3 {
            return Err(ParseError::MissingField { tag: "SCR", field: "command_id" });
        }
        let sp = toks[3];
        assert(sp.within(0, n as int));
        assert(pieces(cs@, toks@)[3] == sp.of(cs@));
        let command_id = substring(line, sp.lo, sp.hi);
        let description = substring(line, q1.lo, q1.hi);
        let path = if q.len() > 3 {
            let q3 = q[3];
            assert(q3.within(0, n as int));
            assert(qs[3] == q3.of(cs@));
            substring(line, q3.lo, q3.hi)
        } else {
            let t = trim_span(cs, q2.lo, q2.hi);
            substring(line, t.lo, t.hi)
        };
        Ok((command_id, description, path))
    }
}

/// Reads an `SCR` line with the data part `before` and its tokens.
fn read_script(line: &str, cs: &[char], before: Span, toks: &Vec<Span>) -> (r: Result<
    ScriptEntry,
    ParseError,
>)
    requires
        cs@ == line@,
        before.within(0, cs@.len() as int),
        all_within(toks@, 0, cs@.len() as int),
    ensures
        match r {
            Ok(s) => parse_script(before.of(cs@), pieces(cs@, toks@)) == Ok::<_, ParseErrorView>(
                s@,
            ),
            Err(e) => parse_script(before.of(cs@), pieces(cs@, toks@)) == Err::<
                crate::entry::ScriptEntryView,
                _,
            >(e@),
        },
{
    let term = match read_number(cs, toks, 1, u32::MAX, "SCR", "termination") {
        Err(e) => {
            return Err(e);
        },
        Ok(v) => v,
    };
    let termination_behavior = match TerminationBehavior::from_u32(term) {
        None => {
            return Err(ParseError::InvalidTermination(term));
        },
        Some(t) => t,
    };
    let section = match read_section(cs, toks, 2, "SCR") {
        Err(e) => {
            return Err(e);
        },
        Ok(s) => s,
    };
    match read_script_texts(line, cs, before, toks) {
        Err(e) => Err(e),
        Ok(t) => Ok(
            ScriptEntry {
                termination_behavior,
                section,
                command_id: t.0,
                description: t.1,
                path: t.2,
            },
        ),
    }
}

/// Reads an `ACT` line with the data part `before` and its tokens.
fn read_action(line: &str, cs: &[char], before: Span, toks: &Vec<Span>) -> (r: Result<
    ActionEntry,
    ParseError,
>)
    requires
        cs@ == line@,
        before.within(0, cs@.len() as int),
        all_within(toks@, 0, cs@.len() as int),
    ensures
        match r {
            Ok(a) => parse_action(before.of(cs@), pieces(cs@, toks@)) == Ok::<_, ParseErrorView>(
                a@,
            ),
            Err(e) => parse_action(before.of(cs@), pieces(cs@, toks@)) == Err::<
                crate::entry::ActionEntryView,
                _,
            >(e@),
        },
{
    let n = cs.len();
    let flags = match read_number(cs, toks, 1, u32::MAX, "ACT", "flags") {
        Err(e) => {
            return Err(e);
        },
        Ok(v) => v,
    };
    let action_flags = ActionFlags::from_bits_truncate(flags);
    let section = match read_section(cs, toks, 2, "ACT") {
        Err(e) => {
            return Err(e);
        },
        Ok(s) => s,
    };
    let q = split_spans(cs, before.lo, before.hi, '"');
    let ghost qs = split(before.of(cs@), '"');
    assert(pieces(cs@, q@) == qs);
    assert(all_within(q@, 0, n as int)) by {
        assert forall|i: int| 0 <= i < q@.len() implies (#[trigger] q@[i]).within(0, n as int) by {
            assert(q@[i].within(before.lo as int, before.hi as int));
        }
    }
    if q.len() < 4 {
        return Err(ParseError::MissingField { tag: "ACT", field: "command_id/description" });
    }
    let q1 = q[1];
    let q3 = q[3];
    assert(q1.within(0, n as int) && q3.within(0, n as int));
    assert(qs[1] == q1.of(cs@) && qs[3] == q3.of(cs@));
    let command_id = substring(line, q1.lo, q1.hi);
    let description = substring(line, q3.lo, q3.hi);
    let action_ids: Vec<String> = if q.len() > 4 {
        let q4 = q[4];
        assert(q4.within(0, n as int));
        assert(qs[4] == q4.of(cs@));
        let ids = token_spans(cs, q4.lo, q4.hi);
        assert(all_within(ids@, 0, n as int)) by {
            assert forall|i: int| 0 <= i < ids@.len() implies (#[trigger] ids@[i]).within(
                0,
                n as int,
            ) by {
                assert(ids@[i].within(q4.lo as int, q4.hi as int));
            }
        }
        substrings(line, cs, &ids)
    } else {
        let v: Vec<String> = Vec::new();
        assert(texts(v@) =~= Seq::<Seq<char>>::empty());
        v
    };
    Ok(ActionEntry { action_flags, section, command_id, description, action_ids })
}

impl ReaperEntry {
    /// Reads one line of a keymap. The line is an entry exactly when the grammar says
    /// so; else the error names the first field that stands in the way. In a keyboard
    /// binding that is read, the modifiers carry the special-input mark exactly when
    /// the input is a special one.
    pub fn from_line(line: &str) -> (r: Result<ReaperEntry, ParseError>)
        ensures
            match r {
                Ok(e) => parse_line(line@) == Ok::<_, ParseErrorView>(e@),
                Err(e) => parse_line(line@) == Err::<ReaperEntryView, _>(e@),
            },
            r matches Ok(ReaperEntry::Key(k)) ==> stable_key(k@),
    {
        proof {
            lemma_parsed_key_is_stable(line@);
        }
        let chars = chars_of(line);
        let cs = chars.as_slice();
        let n = cs.len();
        assert(cs@.subrange(0, n as int) =~= line@);
        let hash = find_char(cs, 0, n, '#');
        assert(cs@.subrange(0, hash as int) =~= line@.take(hash as int));
        let before = trim_span(cs, 0, hash);
        assert(before.of(cs@) == data_part(line@));
        assert(comment_part(line@) == if hash < line@.len() {
            Some(line@.skip(hash as int))
        } else {
            None
        });
        let toks = token_spans(cs, before.lo, before.hi);
        assert(pieces(cs@, toks@) == tokens(data_part(line@)));
        assert(all_within(toks@, 0, n as int)) by {
            assert forall|i: int| 0 <= i < toks@.len() implies (#[trigger] toks@[i]).within(
                0,
                n as int,
            ) by {
                assert(toks@[i].within(before.lo as int, before.hi as int));
            }
        }
        if toks.len() == 0 {
            return Err(ParseError::MissingField { tag: "<line>", field: "tag" });
        }
        let t0 = toks[0];
        assert(t0.within(0, n as int));
        assert(pieces(cs@, toks@)[0] == t0.of(cs@));
        if span_is(cs, t0.lo, t0.hi, "KEY") {
            match read_key(line, cs, &toks, hash) {
                Ok(k) => Ok(ReaperEntry::Key(k)),
                Err(e) => Err(e),
            }
        } else if span_is(cs, t0.lo, t0.hi, "SCR") {
            match read_script(line, cs, before, &toks) {
                Ok(s) => Ok(ReaperEntry::Script(s)),
                Err(e) => Err(e),
            }
        } else if span_is(cs, t0.lo, t0.hi, "ACT") {
            match read_action(line, cs, before, &toks) {
                Ok(a) => Ok(ReaperEntry::Action(a)),
                Err(e) => Err(e),
            }
        } else {
            Err(ParseError::InvalidTag(substring(line, t0.lo, t0.hi)))
        }
    }
}

} // verus!
