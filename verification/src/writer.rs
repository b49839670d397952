//! Writing an entry as one line of a keymap.

use crate::decimal::push_decimal;
use crate::text::texts;
use crate::entry::{ActionEntry, KeyEntry, KeyInputType, ReaperEntry, ScriptEntry};
use crate::grammar::{
    action_line, entry_line, escape, key_line, key_value, quote_if_spaced, script_line,
};
use crate::text::{chars_of, join, push_part, substring, text_has_whitespace};
use vstd::prelude::*;
use vstd::string::*;

verus! {

/// `s` with a backslash before each backslash and each double quote.
pub fn escape_field(s: &str) -> (r: String)
    ensures
        r@ == escape(s@),
{
    let cs = chars_of(s);
    let mut out = String::new();
    let mut i: usize = 0;
    proof {
        reveal_strlit("\\\\");
        reveal_strlit("\\\"");
        assert(s@.take(0) =~= Seq::<char>::empty());
    }
    while i < cs.len()
        invariant
            i <= cs@.len(),
            cs@ == s@,
            out@ == escape(s@.take(i as int)),
            "\\\\"@ =~= seq!['\\', '\\'],
            "\\\""@ =~= seq!['\\', '"'],
        decreases cs@.len() - i,
    {
        let c = cs[i];
        proof {
            let next = s@.take(i + 1);
            assert(next.drop_last() =~= s@.take(i as int));
            assert(next.last() == c);
        }
        if c == '\\' {
            out.append("\\\\");
        } else if c == '"' {
            out.append("\\\"");
        } else {
            let one = substring(s, i, i + 1);
            assert(one@ =~= seq![c]);
            out.append(one.as_str());
        }
        i += 1;
    }
    proof {
        assert(s@.take(i as int) =~= s@);
    }
    out
}

/// `s` in double quotes when it holds whitespace, else `s` as it is.
fn quoted_if_spaced(s: String) -> (r: String)
    ensures
        r@ == quote_if_spaced(s@),
{
    if text_has_whitespace(s.as_str()) {
        let mut out = String::new();
        out.append("\"");
        out.append(s.as_str());
        out.append("\"");
        assert(out@ =~= "\""@ + s@ + "\""@);
        out
    } else {
        s
    }
}

/// The strings of `v` with `sep` between each two neighbours.
pub fn join_strings(v: &Vec<String>, sep: &str) -> (r: String)
    ensures
        r@ == join(texts(v@), sep@),
{
    let mut out = String::new();
    let ghost all = texts(v@);
    let mut i: usize = 0;
    proof {
        assert(all.take(0) =~= Seq::<Seq<char>>::empty());
    }
    while i < v.len()
        invariant
            i <= v@.len(),
            all == texts(v@),
            out@ == join(all.take(i as int), sep@),
        decreases v@.len() - i,
    {
        proof {
            assert(all.take(i as int).push(v@[i as int]@) =~= all.take(i + 1));
        }
        push_part(&mut out, Ghost(all.take(i as int)), i == 0, v[i].as_str(), sep);
        i += 1;
    }
    proof {
        assert(all.take(i as int) =~= all);
    }
    out
}

/// The line of a keyboard binding.
fn write_key(k: &KeyEntry) -> (r: String)
    ensures
        r@ == key_line(k@),
{
    let key: u16 = match k.key_input {
        KeyInputType::Regular(key_code) => key_code.as_u8() as u16,
        KeyInputType::Special(special_input) => special_input.to_key_code(),
    };
    assert(key == key_value(k.key_input));
    let comment = match &k.comment {
        Some(c) => c.to_line(),
        None => k.generate_comment().to_line(),
    };
    let mut out = String::new();
    out.append("KEY ");
    push_decimal(&mut out, k.modifiers.reaper_code() as u32);
    out.append(" ");
    push_decimal(&mut out, key as u32);
    out.append(" ");
    out.append(k.command_id.as_str());
    out.append(" ");
    push_decimal(&mut out, k.section.as_u32());
    out.append(" ");
    out.append(comment.as_str());
    assert(out@ =~= key_line(k@));
    out
}

/// The line of a script binding.
fn write_script(s: &ScriptEntry) -> (r: String)
    ensures
        r@ == script_line(s@),
{
    let command = quoted_if_spaced(escape_field(s.command_id.as_str()));
    let description = escape_field(s.description.as_str());
    let path = quoted_if_spaced(s.path.clone());
    let mut out = String::new();
    out.append("SCR ");
    push_decimal(&mut out, s.termination_behavior.as_u32());
    out.append(" ");
    push_decimal(&mut out, s.section.as_u32());
    out.append(" ");
    out.append(command.as_str());
    out.append(" \"");
    out.append(description.as_str());
    out.append("\" ");
    out.append(path.as_str());
    assert(out@ =~= script_line(s@));
    out
}

/// The line of a custom action.
fn write_action(a: &ActionEntry) -> (r: String)
    ensures
        r@ == action_line(a@),
{
    let command = escape_field(a.command_id.as_str());
    let description = escape_field(a.description.as_str());
    let ids = join_strings(&a.action_ids, " ");
    let mut out = String::new();
    out.append("ACT ");
    push_decimal(&mut out, a.action_flags.bits());
    out.append(" ");
    push_decimal(&mut out, a.section.as_u32());
    out.append(" \"");
    out.append(command.as_str());
    out.append("\" \"");
    out.append(description.as_str());
    out.append("\"");
    if !ids.as_str().is_empty() {
        out.append(" ");
        out.append(ids.as_str());
    }
    assert(out@ =~= action_line(a@));
    out
}

impl ReaperEntry {
    /// Writes the entry as one line, without a line end.
    pub fn to_line(&self) -> (r: String)
        ensures
            r@ == entry_line(self@),
    {
        match self {
            ReaperEntry::Key(k) => write_key(k),
            ReaperEntry::Script(s) => write_script(s),
            ReaperEntry::Action(a) => write_action(a),
        }
    }
}

} // verus!
