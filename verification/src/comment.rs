//! Reading and writing the structured comment of a keyboard binding, and making up
//! the default comment of a binding that has none.

use crate::entry::{opt_comment, Comment, KeyEntry, KeyInputType};
use crate::grammar::{
    action_name_of, all_empty, comment_line, default_comment, description_field,
    flag_field, input_name, is_behavior_flag, is_relative_description, key_description,
    modifier_names, parse_comment, trimmed,
};
use crate::keycodes::KeyCode;
use crate::modifiers::Modifiers;
use crate::text::{
    all_within, chars_of, contains, find_char, index_of, join_spans, lemma_index_of_bounds, pieces,
    push_part, same_text, span_contains, split, split_spans, substring, text_contains, trim,
    trim_span, trim_spans, Span,
};
use crate::text_laws::{free_of, lemma_trim_free};
use vstd::prelude::*;
use vstd::string::*;

verus! {

/// Whether the characters `lo..hi` of `cs`, a comment field, hold a marker word.
fn is_flag_span(cs: &[char], lo: usize, hi: usize) -> (r: bool)
    requires
        lo <= hi <= cs@.len(),
    ensures
        r == is_behavior_flag(cs@.subrange(lo as int, hi as int)),
{
    let a = chars_of("OVERRIDE");
    let b = chars_of("DISABLED");
    let c = chars_of("DEFAULT");
    span_contains(cs, lo, hi, a.as_slice()) || span_contains(cs, lo, hi, b.as_slice())
        || span_contains(cs, lo, hi, c.as_slice())
}

/// Whether every span from position `from` on is empty.
fn all_empty_from(cs: &[char], spans: &Vec<Span>, from: usize) -> (r: bool)
    requires
        from <= spans@.len(),
        all_within(spans@, 0, cs@.len() as int),
    ensures
        r == all_empty(pieces(cs@, spans@).skip(from as int)),
{
    let ghost rest = pieces(cs@, spans@).skip(from as int);
    let mut i: usize = from;
    while i < spans.len()
        invariant
            from <= i <= spans@.len(),
            all_within(spans@, 0, cs@.len() as int),
            rest == pieces(cs@, spans@).skip(from as int),
            forall|j: int| 0 <= j < i - from ==> (#[trigger] rest[j]).len() == 0,
        decreases spans@.len() - i,
    {
        let sp = spans[i];
        assert(sp.within(0, cs@.len() as int));
        if sp.lo != sp.hi {
            assert(rest[i - from] == sp.of(cs@));
            assert(rest[i - from].len() != 0);
            return false;
        }
        assert(rest[i - from] == sp.of(cs@));
        i += 1;
    }
    true
}

/// The name of the action in a description.
pub fn action_name(desc: &str) -> (r: String)
    ensures
        r@ == action_name_of(desc@),
{
    let cs = chars_of(desc);
    let n = cs.len();
    assert(cs@.subrange(0, n as int) =~= cs@);
    let paren = find_char(cs.as_slice(), 0, n, '(');
    if paren < n {
        let t = trim_span(cs.as_slice(), 0, paren);
        assert(cs@.subrange(0, paren as int) =~= desc@.take(paren as int));
        substring(desc, t.lo, t.hi)
    } else {
        let r = substring(desc, 0, n);
        r
    }
}

/// Whether a description names a relative (wheel or MIDI CC) control.
pub fn is_relative(desc: &str) -> (r: bool)
    ensures
        r == is_relative_description(desc@),
{
    text_contains(desc, "(MIDI CC relative/mousewheel)") || text_contains(
        desc,
        "(MIDI relative/mousewheel)",
    )
}

impl Comment {
    /// Reads a comment. The result is `None` when the text, trimmed, does not start
    /// with `#` or has fewer than two fields.
    pub fn from_line(line: &str) -> (r: Option<Comment>)
        ensures
            opt_comment(r) == parse_comment(line@),
    {
        let chars = chars_of(line);
        let cs = chars.as_slice();
        let n = cs.len();
        assert(cs@.subrange(0, n as int) =~= line@);
        let t = trim_span(cs, 0, n);
        if t.lo == t.hi || cs[t.lo] != '#' {
            assert(trim(line@).len() == 0 || trim(line@)[0] != '#');
            return None;
        }
        assert(trim(line@)[0] == '#');
        assert(trim(line@).skip(1) =~= cs@.subrange(t.lo + 1, t.hi as int));
        let content = trim_span(cs, t.lo + 1, t.hi);
        let raw = split_spans(cs, content.lo, content.hi, ':');
        let parts = trim_spans(cs, &raw, Ghost(0), Ghost(n as int));
        let ghost fields = trimmed(split(trim(trim(line@).skip(1)), ':'));
        proof {
            assert(content.of(cs@) =~= cs@.subrange(content.lo as int, content.hi as int));
            assert(pieces(cs@, parts@) =~= fields);
        }
        if parts.len() < 2 {
            return None;
        }
        let first = parts[0];
        let second = parts[1];
        assert(first.within(0, n as int) && second.within(0, n as int));
        assert(fields[0] == first.of(cs@) && fields[1] == second.of(cs@));
        let section = substring(line, first.lo, first.hi);
        let key_combination = substring(line, second.lo, second.hi);
        let mut behavior_flag: Option<String> = None;
        if parts.len() > 2 {
            let third = parts[2];
            assert(third.within(0, n as int));
            assert(fields[2] == third.of(cs@));
            if third.lo < third.hi && is_flag_span(cs, third.lo, third.hi) {
                behavior_flag = Some(substring(line, third.lo, third.hi));
            }
        }
        assert(crate::entry::opt_text(behavior_flag) == flag_field(fields));
        let mut action_description: Option<String> = None;
        if behavior_flag.is_some() {
            if parts.len() > 3 && !all_empty_from(cs, &parts, 3) {
                action_description = Some(join_spans(line, cs, &parts, 3, ": "));
            }
        } else if parts.len() > 2 {
            let third = parts[2];
            assert(third.within(0, n as int));
            assert(fields[2] == third.of(cs@));
            if third.lo < third.hi {
                action_description = Some(join_spans(line, cs, &parts, 2, ": "));
            }
        }
        assert(crate::entry::opt_text(action_description) == description_field(fields));
        let mut parsed_action_name: Option<String> = None;
        let mut is_midi_relative = false;
        match &action_description {
            Some(d) => {
                parsed_action_name = Some(action_name(d.as_str()));
                is_midi_relative = is_relative(d.as_str());
            },
            None => {},
        }
        Some(
            Comment {
                section,
                key_combination,
                behavior_flag,
                action_description,
                parsed_action_name,
                is_midi_relative,
            },
        )
    }

    /// Writes the comment: `# `, then the section, the key combination and, where
    /// present, the flag and the description, with ` : ` between them.
    pub fn to_line(&self) -> (r: String)
        ensures
            r@ == comment_line(self@),
    {
        let mut out = String::new();
        out.append("# ");
        out.append(self.section.as_str());
        out.append(" : ");
        out.append(self.key_combination.as_str());
        match &self.behavior_flag {
            Some(f) => {
                out.append(" : ");
                out.append(f.as_str());
            },
            None => {},
        }
        match &self.action_description {
            Some(d) => {
                out.append(" : ");
                out.append(d.as_str());
            },
            None => {},
        }
        assert(out@ =~= comment_line(self@));
        out
    }

    /// The default comment of a keyboard binding, made from the binding's own fields.
    pub fn from_key_entry(entry: &KeyEntry) -> (r: Comment)
        ensures
            r@ == default_comment(entry@),
    {
        let section = entry.section.display_name().to_string();
        let key_combination = entry.generate_key_description();
        let behavior_flag = if same_text(entry.command_id.as_str(), "0") {
            Some("DISABLED DEFAULT".to_string())
        } else {
            Some("OVERRIDE DEFAULT".to_string())
        };
        Comment {
            section,
            key_combination,
            behavior_flag,
            action_description: None,
            parsed_action_name: None,
            is_midi_relative: false,
        }
    }
}

impl KeyEntry {
    /// The key of the binding, or `None` for a special input.
    pub fn key_code(&self) -> (r: Option<KeyCode>)
        ensures
            r == match self.key_input {
                KeyInputType::Regular(k) => Some(k),
                KeyInputType::Special(_) => None,
            },
    {
        match self.key_input {
            KeyInputType::Regular(k) => Some(k),
            KeyInputType::Special(_) => None,
        }
    }

    /// The default comment of the binding.
    pub fn generate_comment(&self) -> (r: Comment)
        ensures
            r@ == default_comment(self@),
    {
        Comment::from_key_entry(self)
    }

    /// The key combination of the binding, such as `Cmd+Shift+M` or `Mousewheel`: the
    /// names of the modifiers in the order command, option, shift, control, then the
    /// name of the key or special input, joined with `+`.
    pub fn generate_key_description(&self) -> (r: String)
        ensures
            r@ == key_description(self@),
    {
        let mut out = String::new();
        let ghost mut parts: Seq<Seq<char>> = Seq::empty();
        let mut first = true;
        if self.modifiers.contains(Modifiers::super_key()) {
            push_part(&mut out, Ghost(parts), first, "Cmd", "+");
            proof {
                parts = parts.push("Cmd"@);
            }
            first = false;
        }
        if self.modifiers.contains(Modifiers::alt()) {
            push_part(&mut out, Ghost(parts), first, "Opt", "+");
            proof {
                parts = parts.push("Opt"@);
            }
            first = false;
        }
        if self.modifiers.contains(Modifiers::shift()) {
            push_part(&mut out, Ghost(parts), first, "Shift", "+");
            proof {
                parts = parts.push("Shift"@);
            }
            first = false;
        }
        if self.modifiers.contains(Modifiers::control()) {
            push_part(&mut out, Ghost(parts), first, "Control", "+");
            proof {
                parts = parts.push("Control"@);
            }
            first = false;
        }
        assert(parts =~= modifier_names(self.modifiers));
        let name: String = match self.key_input {
            KeyInputType::Regular(k) => k.display_name().to_string(),
            KeyInputType::Special(s) => s.to_string(),
        };
        assert(name@ == input_name(self.key_input));
        if !name.as_str().is_empty() {
            push_part(&mut out, Ghost(parts), first, name.as_str(), "+");
            proof {
                parts = parts.push(name@);
            }
        }
        assert(parts =~= modifier_names(self.modifiers) + (if name@.len() > 0 {
            seq![name@]
        } else {
            Seq::empty()
        }));
        out
    }
}

/// The name of an action holds no `(`: what a description says in parentheses is
/// not part of the name.
pub proof fn lemma_action_name_has_no_parenthesis(desc: Seq<char>)
    ensures
        free_of(action_name_of(desc), '('),
{
    lemma_index_of_bounds(desc, '(');
    let i = index_of(desc, '(') as int;
    if i < desc.len() {
        let head = desc.take(i);
        assert forall|j: int| 0 <= j < head.len() implies #[trigger] head[j] != '(' by {
            assert(head[j] == desc[j]);
        }
        lemma_trim_free(head, '(');
    }
}

/// A comment that is read counts as a relative control exactly when it has a
/// description that holds one of the two markers, and the name of its action is the
/// description up to its first `(`.
pub proof fn lemma_relative_control_detection(line: Seq<char>)
    ensures
        match parse_comment(line) {
            Some(c) => match c.action_description {
                Some(d) => c.is_midi_relative == (contains(d, "(MIDI CC relative/mousewheel)"@)
                    || contains(d, "(MIDI relative/mousewheel)"@)) && c.parsed_action_name == Some(
                    action_name_of(d),
                ) && free_of(action_name_of(d), '('),
                None => !c.is_midi_relative && c.parsed_action_name is None,
            },
            None => true,
        },
{
    match parse_comment(line) {
        Some(c) => match c.action_description {
            Some(d) => {
                lemma_action_name_has_no_parenthesis(d);
            },
            None => {},
        },
        None => {},
    }
}

} // verus!
