//! Keyboard bindings with numeric commands, read with a regular expression from
//! `KEY` lines that carry a full comment:
//! `KEY <device> <key> <command> <flags> # <context> : <shortcut> [: OVERRIDE DEFAULT] : <description>`.

use crate::decimal::{decimal, parse_number, parse_number_in, push_decimal};
use crate::text::texts;
use crate::text::{chars_of, substring, trim, trim_span};
use vstd::prelude::*;
use vstd::string::*;

verus! {

/// The pattern of a binding line, in the extended syntax of the `regex` crate, which
/// ignores the whitespace of the pattern. Its groups, in order: device, key,
/// command, flags, context, shortcut, override mark, description.
pub const KEY_LINE_PATTERN: &'static str =
    "(?x)^\n        KEY \\s+\n        (?P<device>\\d+) \\s+\n        (?P<key_code>\\d+) \\s+\n        (?P<command>\\d+) \\s+\n        (?P<flags>\\d+) \\s*\n        \\# \\s*\n        (?P<context>[^:]+?) \\s* : \\s*\n        (?P<shortcut>[^:]*?) \\s* (?: : \\s*\n        (?P<override>OVERRIDE\\ DEFAULT))?\n        \\s* : \\s*\n        (?P<desc>.+)\n    $";

/// The number of groups of `KEY_LINE_PATTERN`, the whole match counted as the first.
pub const KEY_LINE_GROUPS: usize = 9;

/// A keyboard binding as a binding line with a full comment gives it.
#[derive(Debug, PartialEq, Eq)]
pub struct KeyBinding {
    pub device: u32,
    pub key_code: u32,
    pub command_id: u32,
    pub flags: u32,
    pub context: String,
    pub shortcut: String,
    pub override_default: bool,
    pub description: String,
}

/// A `KeyBinding` with its texts as character sequences.
pub struct KeyBindingView {
    pub device: u32,
    pub key_code: u32,
    pub command_id: u32,
    pub flags: u32,
    pub context: Seq<char>,
    pub shortcut: Seq<char>,
    pub override_default: bool,
    pub description: Seq<char>,
}

impl View for KeyBinding {
    type V = KeyBindingView;

    open spec fn view(&self) -> KeyBindingView {
        KeyBindingView {
            device: self.device,
            key_code: self.key_code,
            command_id: self.command_id,
            flags: self.flags,
            context: self.context@,
            shortcut: self.shortcut@,
            override_default: self.override_default,
            description: self.description@,
        }
    }
}

/// The view of an optional binding.
pub open spec fn opt_binding(o: Option<KeyBinding>) -> Option<KeyBindingView> {
    match o {
        Some(b) => Some(b@),
        None => None,
    }
}

/// The views of a list of bindings.
pub open spec fn binding_views(v: Seq<KeyBinding>) -> Seq<KeyBindingView> {
    Seq::new(v.len(), |i: int| v[i]@)
}

/// The characters of each group of a match; a group that took no part is `None`.
pub open spec fn group_texts(groups: Seq<Option<String>>) -> Seq<Option<Seq<char>>> {
    Seq::new(groups.len(), |i: int| crate::entry::opt_text(groups[i]))
}

/// The characters of the groups of an optional match.
pub open spec fn opt_group_texts(o: Option<Vec<Option<String>>>) -> Option<Seq<Option<Seq<char>>>> {
    match o {
        Some(g) => Some(group_texts(g@)),
        None => None,
    }
}

/// What the `regex` crate finds when it searches `haystack` for the first match of
/// `pattern`: `None` when the pattern does not compile or nothing matches, else the
/// text of every capture group in the order of the opening parentheses, the whole
/// match first.
pub uninterp spec fn regex_captures(pattern: Seq<char>, haystack: Seq<char>) -> Option<
    Seq<Option<Seq<char>>>,
>;

/// Compiles `pattern` with `regex::Regex::new`, searches `haystack` with
/// `Regex::captures` and copies the text of each group out of the match. Nothing is
/// proved of what the crate matches: the result is named, not described.
#[verifier::external_body]
fn captures(pattern: &str, haystack: &str) -> (r: Option<Vec<Option<String>>>)
    ensures
        opt_group_texts(r) == regex_captures(pattern@, haystack@),
{
    match regex::Regex::new(pattern) {
        Ok(re) => re.captures(haystack).map(
            |caps| caps.iter().map(|m| m.map(|m| m.as_str().to_string())).collect(),
        ),
        Err(_) => None,
    }
}

/// The number that the group at position `i` holds, if the group took part in the
/// match and is a number that fits 32 bits.
pub open spec fn group_number(groups: Seq<Option<Seq<char>>>, i: int) -> Option<u32> {
    match groups[i] {
        Some(t) => match parse_number(t, u32::MAX as nat) {
            Ok(n) => Some(n as u32),
            Err(_) => None,
        },
        None => None,
    }
}

/// The binding that the groups of a match of `KEY_LINE_PATTERN` make up. There is
/// none when a group is absent that the binding needs, or when one of the four
/// numbers does not fit 32 bits. The override mark is optional; the three texts are
/// trimmed.
pub open spec fn binding_of_groups(groups: Seq<Option<Seq<char>>>) -> Option<KeyBindingView> {
    if groups.len() < KEY_LINE_GROUPS {
        None
    } else if group_number(groups, 1) is None || group_number(groups, 2) is None || group_number(
        groups,
        3,
    ) is None || group_number(groups, 4) is None || groups[5] is None || groups[6] is None
        || groups[8] is None {
        None
    } else {
        Some(
            KeyBindingView {
                device: group_number(groups, 1)->Some_0,
                key_code: group_number(groups, 2)->Some_0,
                command_id: group_number(groups, 3)->Some_0,
                flags: group_number(groups, 4)->Some_0,
                context: trim(groups[5]->Some_0),
                shortcut: trim(groups[6]->Some_0),
                override_default: groups[7] is Some,
                description: trim(groups[8]->Some_0),
            },
        )
    }
}

/// The binding that a line stands for, if any.
pub open spec fn binding_of_line(line: Seq<char>) -> Option<KeyBindingView> {
    match regex_captures(KEY_LINE_PATTERN@, line) {
        Some(groups) => binding_of_groups(groups),
        None => None,
    }
}

/// The bindings that `lines` stand for, in order; a line that stands for none is
/// left out.
pub open spec fn bindings_of_lines(lines: Seq<Seq<char>>) -> Seq<KeyBindingView>
    decreases lines.len(),
{
    if lines.len() == 0 {
        Seq::empty()
    } else {
        let rest = bindings_of_lines(lines.drop_last());
        match binding_of_line(lines.last()) {
            Some(b) => rest.push(b),
            None => rest,
        }
    }
}

/// The comment of a binding line.
pub open spec fn binding_comment(b: KeyBindingView) -> Seq<char> {
    if b.override_default {
        b.context + " : "@ + b.shortcut + " : OVERRIDE DEFAULT : "@ + b.description
    } else {
        b.context + " : "@ + b.shortcut + " : "@ + b.description
    }
}

/// The line of a binding.
pub open spec fn binding_line(b: KeyBindingView) -> Seq<char> {
    "KEY "@ + decimal(b.device as nat) + " "@ + decimal(b.key_code as nat) + " "@ + decimal(
        b.command_id as nat,
    ) + " "@ + decimal(b.flags as nat) + " # "@ + binding_comment(b)
}

/// The number that a group holds.
fn read_group_number(groups: &Vec<Option<String>>, i: usize) -> (r: Option<u32>)
    requires
        i < groups@.len(),
    ensures
        r == group_number(group_texts(groups@), i as int),
{
    match &groups[i] {
        Some(t) => {
            let cs = chars_of(t.as_str());
            assert(cs@.subrange(0, cs@.len() as int) =~= t@);
            match parse_number_in(cs.as_slice(), 0, cs.len(), u32::MAX) {
                Ok(n) => Some(n),
                Err(_) => None,
            }
        },
        None => None,
    }
}

/// `s` without the whitespace at its ends.
pub fn trimmed_text(s: &str) -> (r: String)
    ensures
        r@ == trim(s@),
{
    let cs = chars_of(s);
    assert(cs@.subrange(0, cs@.len() as int) =~= s@);
    let t = trim_span(cs.as_slice(), 0, cs.len());
    substring(s, t.lo, t.hi)
}

impl KeyBinding {
    /// The binding that the groups of a match of `KEY_LINE_PATTERN` make up.
    pub fn from_captures(groups: &Vec<Option<String>>) -> (r: Option<KeyBinding>)
        ensures
            opt_binding(r) == binding_of_groups(group_texts(groups@)),
    {
        if groups.len() < KEY_LINE_GROUPS {
            return None;
        }
        let ghost g = group_texts(groups@);
        let device = match read_group_number(groups, 1) {
            Some(n) => n,
            None => {
                return None;
            },
        };
        let key_code = match read_group_number(groups, 2) {
            Some(n) => n,
            None => {
                return None;
            },
        };
        let command_id = match read_group_number(groups, 3) {
            Some(n) => n,
            None => {
                return None;
            },
        };
        let flags = match read_group_number(groups, 4) {
            Some(n) => n,
            None => {
                return None;
            },
        };
        assert(g[5] == crate::entry::opt_text(groups@[5]));
        assert(g[6] == crate::entry::opt_text(groups@[6]));
        assert(g[7] == crate::entry::opt_text(groups@[7]));
        assert(g[8] == crate::entry::opt_text(groups@[8]));
        let context = match &groups[5] {
            Some(t) => trimmed_text(t.as_str()),
            None => {
                return None;
            },
        };
        let shortcut = match &groups[6] {
            Some(t) => trimmed_text(t.as_str()),
            None => {
                return None;
            },
        };
        let override_default = groups[7].is_some();
        let description = match &groups[8] {
            Some(t) => trimmed_text(t.as_str()),
            None => {
                return None;
            },
        };
        Some(
            KeyBinding {
                device,
                key_code,
                command_id,
                flags,
                context,
                shortcut,
                override_default,
                description,
            },
        )
    }

    /// Writes the binding as one line, without a line end.
    pub fn to_line(&self) -> (r: String)
        ensures
            r@ == binding_line(self@),
    {
        let mut out = String::new();
        out.append("KEY ");
        push_decimal(&mut out, self.device);
        out.append(" ");
        push_decimal(&mut out, self.key_code);
        out.append(" ");
        push_decimal(&mut out, self.command_id);
        out.append(" ");
        push_decimal(&mut out, self.flags);
        out.append(" # ");
        let ghost before = out@;
        out.append(self.context.as_str());
        out.append(" : ");
        out.append(self.shortcut.as_str());
        if self.override_default {
            out.append(" : OVERRIDE DEFAULT : ");
        } else {
            out.append(" : ");
        }
        out.append(self.description.as_str());
        assert(out@ =~= before + binding_comment(self@));
        out
    }
}

/// Reads a binding line. The line is a binding when the pattern matches it and its
/// four numbers fit 32 bits.
pub fn parse_line(line: &str) -> (r: Option<KeyBinding>)
    ensures
        opt_binding(r) == binding_of_line(line@),
{
    match captures(KEY_LINE_PATTERN, line) {
        Some(groups) => KeyBinding::from_captures(&groups),
        None => None,
    }
}

/// Reads every line that is a binding line, in order, and leaves the others out.
pub fn parse_keymap_lines(lines: &Vec<String>) -> (r: Vec<KeyBinding>)
    ensures
        binding_views(r@) == bindings_of_lines(texts(lines@)),
{
    let mut out: Vec<KeyBinding> = Vec::new();
    let ghost all = texts(lines@);
    let mut i: usize = 0;
    proof {
        assert(all.take(0) =~= Seq::<Seq<char>>::empty());
        assert(binding_views(out@) =~= bindings_of_lines(all.take(0)));
    }
    while i < lines.len()
        invariant
            i <= lines@.len(),
            all == texts(lines@),
            binding_views(out@) == bindings_of_lines(all.take(i as int)),
        decreases lines@.len() - i,
    {
        let ghost before = binding_views(out@);
        proof {
            let next = all.take(i + 1);
            assert(next.drop_last() =~= all.take(i as int));
            assert(next.last() == lines@[i as int]@);
        }
        match parse_line(lines[i].as_str()) {
            Some(b) => {
                out.push(b);
                assert(binding_views(out@) =~= before.push(b@));
            },
            None => {},
        }
        i += 1;
    }
    proof {
        assert(all.take(i as int) =~= all);
    }
    out
}

/// Writes each binding as a line, in order.
pub fn keymap_lines(bindings: &[KeyBinding]) -> (r: Vec<String>)
    ensures
        r@.len() == bindings@.len(),
        forall|i: int| 0 <= i < r@.len() ==> (#[trigger] r@[i])@ == binding_line(bindings@[i]@),
{
    let mut out: Vec<String> = Vec::new();
    let mut i: usize = 0;
    while i < bindings.len()
        invariant
            i <= bindings@.len(),
            out@.len() == i,
            forall|j: int| 0 <= j < i ==> (#[trigger] out@[j])@ == binding_line(bindings@[j]@),
        decreases bindings@.len() - i,
    {
        out.push(bindings[i].to_line());
        i += 1;
    }
    out
}

} // verus!
