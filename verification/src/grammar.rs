//! The line grammar of a keymap, as functions on character sequences: what a line
//! means as an entry, what a comment means, and how an entry is written as a line.
//!
//! ```text
//! KEY <modifier-byte> <key-or-special-code> <command-id> <section-code> [# <comment>]
//! SCR <termination-code> <section-code> <command-id|"command-id"> "<description>" <path|"path">
//! ACT <flags> <section-code> "<command-id>" "<description>" [<action-id> ...]
//! ```

use crate::decimal::{decimal, number_error_text, parse_number};
use crate::entry::{
    ActionEntryView, ActionFlags, CommentView, KeyEntryView, KeyInputType, ReaperEntryView,
    ScriptEntryView, TerminationBehavior, KNOWN_ACTION_BITS,
};
use crate::error::ParseErrorView;
use crate::keycodes::KeyCode;
use crate::modifiers::{Modifiers, ALT_BIT, CONTROL_BIT, SHIFT_BIT, SUPER_BIT};
use crate::sections::ReaperActionSection;
use crate::special_inputs::SpecialInput;
use crate::text::{contains, index_of, is_whitespace, join, split, tokens, trim};
use vstd::prelude::*;

verus! {

// ---------------------------------------------------------------------------
// Comments
// ---------------------------------------------------------------------------
/// Whether a comment field is a behaviour flag: it holds one of the marker words.
pub open spec fn is_behavior_flag(part: Seq<char>) -> bool {
    contains(part, "OVERRIDE"@) || contains(part, "DISABLED"@) || contains(part, "DEFAULT"@)
}

/// Whether a description names a relative (wheel or MIDI CC) control.
pub open spec fn is_relative_description(desc: Seq<char>) -> bool {
    contains(desc, "(MIDI CC relative/mousewheel)"@) || contains(
        desc,
        "(MIDI relative/mousewheel)"@,
    )
}

/// The name of the action in a description: what stands before the first `(`,
/// trimmed, or the whole description when it has no `(`.
pub open spec fn action_name_of(desc: Seq<char>) -> Seq<char> {
    let i = index_of(desc, '(') as int;
    if i < desc.len() {
        trim(desc.take(i))
    } else {
        desc
    }
}

/// Each piece of `parts`, trimmed.
pub open spec fn trimmed(parts: Seq<Seq<char>>) -> Seq<Seq<char>> {
    Seq::new(parts.len(), |i: int| trim(parts[i]))
}

/// Whether every piece of `parts` is empty.
pub open spec fn all_empty(parts: Seq<Seq<char>>) -> bool {
    forall|i: int| 0 <= i < parts.len() ==> (#[trigger] parts[i]).len() == 0
}

/// The behaviour flag among the trimmed fields of a comment: the third field, if it
/// is not empty and holds a marker word.
pub open spec fn flag_field(parts: Seq<Seq<char>>) -> Option<Seq<char>> {
    if parts.len() > 2 && parts[2].len() > 0 && is_behavior_flag(parts[2]) {
        Some(parts[2])
    } else {
        None
    }
}

/// The action description among the trimmed fields of a comment: the fields after
/// the flag, or from the third on when there is no flag, joined with `": "`.
pub open spec fn description_field(parts: Seq<Seq<char>>) -> Option<Seq<char>> {
    if flag_field(parts) is Some {
        if parts.len() > 3 && !all_empty(parts.skip(3)) {
            Some(join(parts.skip(3), ": "@))
        } else {
            None
        }
    } else if parts.len() > 2 && parts[2].len() > 0 {
        Some(join(parts.skip(2), ": "@))
    } else {
        None
    }
}

/// The comment that the trimmed fields `parts` make up.
pub open spec fn comment_of_fields(parts: Seq<Seq<char>>) -> CommentView
    recommends
        parts.len() >= 2,
{
    let description = description_field(parts);
    CommentView {
        section: parts[0],
        key_combination: parts[1],
        behavior_flag: flag_field(parts),
        action_description: description,
        parsed_action_name: match description {
            Some(d) => Some(action_name_of(d)),
            None => None,
        },
        is_midi_relative: match description {
            Some(d) => is_relative_description(d),
            None => false,
        },
    }
}

/// What a comment text means: after trimming it must start with `#`; what follows,
/// trimmed, is split at each `:` into fields, of which there must be two at least.
pub open spec fn parse_comment(line: Seq<char>) -> Option<CommentView> {
    let t = trim(line);
    if t.len() == 0 || t[0] != '#' {
        None
    } else {
        let parts = trimmed(split(trim(t.skip(1)), ':'));
        if parts.len() < 2 {
            None
        } else {
            Some(comment_of_fields(parts))
        }
    }
}

/// How a comment is written.
pub open spec fn comment_line(c: CommentView) -> Seq<char> {
    "# "@ + c.section + " : "@ + c.key_combination + (match c.behavior_flag {
        Some(f) => " : "@ + f,
        None => Seq::empty(),
    }) + (match c.action_description {
        Some(d) => " : "@ + d,
        None => Seq::empty(),
    })
}

/// The names of the modifiers of `m`, in the order in which a key combination shows
/// them.
pub open spec fn modifier_names(m: Modifiers) -> Seq<Seq<char>> {
    (if m.bits & SUPER_BIT == SUPER_BIT {
        seq!["Cmd"@]
    } else {
        Seq::empty()
    }) + (if m.bits & ALT_BIT == ALT_BIT {
        seq!["Opt"@]
    } else {
        Seq::empty()
    }) + (if m.bits & SHIFT_BIT == SHIFT_BIT {
        seq!["Shift"@]
    } else {
        Seq::empty()
    }) + (if m.bits & CONTROL_BIT == CONTROL_BIT {
        seq!["Control"@]
    } else {
        Seq::empty()
    })
}

/// The name of a key or special input.
pub open spec fn input_name(input: KeyInputType) -> Seq<char> {
    match input {
        KeyInputType::Regular(k) => k.spec_display_name(),
        KeyInputType::Special(s) => s.display_text(),
    }
}

/// The key combination of a keyboard binding: the names of its modifiers and of its
/// input, joined with `+`.
pub open spec fn key_description(k: KeyEntryView) -> Seq<char> {
    let name = input_name(k.key_input);
    join(
        modifier_names(k.modifiers) + (if name.len() > 0 {
            seq![name]
        } else {
            Seq::empty()
        }),
        "+"@,
    )
}

/// The comment that a keyboard binding gets when it has none of its own. The
/// command `0` stands for "unbound".
pub open spec fn default_comment(k: KeyEntryView) -> CommentView {
    CommentView {
        section: k.section.spec_display_name(),
        key_combination: key_description(k),
        behavior_flag: Some(
            if k.command_id == "0"@ {
                "DISABLED DEFAULT"@
            } else {
                "OVERRIDE DEFAULT"@
            },
        ),
        action_description: None,
        parsed_action_name: None,
        is_midi_relative: false,
    }
}

// ---------------------------------------------------------------------------
// Lines
// ---------------------------------------------------------------------------
/// The error of a field that is absent.
pub open spec fn missing_field(tag: Seq<char>, field: Seq<char>) -> ParseErrorView {
    ParseErrorView::MissingField { tag, field }
}

/// The token at position `i` read as a number of at most `max`.
pub open spec fn number_field(
    toks: Seq<Seq<char>>,
    i: int,
    max: nat,
    tag: Seq<char>,
    field: Seq<char>,
) -> Result<nat, ParseErrorView> {
    if toks.len() <= i {
        Err(missing_field(tag, field))
    } else {
        match parse_number(toks[i], max) {
            Ok(v) => Ok(v),
            Err(e) => Err(ParseErrorView::InvalidNumber { tag, field, err: number_error_text(e) }),
        }
    }
}

/// The section that the token at position `i` names.
pub open spec fn section_field(toks: Seq<Seq<char>>, i: int, tag: Seq<char>) -> Result<
    ReaperActionSection,
    ParseErrorView,
> {
    match number_field(toks, i, u32::MAX as nat, tag, "section"@) {
        Err(e) => Err(e),
        Ok(n) => match ReaperActionSection::spec_from_u32(n as u32) {
            Some(s) => Ok(s),
            None => Err(ParseErrorView::InvalidSectionCode(n as u32)),
        },
    }
}

/// The input that `code` names next to the modifiers `m`: a special input when `m`
/// carries the mark, else a key.
pub open spec fn key_input_of(m: Modifiers, code: u16) -> Result<KeyInputType, ParseErrorView> {
    if m.spec_is_special_input() {
        Ok(KeyInputType::Special(SpecialInput::spec_from_key_code(code)))
    } else {
        match KeyCode::spec_from_u16(code) {
            Some(k) => Ok(KeyInputType::Regular(k)),
            None => Err(ParseErrorView::InvalidKeyCode(code)),
        }
    }
}

/// What the tokens of a `KEY` line mean, with the comment part of the line.
pub open spec fn parse_key(toks: Seq<Seq<char>>, comment_part: Option<Seq<char>>) -> Result<
    KeyEntryView,
    ParseErrorView,
> {
    match number_field(toks, 1, 255, "KEY"@, "modifiers"@) {
        Err(e) => Err(e),
        Ok(mods) => match Modifiers::spec_try_from_reaper_code(mods as u8) {
            None => Err(ParseErrorView::InvalidModifierCode(mods as u8)),
            Some(modifiers) => match number_field(toks, 2, 65535, "KEY"@, "key_code"@) {
                Err(e) => Err(e),
                Ok(code) => match key_input_of(modifiers, code as u16) {
                    Err(e) => Err(e),
                    Ok(key_input) => if toks.len() <= 3 {
                        Err(missing_field("KEY"@, "command_id"@))
                    } else {
                        match section_field(toks, 4, "KEY"@) {
                            Err(e) => Err(e),
                            Ok(section) => Ok(
                                KeyEntryView {
                                    modifiers,
                                    key_input,
                                    command_id: toks[3],
                                    section,
                                    comment: match comment_part {
                                        Some(c) => parse_comment(c),
                                        None => None,
                                    },
                                },
                            ),
                        }
                    },
                },
            },
        },
    }
}

/// The command, description and path of an `SCR` line whose data part is `before`.
/// The data part is cut at each `"`. When exactly the tag and the two numbers stand
/// before the first `"`, the command is the first quoted piece; else it is the
/// fourth token. The description is the next quoted piece; the path is the quoted
/// piece after it, or the trimmed rest when nothing more is quoted.
pub open spec fn script_texts(before: Seq<char>, toks: Seq<Seq<char>>) -> Result<
    (Seq<char>, Seq<char>, Seq<char>),
    ParseErrorView,
> {
    let q = split(before, '"');
    if q.len() < 3 {
        Err(missing_field("SCR"@, "description"@))
    } else if tokens(q[0]).len() == 3 {
        if q.len() < 5 {
            Err(missing_field("SCR"@, "description"@))
        } else {
            Ok(
                (
                    q[1],
                    q[3],
                    if q.len() > 5 {
                        q[5]
                    } else {
                        trim(q[4])
                    },
                ),
            )
        }
    } else if toks.len() <= 3 {
        Err(missing_field("SCR"@, "command_id"@))
    } else {
        Ok(
            (
                toks[3],
                q[1],
                if q.len() > 3 {
                    q[3]
                } else {
                    trim(q[2])
                },
            ),
        )
    }
}

/// What an `SCR` line means, given its data part and the tokens of it.
pub open spec fn parse_script(before: Seq<char>, toks: Seq<Seq<char>>) -> Result<
    ScriptEntryView,
    ParseErrorView,
> {
    match number_field(toks, 1, u32::MAX as nat, "SCR"@, "termination"@) {
        Err(e) => Err(e),
        Ok(term) => match TerminationBehavior::spec_from_u32(term as u32) {
            None => Err(ParseErrorView::InvalidTermination(term as u32)),
            Some(termination_behavior) => match section_field(toks, 2, "SCR"@) {
                Err(e) => Err(e),
                Ok(section) => match script_texts(before, toks) {
                    Err(e) => Err(e),
                    Ok(t) => Ok(
                        ScriptEntryView {
                            termination_behavior,
                            section,
                            command_id: t.0,
                            description: t.1,
                            path: t.2,
                        },
                    ),
                },
            },
        },
    }
}

/// What an `ACT` line means, given its data part and the tokens of it. Flag bits
/// without a meaning are dropped. The command and the description are the first two
/// quoted pieces; the tokens after them are the constituent actions.
pub open spec fn parse_action(before: Seq<char>, toks: Seq<Seq<char>>) -> Result<
    ActionEntryView,
    ParseErrorView,
> {
    match number_field(toks, 1, u32::MAX as nat, "ACT"@, "flags"@) {
        Err(e) => Err(e),
        Ok(flags) => match section_field(toks, 2, "ACT"@) {
            Err(e) => Err(e),
            Ok(section) => {
                let q = split(before, '"');
                if q.len() < 4 {
                    Err(missing_field("ACT"@, "command_id/description"@))
                } else {
                    Ok(
                        ActionEntryView {
                            action_flags: ActionFlags { bits: (flags as u32) & KNOWN_ACTION_BITS },
                            section,
                            command_id: q[1],
                            description: q[3],
                            action_ids: if q.len() > 4 {
                                tokens(q[4])
                            } else {
                                Seq::empty()
                            },
                        },
                    )
                }
            },
        },
    }
}

/// The data part of a line: what stands before the first `#`, trimmed.
pub open spec fn data_part(line: Seq<char>) -> Seq<char> {
    trim(line.take(index_of(line, '#') as int))
}

/// The comment part of a line: what stands from the first `#` on, if there is one.
pub open spec fn comment_part(line: Seq<char>) -> Option<Seq<char>> {
    let i = index_of(line, '#') as int;
    if i < line.len() {
        Some(line.skip(i))
    } else {
        None
    }
}

/// What a line means: the first token of its data part is the tag, which decides how
/// the rest is read.
pub open spec fn parse_line(line: Seq<char>) -> Result<ReaperEntryView, ParseErrorView> {
    let before = data_part(line);
    let toks = tokens(before);
    if toks.len() == 0 {
        Err(missing_field("<line>"@, "tag"@))
    } else if toks[0] == "KEY"@ {
        match parse_key(toks, comment_part(line)) {
            Ok(k) => Ok(ReaperEntryView::Key(k)),
            Err(e) => Err(e),
        }
    } else if toks[0] == "SCR"@ {
        match parse_script(before, toks) {
            Ok(s) => Ok(ReaperEntryView::Script(s)),
            Err(e) => Err(e),
        }
    } else if toks[0] == "ACT"@ {
        match parse_action(before, toks) {
            Ok(a) => Ok(ReaperEntryView::Action(a)),
            Err(e) => Err(e),
        }
    } else {
        Err(ParseErrorView::InvalidTag(toks[0]))
    }
}

// ---------------------------------------------------------------------------
// Writing
// ---------------------------------------------------------------------------
/// What stands for the character `c` inside quotes: a backslash goes before a
/// backslash and before a double quote.
pub open spec fn escape_char(c: char) -> Seq<char> {
    if c == '\\' || c == '"' {
        seq!['\\', c]
    } else {
        seq![c]
    }
}

/// `s` with each of its characters escaped.
pub open spec fn escape(s: Seq<char>) -> Seq<char>
    decreases s.len(),
{
    if s.len() == 0 {
        Seq::empty()
    } else {
        escape(s.drop_last()) + escape_char(s.last())
    }
}

/// Whether `s` holds a whitespace character.
pub open spec fn has_whitespace(s: Seq<char>) -> bool {
    exists|i: int| 0 <= i < s.len() && is_whitespace(#[trigger] s[i])
}

/// `s` in double quotes when it holds whitespace, else `s` as it is.
pub open spec fn quote_if_spaced(s: Seq<char>) -> Seq<char> {
    if has_whitespace(s) {
        "\""@ + s + "\""@
    } else {
        s
    }
}

/// The number that stands in the key slot of a `KEY` line.
pub open spec fn key_value(input: KeyInputType) -> u16 {
    match input {
        KeyInputType::Regular(k) => k.spec_as_u8() as u16,
        KeyInputType::Special(s) => s.spec_to_key_code(),
    }
}

/// The line of a keyboard binding. It always ends with a comment: the binding's
/// own, or the default one.
pub open spec fn key_line(k: KeyEntryView) -> Seq<char> {
    "KEY "@ + decimal(k.modifiers.spec_reaper_code() as nat) + " "@ + decimal(
        key_value(k.key_input) as nat,
    ) + " "@ + k.command_id + " "@ + decimal(k.section.spec_as_u32() as nat) + " "@
        + comment_line(
        match k.comment {
            Some(c) => c,
            None => default_comment(k),
        },
    )
}

/// The line of a script binding. The command and the path are quoted only when they
/// hold whitespace; the path is not escaped.
pub open spec fn script_line(s: ScriptEntryView) -> Seq<char> {
    "SCR "@ + decimal(s.termination_behavior.spec_as_u32() as nat) + " "@ + decimal(
        s.section.spec_as_u32() as nat,
    ) + " "@ + quote_if_spaced(escape(s.command_id)) + " \""@ + escape(s.description) + "\" "@
        + quote_if_spaced(s.path)
}

/// The line of a custom action. Without constituent actions nothing follows the
/// description.
pub open spec fn action_line(a: ActionEntryView) -> Seq<char> {
    let ids = join(a.action_ids, " "@);
    "ACT "@ + decimal(a.action_flags.bits as nat) + " "@ + decimal(a.section.spec_as_u32() as nat)
        + " \""@ + escape(a.command_id) + "\" \""@ + escape(a.description) + "\""@ + (if ids.len()
        == 0 {
        Seq::empty()
    } else {
        " "@ + ids
    })
}

/// The line of an entry.
pub open spec fn entry_line(e: ReaperEntryView) -> Seq<char> {
    match e {
        ReaperEntryView::Key(k) => key_line(k),
        ReaperEntryView::Script(s) => script_line(s),
        ReaperEntryView::Action(a) => action_line(a),
    }
}

} // verus!
