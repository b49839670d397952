//! The entry model: the three kinds of binding that a keymap line can hold, and the
//! structured comment of a keyboard binding.

use crate::error::ParseError;
use crate::keycodes::KeyCode;
use crate::modifiers::Modifiers;
use crate::sections::ReaperActionSection;
use crate::special_inputs::SpecialInput;
use crate::text::texts;
use vstd::prelude::*;

verus! {

/// What a keyboard binding is triggered by.
#[derive(Debug, Clone, Copy, PartialEq, Eq, Structural)]
pub enum KeyInputType {
    /// A keyboard key.
    Regular(KeyCode),
    /// A wheel, a gesture or a media key; goes with the modifier byte 255.
    Special(SpecialInput),
}

/// The comment that trails a keyboard binding:
/// `# section : key combination [: behaviour flag] [: action description]`.
#[derive(Debug, PartialEq, Eq)]
pub struct Comment {
    /// The name of the section, such as `Main` or `MIDI Editor`.
    pub section: String,
    /// The key combination, such as `Cmd+Shift+M` or `Mousewheel`.
    pub key_combination: String,
    /// The behaviour flag, such as `OVERRIDE DEFAULT` or `DISABLED DEFAULT`.
    pub behavior_flag: Option<String>,
    /// The description of the action, such as `Track: Toggle mute for selected tracks`.
    pub action_description: Option<String>,
    /// The description without what follows its first `(`.
    pub parsed_action_name: Option<String>,
    /// Whether the description names a relative (wheel or MIDI CC) control.
    pub is_midi_relative: bool,
}

/// A `Comment` with its texts as character sequences.
pub struct CommentView {
    pub section: Seq<char>,
    pub key_combination: Seq<char>,
    pub behavior_flag: Option<Seq<char>>,
    pub action_description: Option<Seq<char>>,
    pub parsed_action_name: Option<Seq<char>>,
    pub is_midi_relative: bool,
}

/// The characters of an optional string.
pub open spec fn opt_text(o: Option<String>) -> Option<Seq<char>> {
    match o {
        Some(s) => Some(s@),
        None => None,
    }
}

impl View for Comment {
    type V = CommentView;

    open spec fn view(&self) -> CommentView {
        CommentView {
            section: self.section@,
            key_combination: self.key_combination@,
            behavior_flag: opt_text(self.behavior_flag),
            action_description: opt_text(self.action_description),
            parsed_action_name: opt_text(self.parsed_action_name),
            is_midi_relative: self.is_midi_relative,
        }
    }
}

/// A copy of an optional string.
pub fn clone_opt_string(o: &Option<String>) -> (r: Option<String>)
    ensures
        opt_text(r) == opt_text(*o),
{
    match o {
        Some(s) => Some(s.clone()),
        None => None,
    }
}

impl Clone for Comment {
    fn clone(&self) -> (r: Comment)
        ensures
            r@ == self@,
    {
        Comment {
            section: self.section.clone(),
            key_combination: self.key_combination.clone(),
            behavior_flag: clone_opt_string(&self.behavior_flag),
            action_description: clone_opt_string(&self.action_description),
            parsed_action_name: clone_opt_string(&self.parsed_action_name),
            is_midi_relative: self.is_midi_relative,
        }
    }
}

/// A `KEY` entry: a key or special input with its modifiers, bound to a command in a
/// section.
#[derive(Debug, PartialEq, Eq)]
pub struct KeyEntry {
    pub modifiers: Modifiers,
    pub key_input: KeyInputType,
    pub command_id: String,
    pub section: ReaperActionSection,
    pub comment: Option<Comment>,
}

/// A `KeyEntry` with its texts as character sequences.
pub struct KeyEntryView {
    pub modifiers: Modifiers,
    pub key_input: KeyInputType,
    pub command_id: Seq<char>,
    pub section: ReaperActionSection,
    pub comment: Option<CommentView>,
}

/// The view of an optional comment.
pub open spec fn opt_comment(o: Option<Comment>) -> Option<CommentView> {
    match o {
        Some(c) => Some(c@),
        None => None,
    }
}

impl View for KeyEntry {
    type V = KeyEntryView;

    open spec fn view(&self) -> KeyEntryView {
        KeyEntryView {
            modifiers: self.modifiers,
            key_input: self.key_input,
            command_id: self.command_id@,
            section: self.section,
            comment: opt_comment(self.comment),
        }
    }
}

impl Clone for KeyEntry {
    fn clone(&self) -> (r: KeyEntry)
        ensures
            r@ == self@,
    {
        KeyEntry {
            modifiers: self.modifiers,
            key_input: self.key_input,
            command_id: self.command_id.clone(),
            section: self.section,
            comment: match &self.comment {
                Some(c) => Some(c.clone()),
                None => None,
            },
        }
    }
}

/// What the host does with a running instance of a script when the script is
/// started again.
#[derive(Debug, Clone, Copy, PartialEq, Eq, Structural)]
pub enum TerminationBehavior {
    /// Ask the user.
    Prompt,
    /// End the running instance.
    TerminateExisting,
    /// Start a further instance.
    AlwaysNewInstance,
}

impl TerminationBehavior {
    /// The numeric code of the behaviour.
    pub open spec fn spec_as_u32(self) -> u32 {
        match self {
            TerminationBehavior::Prompt => 4,
            TerminationBehavior::TerminateExisting => 260,
            TerminationBehavior::AlwaysNewInstance => 516,
        }
    }

    /// The behaviour with the numeric code `n`, if there is one.
    pub open spec fn spec_from_u32(n: u32) -> Option<TerminationBehavior> {
        if n == 4 {
            Some(TerminationBehavior::Prompt)
        } else if n == 260 {
            Some(TerminationBehavior::TerminateExisting)
        } else if n == 516 {
            Some(TerminationBehavior::AlwaysNewInstance)
        } else {
            None
        }
    }

    /// The behaviour with the numeric code `n`. The result is `None` exactly when no
    /// behaviour has that code.
    pub fn from_u32(n: u32) -> (r: Option<TerminationBehavior>)
        ensures
            r == TerminationBehavior::spec_from_u32(n),
            r matches Some(t) ==> t.spec_as_u32() == n,
            r is None ==> forall|t: TerminationBehavior| t.spec_as_u32() != n,
    {
        if n == 4 {
            Some(TerminationBehavior::Prompt)
        } else if n == 260 {
            Some(TerminationBehavior::TerminateExisting)
        } else if n == 516 {
            Some(TerminationBehavior::AlwaysNewInstance)
        } else {
            None
        }
    }

    /// The numeric code of the behaviour.
    #[verifier::when_used_as_spec(spec_as_u32)]
    pub fn as_u32(self) -> (r: u32)
        ensures
            r == self.spec_as_u32(),
            TerminationBehavior::spec_from_u32(r) == Some(self),
    {
        match self {
            TerminationBehavior::Prompt => 4,
            TerminationBehavior::TerminateExisting => 260,
            TerminationBehavior::AlwaysNewInstance => 516,
        }
    }
}

impl TryFrom<u32> for TerminationBehavior {
    type Error = ParseError;

    fn try_from(n: u32) -> (r: Result<TerminationBehavior, ParseError>) {
        match TerminationBehavior::from_u32(n) {
            Some(t) => Ok(t),
            None => Err(ParseError::InvalidTermination(n)),
        }
    }
}

impl vstd::std_specs::convert::TryFromSpecImpl<u32> for TerminationBehavior {
    open spec fn obeys_try_from_spec() -> bool {
        true
    }

    open spec fn try_from_spec(n: u32) -> Result<TerminationBehavior, ParseError> {
        match TerminationBehavior::spec_from_u32(n) {
            Some(t) => Ok(t),
            None => Err(ParseError::InvalidTermination(n)),
        }
    }
}

impl From<TerminationBehavior> for u32 {
    fn from(t: TerminationBehavior) -> (r: u32) {
        t.as_u32()
    }
}

impl vstd::std_specs::convert::FromSpecImpl<TerminationBehavior> for u32 {
    open spec fn obeys_from_spec() -> bool {
        true
    }

    open spec fn from_spec(t: TerminationBehavior) -> u32 {
        t.spec_as_u32()
    }
}

/// Bit of "consolidate undo points".
pub const CONSOLIDATE_UNDO_BIT: u32 = 0b0000_0001;

/// Bit of "show in menus".
pub const SHOW_IN_MENUS_BIT: u32 = 0b0000_0010;

/// Bit of "active if all constituent actions are".
pub const ACTIVE_IF_ALL_BIT: u32 = 0b0001_0000;

/// Bit of "active if any constituent action is".
pub const ACTIVE_IF_ANY_BIT: u32 = 0b0010_0000;

/// Every bit of the action flags that has a meaning.
pub const KNOWN_ACTION_BITS: u32 = 0b0011_0011;

/// The flags of a custom action.
#[derive(Debug, Clone, Copy, PartialEq, Eq, Structural)]
pub struct ActionFlags {
    pub bits: u32,
}

impl ActionFlags {
    /// The flags of `self` include every flag of `other`.
    pub open spec fn spec_contains(self, other: ActionFlags) -> bool {
        self.bits & other.bits == other.bits
    }

    /// No flag.
    pub fn empty() -> (r: ActionFlags)
        ensures
            r.bits == 0,
    {
        ActionFlags { bits: 0 }
    }

    /// Consolidate undo points.
    pub fn consolidate_undo() -> (r: ActionFlags)
        ensures
            r.bits == CONSOLIDATE_UNDO_BIT,
    {
        ActionFlags { bits: CONSOLIDATE_UNDO_BIT }
    }

    /// Show in menus.
    pub fn show_in_menus() -> (r: ActionFlags)
        ensures
            r.bits == SHOW_IN_MENUS_BIT,
    {
        ActionFlags { bits: SHOW_IN_MENUS_BIT }
    }

    /// Active if all constituent actions are.
    pub fn active_if_all() -> (r: ActionFlags)
        ensures
            r.bits == ACTIVE_IF_ALL_BIT,
    {
        ActionFlags { bits: ACTIVE_IF_ALL_BIT }
    }

    /// Active if any constituent action is.
    pub fn active_if_any() -> (r: ActionFlags)
        ensures
            r.bits == ACTIVE_IF_ANY_BIT,
    {
        ActionFlags { bits: ACTIVE_IF_ANY_BIT }
    }

    /// The raw bits.
    pub fn bits(&self) -> (r: u32)
        ensures
            r == self.bits,
    {
        self.bits
    }

    /// The flags with the bits of `bits` that have a meaning; the others are dropped.
    pub fn from_bits_truncate(bits: u32) -> (r: ActionFlags)
        ensures
            r.bits == bits & KNOWN_ACTION_BITS,
    {
        ActionFlags { bits: bits & KNOWN_ACTION_BITS }
    }

    /// Whether every flag of `other` is set in `self`.
    #[verifier::when_used_as_spec(spec_contains)]
    pub fn contains(self, other: ActionFlags) -> (r: bool)
        ensures
            r == self.spec_contains(other),
    {
        self.bits & other.bits == other.bits
    }

    /// The flags of both sets.
    pub fn union(self, other: ActionFlags) -> (r: ActionFlags)
        ensures
            r.bits == self.bits | other.bits,
    {
        ActionFlags { bits: self.bits | other.bits }
    }
}

/// An `SCR` entry: a script registered as an action.
#[derive(Debug, PartialEq, Eq)]
pub struct ScriptEntry {
    pub termination_behavior: TerminationBehavior,
    pub section: ReaperActionSection,
    pub command_id: String,
    pub description: String,
    pub path: String,
}

/// A `ScriptEntry` with its texts as character sequences.
pub struct ScriptEntryView {
    pub termination_behavior: TerminationBehavior,
    pub section: ReaperActionSection,
    pub command_id: Seq<char>,
    pub description: Seq<char>,
    pub path: Seq<char>,
}

impl View for ScriptEntry {
    type V = ScriptEntryView;

    open spec fn view(&self) -> ScriptEntryView {
        ScriptEntryView {
            termination_behavior: self.termination_behavior,
            section: self.section,
            command_id: self.command_id@,
            description: self.description@,
            path: self.path@,
        }
    }
}

impl Clone for ScriptEntry {
    fn clone(&self) -> (r: ScriptEntry)
        ensures
            r@ == self@,
    {
        ScriptEntry {
            termination_behavior: self.termination_behavior,
            section: self.section,
            command_id: self.command_id.clone(),
            description: self.description.clone(),
            path: self.path.clone(),
        }
    }
}

/// An `ACT` entry: a custom action made of other actions.
#[derive(Debug, PartialEq, Eq)]
pub struct ActionEntry {
    pub action_flags: ActionFlags,
    pub section: ReaperActionSection,
    pub command_id: String,
    pub description: String,
    pub action_ids: Vec<String>,
}

/// An `ActionEntry` with its texts as character sequences.
pub struct ActionEntryView {
    pub action_flags: ActionFlags,
    pub section: ReaperActionSection,
    pub command_id: Seq<char>,
    pub description: Seq<char>,
    pub action_ids: Seq<Seq<char>>,
}

impl View for ActionEntry {
    type V = ActionEntryView;

    open spec fn view(&self) -> ActionEntryView {
        ActionEntryView {
            action_flags: self.action_flags,
            section: self.section,
            command_id: self.command_id@,
            description: self.description@,
            action_ids: texts(self.action_ids@),
        }
    }
}

/// A copy of a list of strings.
pub fn clone_strings(v: &Vec<String>) -> (r: Vec<String>)
    ensures
        texts(r@) == texts(v@),
{
    let mut out: Vec<String> = Vec::new();
    let mut i: usize = 0;
    while i < v.len()
        invariant
            i <= v@.len(),
            out@.len() == i,
            forall|j: int| 0 <= j < i ==> out@[j]@ == v@[j]@,
        decreases v@.len() - i,
    {
        out.push(v[i].clone());
        i += 1;
    }
    assert(texts(out@) =~= texts(v@));
    out
}

impl Clone for ActionEntry {
    fn clone(&self) -> (r: ActionEntry)
        ensures
            r@ == self@,
    {
        ActionEntry {
            action_flags: self.action_flags,
            section: self.section,
            command_id: self.command_id.clone(),
            description: self.description.clone(),
            action_ids: clone_strings(&self.action_ids),
        }
    }
}

/// One entry of a keymap.
#[derive(Debug, PartialEq, Eq)]
pub enum ReaperEntry {
    Key(KeyEntry),
    Script(ScriptEntry),
    Action(ActionEntry),
}

/// A `ReaperEntry` with its texts as character sequences.
pub enum ReaperEntryView {
    Key(KeyEntryView),
    Script(ScriptEntryView),
    Action(ActionEntryView),
}

impl View for ReaperEntry {
    type V = ReaperEntryView;

    open spec fn view(&self) -> ReaperEntryView {
        match self {
            ReaperEntry::Key(k) => ReaperEntryView::Key(k@),
            ReaperEntry::Script(s) => ReaperEntryView::Script(s@),
            ReaperEntry::Action(a) => ReaperEntryView::Action(a@),
        }
    }
}

impl Clone for ReaperEntry {
    fn clone(&self) -> (r: ReaperEntry)
        ensures
            r@ == self@,
    {
        match self {
            ReaperEntry::Key(k) => ReaperEntry::Key(k.clone()),
            ReaperEntry::Script(s) => ReaperEntry::Script(s.clone()),
            ReaperEntry::Action(a) => ReaperEntry::Action(a.clone()),
        }
    }
}

} // verus!
