//! A keymap as an ordered list of entries: reading it from lines, writing it back,
//! and looking bindings up.

pub use crate::entry::{
    ActionEntry, ActionFlags, Comment, KeyEntry, KeyInputType, ReaperEntry, ScriptEntry,
    TerminationBehavior,
};
pub use crate::error::ParseError;
pub use crate::writer::escape_field;

use crate::text::texts;
use crate::entry::{KeyEntryView, ReaperEntryView};
use crate::error::ParseErrorView;
use crate::grammar::{entry_line, parse_line};
use crate::keycodes::KeyCode;
use crate::modifiers::Modifiers;
use crate::sections::ReaperActionSection;
use crate::text::{lines, lines_text, text_lines, text_of_lines};
use vstd::prelude::*;
use vstd::string::*;

verus! {

/// A key with its modifiers, as a user presses it.
#[derive(Debug, Clone, Copy, PartialEq, Eq, Structural)]
pub struct ReaperActionInput {
    pub key: KeyCode,
    pub modifiers: Modifiers,
}

/// The entries of a keymap, in the order of its lines.
#[derive(Debug, PartialEq, Eq)]
pub struct ReaperActionList(pub Vec<ReaperEntry>);

impl View for ReaperActionList {
    type V = Seq<ReaperEntryView>;

    open spec fn view(&self) -> Seq<ReaperEntryView> {
        Seq::new(self.0@.len(), |i: int| self.0@[i]@)
    }
}

impl Clone for ReaperActionList {
    fn clone(&self) -> (r: ReaperActionList)
        ensures
            r@ == self@,
    {
        let mut out: Vec<ReaperEntry> = Vec::new();
        let mut i: usize = 0;
        while i < self.0.len()
            invariant
                i <= self.0@.len(),
                out@.len() == i,
                forall|j: int| 0 <= j < i ==> (#[trigger] out@[j])@ == self.0@[j]@,
            decreases self.0@.len() - i,
        {
            out.push(self.0[i].clone());
            i += 1;
        }
        let r = ReaperActionList(out);
        assert(r@ =~= self@);
        r
    }
}

/// A line that was left out of a keymap, with the reason.
#[derive(Debug)]
pub struct SkippedLine {
    /// The position of the line, counted from 0.
    pub index: usize,
    /// The line as it was.
    pub text: String,
    /// Why the line is no entry.
    pub error: ParseError,
}

/// A `SkippedLine` with its texts as character sequences.
pub struct SkippedLineView {
    pub index: int,
    pub text: Seq<char>,
    pub error: ParseErrorView,
}

impl View for SkippedLine {
    type V = SkippedLineView;

    open spec fn view(&self) -> SkippedLineView {
        SkippedLineView { index: self.index as int, text: self.text@, error: self.error@ }
    }
}

/// The views of a list of skipped lines.
pub open spec fn skipped_views(v: Seq<SkippedLine>) -> Seq<SkippedLineView> {
    Seq::new(v.len(), |i: int| v[i]@)
}

/// Whether `e` binds the input `input`: a keyboard binding of that key with exactly
/// those modifiers.
pub open spec fn binds(e: ReaperEntryView, input: ReaperActionInput) -> bool {
    e matches ReaperEntryView::Key(k) && k.modifiers == input.modifiers && k.key_input
        == KeyInputType::Regular(input.key)
}

/// The command that an entry names.
pub open spec fn command_of(e: ReaperEntryView) -> Seq<char> {
    match e {
        ReaperEntryView::Key(k) => k.command_id,
        ReaperEntryView::Script(s) => s.command_id,
        ReaperEntryView::Action(a) => a.command_id,
    }
}

/// The keyboard bindings among `entries`, in order.
pub open spec fn key_entries(entries: Seq<ReaperEntryView>) -> Seq<KeyEntryView>
    decreases entries.len(),
{
    if entries.len() == 0 {
        Seq::empty()
    } else {
        let rest = key_entries(entries.drop_last());
        match entries.last() {
            ReaperEntryView::Key(k) => rest.push(k),
            _ => rest,
        }
    }
}

/// The entries that `lines` hold, in order; a line that is no entry is left out.
pub open spec fn entries_of_lines(lines: Seq<Seq<char>>) -> Seq<ReaperEntryView>
    decreases lines.len(),
{
    if lines.len() == 0 {
        Seq::empty()
    } else {
        let rest = entries_of_lines(lines.drop_last());
        match parse_line(lines.last()) {
            Ok(e) => rest.push(e),
            Err(_) => rest,
        }
    }
}

/// The lines among `lines` that are no entries, in order, each with its position and
/// the reason.
pub open spec fn skipped_of_lines(lines: Seq<Seq<char>>) -> Seq<SkippedLineView>
    decreases lines.len(),
{
    if lines.len() == 0 {
        Seq::empty()
    } else {
        let rest = skipped_of_lines(lines.drop_last());
        match parse_line(lines.last()) {
            Ok(_) => rest,
            Err(e) => rest.push(
                SkippedLineView { index: lines.len() - 1, text: lines.last(), error: e },
            ),
        }
    }
}

/// The lines of `entries`, one each, in order.
pub open spec fn lines_of_entries(entries: Seq<ReaperEntryView>) -> Seq<Seq<char>> {
    Seq::new(entries.len(), |i: int| entry_line(entries[i]))
}

/// The views of a list of keyboard bindings.
pub open spec fn key_views(v: Seq<KeyEntry>) -> Seq<KeyEntryView> {
    Seq::new(v.len(), |i: int| v[i]@)
}

/// Every line is an entry or is skipped, never both: the two lists share the lines
/// out between them.
pub proof fn lemma_lines_accounted(lines: Seq<Seq<char>>)
    ensures
        entries_of_lines(lines).len() + skipped_of_lines(lines).len() == lines.len(),
    decreases lines.len(),
{
    if lines.len() > 0 {
        lemma_lines_accounted(lines.drop_last());
    }
}

/// The command that the first binding of `input` in `list` names. The result is
/// `None` exactly when no entry binds `input`.
pub fn lookup_command_id(list: &ReaperActionList, input: &ReaperActionInput) -> (r: Option<
    String,
>)
    ensures
        match r {
            Some(cmd) => exists|i: int|
                0 <= i < list@.len() && binds(#[trigger] list@[i], *input) && (forall|j: int|
                    0 <= j < i ==> !binds(#[trigger] list@[j], *input)) && command_of(list@[i])
                    == cmd@,
            None => forall|i: int| 0 <= i < list@.len() ==> !binds(#[trigger] list@[i], *input),
        },
{
    let mut i: usize = 0;
    while i < list.0.len()
        invariant
            i <= list.0@.len(),
            list@.len() == list.0@.len(),
            forall|j: int| 0 <= j < i ==> !binds(#[trigger] list@[j], *input),
        decreases list.0@.len() - i,
    {
        assert(list@[i as int] == list.0@[i as int]@);
        match &list.0[i] {
            ReaperEntry::Key(k) => {
                let same_key = match k.key_input {
                    KeyInputType::Regular(key) => key == input.key,
                    KeyInputType::Special(_) => false,
                };
                if k.modifiers == input.modifiers && same_key {
                    assert(binds(list@[i as int], *input));
                    return Some(k.command_id.clone());
                }
            },
            _ => {},
        }
        i += 1;
    }
    None
}

impl ReaperActionList {
    /// Reads a keymap from its lines, and tells which lines it left out and why. A
    /// line that is no entry is skipped; the others give the entries, in order.
    pub fn from_lines_with_skipped(lines: &Vec<String>) -> (r: (ReaperActionList, Vec<SkippedLine>))
        ensures
            r.0@ == entries_of_lines(texts(lines@)),
            skipped_views(r.1@) == skipped_of_lines(texts(lines@)),
            r.0@.len() + r.1@.len() == lines@.len(),
    {
        let mut entries: Vec<ReaperEntry> = Vec::new();
        let mut skipped: Vec<SkippedLine> = Vec::new();
        let ghost all = texts(lines@);
        let mut i: usize = 0;
        proof {
            assert(all.take(0) =~= Seq::<Seq<char>>::empty());
            assert(ReaperActionList(entries)@ =~= entries_of_lines(all.take(0)));
            assert(skipped_views(skipped@) =~= skipped_of_lines(all.take(0)));
        }
        while i < lines.len()
            invariant
                i <= lines@.len(),
                all == texts(lines@),
                ReaperActionList(entries)@ == entries_of_lines(all.take(i as int)),
                skipped_views(skipped@) == skipped_of_lines(all.take(i as int)),
            decreases lines@.len() - i,
        {
            let ghost before_entries = ReaperActionList(entries)@;
            let ghost before_skipped = skipped_views(skipped@);
            proof {
                let next = all.take(i + 1);
                assert(next.drop_last() =~= all.take(i as int));
                assert(next.last() == lines@[i as int]@);
            }
            match ReaperEntry::from_line(lines[i].as_str()) {
                Ok(e) => {
                    entries.push(e);
                    assert(ReaperActionList(entries)@ =~= before_entries.push(e@));
                },
                Err(error) => {
                    let s = SkippedLine { index: i, text: lines[i].clone(), error };
                    skipped.push(s);
                    assert(skipped_views(skipped@) =~= before_skipped.push(s@));
                },
            }
            i += 1;
        }
        proof {
            assert(all.take(i as int) =~= all);
            lemma_lines_accounted(all);
        }
        (ReaperActionList(entries), skipped)
    }

    /// Reads a keymap from its lines. A line that is no entry is skipped; the others
    /// give the entries, in order.
    pub fn from_lines(lines: &Vec<String>) -> (r: ReaperActionList)
        ensures
            r@ == entries_of_lines(texts(lines@)),
            r@.len() <= lines@.len(),
    {
        let (list, _skipped) = ReaperActionList::from_lines_with_skipped(lines);
        list
    }

    /// Writes the keymap as lines, one for each entry, in order.
    pub fn to_lines(&self) -> (r: Vec<String>)
        ensures
            texts(r@) == lines_of_entries(self@),
    {
        let mut out: Vec<String> = Vec::new();
        let mut i: usize = 0;
        while i < self.0.len()
            invariant
                i <= self.0@.len(),
                out@.len() == i,
                forall|j: int| 0 <= j < i ==> (#[trigger] out@[j])@ == entry_line(self.0@[j]@),
            decreases self.0@.len() - i,
        {
            out.push(self.0[i].to_line());
            i += 1;
        }
        assert(texts(out@) =~= lines_of_entries(self@));
        out
    }

    /// Reads a keymap from a text, line by line, and tells which lines it left out
    /// and why.
    pub fn from_text_with_skipped(text: &str) -> (r: (ReaperActionList, Vec<SkippedLine>))
        ensures
            r.0@ == entries_of_lines(lines(text@)),
            skipped_views(r.1@) == skipped_of_lines(lines(text@)),
            r.0@.len() + r.1@.len() == lines(text@).len(),
    {
        let all = text_lines(text);
        ReaperActionList::from_lines_with_skipped(&all)
    }

    /// Reads a keymap from a text, line by line. A line that is no entry is skipped;
    /// a text without any entry gives the empty keymap.
    pub fn from_text(text: &str) -> (r: ReaperActionList)
        ensures
            r@ == entries_of_lines(lines(text@)),
    {
        let all = text_lines(text);
        ReaperActionList::from_lines(&all)
    }

    /// Writes the keymap as a text: the line of each entry, in order, each followed
    /// by one line feed.
    pub fn to_text(&self) -> (r: String)
        ensures
            r@ == text_of_lines(lines_of_entries(self@)),
    {
        let all = self.to_lines();
        lines_text(&all)
    }

    /// The keyboard bindings of the keymap, in order.
    pub fn keys(&self) -> (r: Vec<KeyEntry>)
        ensures
            key_views(r@) == key_entries(self@),
    {
        let mut out: Vec<KeyEntry> = Vec::new();
        let mut i: usize = 0;
        proof {
            assert(self@.take(0) =~= Seq::<ReaperEntryView>::empty());
            assert(key_views(out@) =~= key_entries(self@.take(0)));
        }
        while i < self.0.len()
            invariant
                i <= self.0@.len(),
                self@.len() == self.0@.len(),
                key_views(out@) == key_entries(self@.take(i as int)),
            decreases self.0@.len() - i,
        {
            let ghost before = key_views(out@);
            proof {
                let next = self@.take(i + 1);
                assert(next.drop_last() =~= self@.take(i as int));
                assert(next.last() == self.0@[i as int]@);
            }
            match &self.0[i] {
                ReaperEntry::Key(k) => {
                    let c = k.clone();
                    out.push(c);
                    assert(key_views(out@) =~= before.push(c@));
                },
                _ => {},
            }
            i += 1;
        }
        proof {
            assert(self@.take(i as int) =~= self@);
        }
        out
    }
}

/// The keymap of a host that has none configured: the empty list.
pub fn get_action_list_from_current_config() -> (r: ReaperActionList)
    ensures
        r@ == Seq::<ReaperEntryView>::empty(),
{
    let r = ReaperActionList(Vec::new());
    assert(r@ =~= Seq::<ReaperEntryView>::empty());
    r
}

/// The three bindings of the sample keymap: `A`, `Control+A` and `Control+B`.
pub open spec fn sample_bindings() -> Seq<ReaperEntryView> {
    seq![
        ReaperEntryView::Key(
            KeyEntryView {
                modifiers: Modifiers { bits: 0 },
                key_input: KeyInputType::Regular(KeyCode::A),
                command_id: "40044"@,
                section: ReaperActionSection::Main,
                comment: None,
            },
        ),
        ReaperEntryView::Key(
            KeyEntryView {
                modifiers: Modifiers { bits: crate::modifiers::CONTROL_BIT },
                key_input: KeyInputType::Regular(KeyCode::A),
                command_id: "shifted command id"@,
                section: ReaperActionSection::Main,
                comment: None,
            },
        ),
        ReaperEntryView::Key(
            KeyEntryView {
                modifiers: Modifiers { bits: crate::modifiers::CONTROL_BIT },
                key_input: KeyInputType::Regular(KeyCode::B),
                command_id: "SWS_ACTION"@,
                section: ReaperActionSection::Main,
                comment: None,
            },
        ),
    ]
}

/// A small keymap to try lookups on.
pub fn make_test_action_list() -> (r: ReaperActionList)
    ensures
        r@ == sample_bindings(),
{
    let mut entries: Vec<ReaperEntry> = Vec::new();
    entries.push(
        ReaperEntry::Key(
            KeyEntry {
                modifiers: Modifiers::empty(),
                key_input: KeyInputType::Regular(KeyCode::A),
                command_id: "40044".to_string(),
                section: ReaperActionSection::Main,
                comment: None,
            },
        ),
    );
    entries.push(
        ReaperEntry::Key(
            KeyEntry {
                modifiers: Modifiers::control(),
                key_input: KeyInputType::Regular(KeyCode::A),
                command_id: "shifted command id".to_string(),
                section: ReaperActionSection::Main,
                comment: None,
            },
        ),
    );
    entries.push(
        ReaperEntry::Key(
            KeyEntry {
                modifiers: Modifiers::control(),
                key_input: KeyInputType::Regular(KeyCode::B),
                command_id: "SWS_ACTION".to_string(),
                section: ReaperActionSection::Main,
                comment: None,
            },
        ),
    );
    let r = ReaperActionList(entries);
    assert(r@ =~= sample_bindings());
    r
}

} // verus!
