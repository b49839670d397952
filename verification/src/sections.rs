//! The sections (input contexts) of the host application and their numeric codes.

use crate::error::ParseError;
use vstd::prelude::*;

verus! {

/// A context of the host application in which a binding applies.
#[derive(Debug, Clone, Copy, PartialEq, Eq, Hash, Structural)]
pub enum ReaperActionSection {
    Main,
    MainAltRecording,
    MainAlt1,
    MainAlt2,
    MainAlt3,
    MainAlt4,
    MainAlt5,
    MainAlt6,
    MainAlt7,
    MainAlt8,
    MainAlt9,
    MainAlt10,
    MainAlt11,
    MainAlt12,
    MainAlt13,
    MainAlt14,
    MainAlt15,
    MainAlt16,
    MidiEditor,
    MidiEventList,
    MidiInline,
    MediaExplorer,
}

impl ReaperActionSection {
    /// The numeric code of the section.
    pub open spec fn spec_as_u32(self) -> u32 {
        match self {
            ReaperActionSection::Main => 0,
            ReaperActionSection::MainAltRecording => 100,
            ReaperActionSection::MainAlt1 => 1,
            ReaperActionSection::MainAlt2 => 2,
            ReaperActionSection::MainAlt3 => 3,
            ReaperActionSection::MainAlt4 => 4,
            ReaperActionSection::MainAlt5 => 5,
            ReaperActionSection::MainAlt6 => 6,
            ReaperActionSection::MainAlt7 => 7,
            ReaperActionSection::MainAlt8 => 8,
            ReaperActionSection::MainAlt9 => 9,
            ReaperActionSection::MainAlt10 => 10,
            ReaperActionSection::MainAlt11 => 11,
            ReaperActionSection::MainAlt12 => 12,
            ReaperActionSection::MainAlt13 => 13,
            ReaperActionSection::MainAlt14 => 14,
            ReaperActionSection::MainAlt15 => 15,
            ReaperActionSection::MainAlt16 => 16,
            ReaperActionSection::MidiEditor => 32060,
            ReaperActionSection::MidiEventList => 32061,
            ReaperActionSection::MidiInline => 32062,
            ReaperActionSection::MediaExplorer => 32063,
        }
    }

    /// The section with the numeric code `n`, if there is one.
    pub open spec fn spec_from_u32(n: u32) -> Option<ReaperActionSection> {
        if n == 0 {
            Some(ReaperActionSection::Main)
        } else if n == 100 {
            Some(ReaperActionSection::MainAltRecording)
        } else if n == 1 {
            Some(ReaperActionSection::MainAlt1)
        } else if n == 2 {
            Some(ReaperActionSection::MainAlt2)
        } else if n == 3 {
            Some(ReaperActionSection::MainAlt3)
        } else if n == 4 {
            Some(ReaperActionSection::MainAlt4)
        } else if n == 5 {
            Some(ReaperActionSection::MainAlt5)
        } else if n == 6 {
            Some(ReaperActionSection::MainAlt6)
        } else if n == 7 {
            Some(ReaperActionSection::MainAlt7)
        } else if n == 8 {
            Some(ReaperActionSection::MainAlt8)
        } else if n == 9 {
            Some(ReaperActionSection::MainAlt9)
        } else if n == 10 {
            Some(ReaperActionSection::MainAlt10)
        } else if n == 11 {
            Some(ReaperActionSection::MainAlt11)
        } else if n == 12 {
            Some(ReaperActionSection::MainAlt12)
        } else if n == 13 {
            Some(ReaperActionSection::MainAlt13)
        } else if n == 14 {
            Some(ReaperActionSection::MainAlt14)
        } else if n == 15 {
            Some(ReaperActionSection::MainAlt15)
        } else if n == 16 {
            Some(ReaperActionSection::MainAlt16)
        } else if n == 32060 {
            Some(ReaperActionSection::MidiEditor)
        } else if n == 32061 {
            Some(ReaperActionSection::MidiEventList)
        } else if n == 32062 {
            Some(ReaperActionSection::MidiInline)
        } else if n == 32063 {
            Some(ReaperActionSection::MediaExplorer)
        } else {
            None
        }
    }

    /// The name of the section as it stands in a comment.
    pub open spec fn spec_display_name(self) -> Seq<char> {
        match self {
            ReaperActionSection::Main => "Main"@,
            ReaperActionSection::MainAltRecording => "Main (alt recording)"@,
            ReaperActionSection::MainAlt1 => "Main (alt-1)"@,
            ReaperActionSection::MainAlt2 => "Main (alt-2)"@,
            ReaperActionSection::MainAlt3 => "Main (alt-3)"@,
            ReaperActionSection::MainAlt4 => "Main (alt-4)"@,
            ReaperActionSection::MainAlt5 => "Main (alt-5)"@,
            ReaperActionSection::MainAlt6 => "Main (alt-6)"@,
            ReaperActionSection::MainAlt7 => "Main (alt-7)"@,
            ReaperActionSection::MainAlt8 => "Main (alt-8)"@,
            ReaperActionSection::MainAlt9 => "Main (alt-9)"@,
            ReaperActionSection::MainAlt10 => "Main (alt-10)"@,
            ReaperActionSection::MainAlt11 => "Main (alt-11)"@,
            ReaperActionSection::MainAlt12 => "Main (alt-12)"@,
            ReaperActionSection::MainAlt13 => "Main (alt-13)"@,
            ReaperActionSection::MainAlt14 => "Main (alt-14)"@,
            ReaperActionSection::MainAlt15 => "Main (alt-15)"@,
            ReaperActionSection::MainAlt16 => "Main (alt-16)"@,
            ReaperActionSection::MidiEditor => "MIDI Editor"@,
            ReaperActionSection::MidiEventList => "MIDI Event List"@,
            ReaperActionSection::MidiInline => "MIDI Inline Editor"@,
            ReaperActionSection::MediaExplorer => "Media Explorer"@,
        }
    }

    /// The section with the numeric code `n`. The result is `None` exactly when no
    /// section has that code.
    pub fn from_u32(n: u32) -> (r: Option<ReaperActionSection>)
        ensures
            r == ReaperActionSection::spec_from_u32(n),
            r matches Some(s) ==> s.spec_as_u32() == n,
            r is None ==> forall|s: ReaperActionSection| s.spec_as_u32() != n,
    {
        if n == 0 {
            Some(ReaperActionSection::Main)
        } else if n == 100 {
            Some(ReaperActionSection::MainAltRecording)
        } else if n == 1 {
            Some(ReaperActionSection::MainAlt1)
        } else if n == 2 {
            Some(ReaperActionSection::MainAlt2)
        } else if n == 3 {
            Some(ReaperActionSection::MainAlt3)
        } else if n == 4 {
            Some(ReaperActionSection::MainAlt4)
        } else if n == 5 {
            Some(ReaperActionSection::MainAlt5)
        } else if n == 6 {
            Some(ReaperActionSection::MainAlt6)
        } else if n == 7 {
            Some(ReaperActionSection::MainAlt7)
        } else if n == 8 {
            Some(ReaperActionSection::MainAlt8)
        } else if n == 9 {
            Some(ReaperActionSection::MainAlt9)
        } else if n == 10 {
            Some(ReaperActionSection::MainAlt10)
        } else if n == 11 {
            Some(ReaperActionSection::MainAlt11)
        } else if n == 12 {
            Some(ReaperActionSection::MainAlt12)
        } else if n == 13 {
            Some(ReaperActionSection::MainAlt13)
        } else if n == 14 {
            Some(ReaperActionSection::MainAlt14)
        } else if n == 15 {
            Some(ReaperActionSection::MainAlt15)
        } else if n == 16 {
            Some(ReaperActionSection::MainAlt16)
        } else if n == 32060 {
            Some(ReaperActionSection::MidiEditor)
        } else if n == 32061 {
            Some(ReaperActionSection::MidiEventList)
        } else if n == 32062 {
            Some(ReaperActionSection::MidiInline)
        } else if n == 32063 {
            Some(ReaperActionSection::MediaExplorer)
        } else {
            None
        }
    }

    /// The numeric code of the section.
    #[verifier::when_used_as_spec(spec_as_u32)]
    pub fn as_u32(self) -> (r: u32)
        ensures
            r == self.spec_as_u32(),
            ReaperActionSection::spec_from_u32(r) == Some(self),
    {
        match self {
            ReaperActionSection::Main => 0,
            ReaperActionSection::MainAltRecording => 100,
            ReaperActionSection::MainAlt1 => 1,
            ReaperActionSection::MainAlt2 => 2,
            ReaperActionSection::MainAlt3 => 3,
            ReaperActionSection::MainAlt4 => 4,
            ReaperActionSection::MainAlt5 => 5,
            ReaperActionSection::MainAlt6 => 6,
            ReaperActionSection::MainAlt7 => 7,
            ReaperActionSection::MainAlt8 => 8,
            ReaperActionSection::MainAlt9 => 9,
            ReaperActionSection::MainAlt10 => 10,
            ReaperActionSection::MainAlt11 => 11,
            ReaperActionSection::MainAlt12 => 12,
            ReaperActionSection::MainAlt13 => 13,
            ReaperActionSection::MainAlt14 => 14,
            ReaperActionSection::MainAlt15 => 15,
            ReaperActionSection::MainAlt16 => 16,
            ReaperActionSection::MidiEditor => 32060,
            ReaperActionSection::MidiEventList => 32061,
            ReaperActionSection::MidiInline => 32062,
            ReaperActionSection::MediaExplorer => 32063,
        }
    }

    /// The name of the section as it stands in a comment.
    pub fn display_name(self) -> (r: &'static str)
        ensures
            r@ == self.spec_display_name(),
    {
        match self {
            ReaperActionSection::Main => "Main",
            ReaperActionSection::MainAltRecording => "Main (alt recording)",
            ReaperActionSection::MainAlt1 => "Main (alt-1)",
            ReaperActionSection::MainAlt2 => "Main (alt-2)",
            ReaperActionSection::MainAlt3 => "Main (alt-3)",
            ReaperActionSection::MainAlt4 => "Main (alt-4)",
            ReaperActionSection::MainAlt5 => "Main (alt-5)",
            ReaperActionSection::MainAlt6 => "Main (alt-6)",
            ReaperActionSection::MainAlt7 => "Main (alt-7)",
            ReaperActionSection::MainAlt8 => "Main (alt-8)",
            ReaperActionSection::MainAlt9 => "Main (alt-9)",
            ReaperActionSection::MainAlt10 => "Main (alt-10)",
            ReaperActionSection::MainAlt11 => "Main (alt-11)",
            ReaperActionSection::MainAlt12 => "Main (alt-12)",
            ReaperActionSection::MainAlt13 => "Main (alt-13)",
            ReaperActionSection::MainAlt14 => "Main (alt-14)",
            ReaperActionSection::MainAlt15 => "Main (alt-15)",
            ReaperActionSection::MainAlt16 => "Main (alt-16)",
            ReaperActionSection::MidiEditor => "MIDI Editor",
            ReaperActionSection::MidiEventList => "MIDI Event List",
            ReaperActionSection::MidiInline => "MIDI Inline Editor",
            ReaperActionSection::MediaExplorer => "Media Explorer",
        }
    }
}

impl TryFrom<u32> for ReaperActionSection {
    type Error = ParseError;

    fn try_from(n: u32) -> (r: Result<ReaperActionSection, ParseError>) {
        match ReaperActionSection::from_u32(n) {
            Some(s) => Ok(s),
            None => Err(ParseError::InvalidSectionCode(n)),
        }
    }
}

impl vstd::std_specs::convert::TryFromSpecImpl<u32> for ReaperActionSection {
    open spec fn obeys_try_from_spec() -> bool {
        true
    }

    open spec fn try_from_spec(n: u32) -> Result<ReaperActionSection, ParseError> {
        match ReaperActionSection::spec_from_u32(n) {
            Some(s) => Ok(s),
            None => Err(ParseError::InvalidSectionCode(n)),
        }
    }
}

impl From<ReaperActionSection> for u32 {
    fn from(s: ReaperActionSection) -> (r: u32) {
        s.as_u32()
    }
}

impl vstd::std_specs::convert::FromSpecImpl<ReaperActionSection> for u32 {
    open spec fn obeys_from_spec() -> bool {
        true
    }

    open spec fn from_spec(s: ReaperActionSection) -> u32 {
        s.spec_as_u32()
    }
}

/// A section is the section of its own code.
pub proof fn lemma_section_round_trip(s: ReaperActionSection)
    ensures
        ReaperActionSection::spec_from_u32(s.spec_as_u32()) == Some(s),
{
}

/// A code that names a section is the code of that section.
pub proof fn lemma_section_code_round_trip(n: u32)
    ensures
        ReaperActionSection::spec_from_u32(n) matches Some(s) ==> s.spec_as_u32() == n,
        ReaperActionSection::spec_from_u32(n) is None ==> forall|s: ReaperActionSection|
            s.spec_as_u32() != n,
{
}

} // verus!
