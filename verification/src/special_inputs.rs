//! The inputs that are no keyboard keys: wheels, gestures and media keys. A line
//! names one by a numeric code in its key slot, next to the modifier byte 255.
//!
//! A closed table gives the known inputs. A known input has one code that it is
//! written with; some have a second, older code, 128 less, that is read as well.
//! Every other code is kept as it is, as a media key or as an unknown input.

use crate::decimal::{decimal, push_decimal};
use vstd::prelude::*;
use vstd::string::*;

verus! {

/// An input that is no keyboard key.
#[derive(Debug, Clone, Copy, PartialEq, Eq, Structural)]
pub enum SpecialInput {
    /// The vertical mouse wheel.
    Mousewheel,
    /// The vertical mouse wheel with Ctrl.
    CtrlMousewheel,
    /// The vertical mouse wheel with Alt.
    AltMousewheel,
    /// The vertical mouse wheel with Ctrl and Alt.
    CtrlAltMousewheel,
    /// The vertical mouse wheel with Shift.
    ShiftMousewheel,
    /// The vertical mouse wheel with Ctrl and Shift.
    CtrlShiftMousewheel,
    /// The vertical mouse wheel with Alt and Shift.
    AltShiftMousewheel,
    /// The vertical mouse wheel with Ctrl, Alt and Shift.
    CtrlAltShiftMousewheel,
    /// The horizontal mouse wheel.
    HorizWheel,
    /// The horizontal mouse wheel with Alt.
    AltHorizWheel,
    /// The horizontal mouse wheel with Ctrl.
    CtrlHorizWheel,
    /// The horizontal mouse wheel with Ctrl and Alt.
    CtrlAltHorizWheel,
    /// The horizontal mouse wheel with Shift.
    ShiftHorizWheel,
    /// The horizontal mouse wheel with Ctrl and Shift.
    CtrlShiftHorizWheel,
    /// The horizontal mouse wheel with Alt and Shift.
    AltShiftHorizWheel,
    /// The horizontal mouse wheel with Ctrl, Alt and Shift.
    CtrlAltShiftHorizWheel,
    /// Pinch zoom.
    MultiZoom,
    /// Pinch zoom with Ctrl.
    CtrlMultiZoom,
    /// Pinch zoom with Alt.
    AltMultiZoom,
    /// Pinch zoom with Ctrl, Alt and Shift.
    CtrlAltShiftMultiZoom,
    /// Two-finger rotation.
    MultiRotate,
    /// Two-finger rotation with Ctrl.
    CtrlMultiRotate,
    /// Two-finger horizontal swipe.
    MultiHorz,
    /// Two-finger vertical swipe.
    MultiVert,
    /// A key of a media keyboard, with its code.
    MediaKey(u16),
    /// An input that the table does not know, with its code.
    Unknown(u16),
}

/// Whether `code` is the older code of a known input; the code that the input is
/// written with is 128 more.
pub open spec fn is_alias_code(code: u16) -> bool {
    code == 24 || code == 25 || code == 40 || code == 56 || code == 72 || code == 73 || code == 74 || code == 88 || code == 90 || code == 120 || code == 121 || code == 122 || code == 123 || code == 125
}

/// Whether `code` is kept as a media key: 232 and every 256th code after it, and
/// every code from 488 on.
pub open spec fn is_media_key_code(code: u16) -> bool {
    (code >= 232 && (code - 232) % 256 == 0) || code >= 488
}

/// The code that the input read from `code` is written with.
pub open spec fn canonical_code(code: u16) -> u16 {
    if is_alias_code(code) {
        (code + 128) as u16
    } else {
        code
    }
}

impl SpecialInput {
    /// The input that `code` stands for.
    pub open spec fn spec_from_key_code(code: u16) -> SpecialInput {
        if code == 120 || code == 248 {
            SpecialInput::Mousewheel
        } else if code == 121 || code == 249 {
            SpecialInput::CtrlMousewheel
        } else if code == 122 || code == 250 {
            SpecialInput::AltMousewheel
        } else if code == 123 || code == 251 {
            SpecialInput::CtrlAltMousewheel
        } else if code == 252 {
            SpecialInput::ShiftMousewheel
        } else if code == 125 || code == 253 {
            SpecialInput::CtrlShiftMousewheel
        } else if code == 254 {
            SpecialInput::AltShiftMousewheel
        } else if code == 255 {
            SpecialInput::CtrlAltShiftMousewheel
        } else if code == 88 || code == 216 {
            SpecialInput::HorizWheel
        } else if code == 90 || code == 218 {
            SpecialInput::AltHorizWheel
        } else if code == 217 {
            SpecialInput::CtrlHorizWheel
        } else if code == 219 {
            SpecialInput::CtrlAltHorizWheel
        } else if code == 220 {
            SpecialInput::ShiftHorizWheel
        } else if code == 221 {
            SpecialInput::CtrlShiftHorizWheel
        } else if code == 222 {
            SpecialInput::AltShiftHorizWheel
        } else if code == 223 {
            SpecialInput::CtrlAltShiftHorizWheel
        } else if code == 72 || code == 200 {
            SpecialInput::MultiZoom
        } else if code == 73 || code == 201 {
            SpecialInput::CtrlMultiZoom
        } else if code == 74 || code == 202 {
            SpecialInput::AltMultiZoom
        } else if code == 207 {
            SpecialInput::CtrlAltShiftMultiZoom
        } else if code == 24 || code == 152 {
            SpecialInput::MultiRotate
        } else if code == 25 || code == 153 {
            SpecialInput::CtrlMultiRotate
        } else if code == 40 || code == 168 {
            SpecialInput::MultiHorz
        } else if code == 56 || code == 184 {
            SpecialInput::MultiVert
        } else if is_media_key_code(code) {
            SpecialInput::MediaKey(code)
        } else {
            SpecialInput::Unknown(code)
        }
    }

    /// The code that the input is written with.
    pub open spec fn spec_to_key_code(self) -> u16 {
        match self {
            SpecialInput::Mousewheel => 248,
            SpecialInput::CtrlMousewheel => 249,
            SpecialInput::AltMousewheel => 250,
            SpecialInput::CtrlAltMousewheel => 251,
            SpecialInput::ShiftMousewheel => 252,
            SpecialInput::CtrlShiftMousewheel => 253,
            SpecialInput::AltShiftMousewheel => 254,
            SpecialInput::CtrlAltShiftMousewheel => 255,
            SpecialInput::HorizWheel => 216,
            SpecialInput::AltHorizWheel => 218,
            SpecialInput::CtrlHorizWheel => 217,
            SpecialInput::CtrlAltHorizWheel => 219,
            SpecialInput::ShiftHorizWheel => 220,
            SpecialInput::CtrlShiftHorizWheel => 221,
            SpecialInput::AltShiftHorizWheel => 222,
            SpecialInput::CtrlAltShiftHorizWheel => 223,
            SpecialInput::MultiZoom => 200,
            SpecialInput::CtrlMultiZoom => 201,
            SpecialInput::AltMultiZoom => 202,
            SpecialInput::CtrlAltShiftMultiZoom => 207,
            SpecialInput::MultiRotate => 152,
            SpecialInput::CtrlMultiRotate => 153,
            SpecialInput::MultiHorz => 168,
            SpecialInput::MultiVert => 184,
            SpecialInput::MediaKey(key) => key,
            SpecialInput::Unknown(key) => key,
        }
    }

    /// The name of the input as it stands in a comment.
    pub open spec fn display_text(self) -> Seq<char> {
        match self {
            SpecialInput::Mousewheel => "Mousewheel"@,
            SpecialInput::CtrlMousewheel => "Ctrl+Mousewheel"@,
            SpecialInput::AltMousewheel => "Alt+Mousewheel"@,
            SpecialInput::CtrlAltMousewheel => "Ctrl+Alt+Mousewheel"@,
            SpecialInput::ShiftMousewheel => "Shift+Mousewheel"@,
            SpecialInput::CtrlShiftMousewheel => "Ctrl+Shift+Mousewheel"@,
            SpecialInput::AltShiftMousewheel => "Alt+Shift+Mousewheel"@,
            SpecialInput::CtrlAltShiftMousewheel => "Ctrl+Alt+Shift+Mousewheel"@,
            SpecialInput::HorizWheel => "HorizWheel"@,
            SpecialInput::AltHorizWheel => "Alt+HorizWheel"@,
            SpecialInput::CtrlHorizWheel => "Ctrl+HorizWheel"@,
            SpecialInput::CtrlAltHorizWheel => "Ctrl+Alt+HorizWheel"@,
            SpecialInput::ShiftHorizWheel => "Shift+HorizWheel"@,
            SpecialInput::CtrlShiftHorizWheel => "Ctrl+Shift+HorizWheel"@,
            SpecialInput::AltShiftHorizWheel => "Alt+Shift+HorizWheel"@,
            SpecialInput::CtrlAltShiftHorizWheel => "Ctrl+Alt+Shift+HorizWheel"@,
            SpecialInput::MultiZoom => "MultiZoom"@,
            SpecialInput::CtrlMultiZoom => "Ctrl+MultiZoom"@,
            SpecialInput::AltMultiZoom => "Alt+MultiZoom"@,
            SpecialInput::CtrlAltShiftMultiZoom => "Ctrl+Alt+Shift+MultiZoom"@,
            SpecialInput::MultiRotate => "MultiRotate"@,
            SpecialInput::CtrlMultiRotate => "Ctrl+MultiRotate"@,
            SpecialInput::MultiHorz => "MultiHorz"@,
            SpecialInput::MultiVert => "MultiVert"@,
            SpecialInput::MediaKey(key) => "MediaKey("@ + decimal(key as nat) + ")"@,
            SpecialInput::Unknown(key) => "Unknown("@ + decimal(key as nat) + ")"@,
        }
    }

    /// The input is one that reading a code can give: a known input, or a kept code
    /// that the table does not claim, filed as the code's range says.
    pub open spec fn canonical(self) -> bool {
        SpecialInput::spec_from_key_code(self.spec_to_key_code()) == self
    }

    /// The input that `code` stands for. Every code stands for one; written back, the
    /// input gives `code` again, or 128 more where `code` is an older code.
    pub fn from_key_code(code: u16) -> (r: SpecialInput)
        ensures
            r == SpecialInput::spec_from_key_code(code),
            r.spec_to_key_code() == canonical_code(code),
            r.canonical(),
    {
        if code == 120 || code == 248 {
            SpecialInput::Mousewheel
        } else if code == 121 || code == 249 {
            SpecialInput::CtrlMousewheel
        } else if code == 122 || code == 250 {
            SpecialInput::AltMousewheel
        } else if code == 123 || code == 251 {
            SpecialInput::CtrlAltMousewheel
        } else if code == 252 {
            SpecialInput::ShiftMousewheel
        } else if code == 125 || code == 253 {
            SpecialInput::CtrlShiftMousewheel
        } else if code == 254 {
            SpecialInput::AltShiftMousewheel
        } else if code == 255 {
            SpecialInput::CtrlAltShiftMousewheel
        } else if code == 88 || code == 216 {
            SpecialInput::HorizWheel
        } else if code == 90 || code == 218 {
            SpecialInput::AltHorizWheel
        } else if code == 217 {
            SpecialInput::CtrlHorizWheel
        } else if code == 219 {
            SpecialInput::CtrlAltHorizWheel
        } else if code == 220 {
            SpecialInput::ShiftHorizWheel
        } else if code == 221 {
            SpecialInput::CtrlShiftHorizWheel
        } else if code == 222 {
            SpecialInput::AltShiftHorizWheel
        } else if code == 223 {
            SpecialInput::CtrlAltShiftHorizWheel
        } else if code == 72 || code == 200 {
            SpecialInput::MultiZoom
        } else if code == 73 || code == 201 {
            SpecialInput::CtrlMultiZoom
        } else if code == 74 || code == 202 {
            SpecialInput::AltMultiZoom
        } else if code == 207 {
            SpecialInput::CtrlAltShiftMultiZoom
        } else if code == 24 || code == 152 {
            SpecialInput::MultiRotate
        } else if code == 25 || code == 153 {
            SpecialInput::CtrlMultiRotate
        } else if code == 40 || code == 168 {
            SpecialInput::MultiHorz
        } else if code == 56 || code == 184 {
            SpecialInput::MultiVert
        } else if (code >= 232 && (code - 232) % 256 == 0) || code >= 488 {
            SpecialInput::MediaKey(code)
        } else {
            SpecialInput::Unknown(code)
        }
    }

    /// The code that the input is written with.
    #[verifier::when_used_as_spec(spec_to_key_code)]
    pub fn to_key_code(self) -> (r: u16)
        ensures
            r == self.spec_to_key_code(),
    {
        match self {
            SpecialInput::Mousewheel => 248,
            SpecialInput::CtrlMousewheel => 249,
            SpecialInput::AltMousewheel => 250,
            SpecialInput::CtrlAltMousewheel => 251,
            SpecialInput::ShiftMousewheel => 252,
            SpecialInput::CtrlShiftMousewheel => 253,
            SpecialInput::AltShiftMousewheel => 254,
            SpecialInput::CtrlAltShiftMousewheel => 255,
            SpecialInput::HorizWheel => 216,
            SpecialInput::AltHorizWheel => 218,
            SpecialInput::CtrlHorizWheel => 217,
            SpecialInput::CtrlAltHorizWheel => 219,
            SpecialInput::ShiftHorizWheel => 220,
            SpecialInput::CtrlShiftHorizWheel => 221,
            SpecialInput::AltShiftHorizWheel => 222,
            SpecialInput::CtrlAltShiftHorizWheel => 223,
            SpecialInput::MultiZoom => 200,
            SpecialInput::CtrlMultiZoom => 201,
            SpecialInput::AltMultiZoom => 202,
            SpecialInput::CtrlAltShiftMultiZoom => 207,
            SpecialInput::MultiRotate => 152,
            SpecialInput::CtrlMultiRotate => 153,
            SpecialInput::MultiHorz => 168,
            SpecialInput::MultiVert => 184,
            SpecialInput::MediaKey(key) => key,
            SpecialInput::Unknown(key) => key,
        }
    }

    /// The name of the input as it stands in a comment.
    pub fn to_string(&self) -> (r: String)
        ensures
            r@ == self.display_text(),
    {
        match self {
            SpecialInput::Mousewheel => "Mousewheel".to_string(),
            SpecialInput::CtrlMousewheel => "Ctrl+Mousewheel".to_string(),
            SpecialInput::AltMousewheel => "Alt+Mousewheel".to_string(),
            SpecialInput::CtrlAltMousewheel => "Ctrl+Alt+Mousewheel".to_string(),
            SpecialInput::ShiftMousewheel => "Shift+Mousewheel".to_string(),
            SpecialInput::CtrlShiftMousewheel => "Ctrl+Shift+Mousewheel".to_string(),
            SpecialInput::AltShiftMousewheel => "Alt+Shift+Mousewheel".to_string(),
            SpecialInput::CtrlAltShiftMousewheel => "Ctrl+Alt+Shift+Mousewheel".to_string(),
            SpecialInput::HorizWheel => "HorizWheel".to_string(),
            SpecialInput::AltHorizWheel => "Alt+HorizWheel".to_string(),
            SpecialInput::CtrlHorizWheel => "Ctrl+HorizWheel".to_string(),
            SpecialInput::CtrlAltHorizWheel => "Ctrl+Alt+HorizWheel".to_string(),
            SpecialInput::ShiftHorizWheel => "Shift+HorizWheel".to_string(),
            SpecialInput::CtrlShiftHorizWheel => "Ctrl+Shift+HorizWheel".to_string(),
            SpecialInput::AltShiftHorizWheel => "Alt+Shift+HorizWheel".to_string(),
            SpecialInput::CtrlAltShiftHorizWheel => "Ctrl+Alt+Shift+HorizWheel".to_string(),
            SpecialInput::MultiZoom => "MultiZoom".to_string(),
            SpecialInput::CtrlMultiZoom => "Ctrl+MultiZoom".to_string(),
            SpecialInput::AltMultiZoom => "Alt+MultiZoom".to_string(),
            SpecialInput::CtrlAltShiftMultiZoom => "Ctrl+Alt+Shift+MultiZoom".to_string(),
            SpecialInput::MultiRotate => "MultiRotate".to_string(),
            SpecialInput::CtrlMultiRotate => "Ctrl+MultiRotate".to_string(),
            SpecialInput::MultiHorz => "MultiHorz".to_string(),
            SpecialInput::MultiVert => "MultiVert".to_string(),
            SpecialInput::MediaKey(key) => {
                let mut out = "MediaKey(".to_string();
                push_decimal(&mut out, *key as u32);
                out.append(")");
                out
            },
            SpecialInput::Unknown(key) => {
                let mut out = "Unknown(".to_string();
                push_decimal(&mut out, *key as u32);
                out.append(")");
                out
            },
        }
    }
}

/// Reading a code and writing the input back gives the code again, for every code
/// that is not an older code of a known input.
pub proof fn lemma_special_code_round_trip(code: u16)
    requires
        !is_alias_code(code),
    ensures
        SpecialInput::spec_from_key_code(code).spec_to_key_code() == code,
{
}

/// Reading a code and writing the input back gives the code that the input is
/// written with, and reading that code gives the same input.
pub proof fn lemma_special_code_canonical(code: u16)
    ensures
        SpecialInput::spec_from_key_code(code).spec_to_key_code() == canonical_code(code),
        SpecialInput::spec_from_key_code(canonical_code(code)) == SpecialInput::spec_from_key_code(
            code,
        ),
{
}

/// A known input is read back from the code it is written with.
pub proof fn lemma_special_input_round_trip(s: SpecialInput)
    requires
        !(s is MediaKey),
        !(s is Unknown),
    ensures
        SpecialInput::spec_from_key_code(s.spec_to_key_code()) == s,
{
}

} // verus!
