//! Modifier flags of a key binding and their one-byte code in a keymap line.
//!
//! The byte on disk is one more than the sum of the flag bits, so that "no modifier"
//! is written as 1. The byte 255 is set apart: it says that the key slot of the line
//! holds a special input (wheel, gesture, media key) and no keyboard key.

use vstd::prelude::*;

verus! {

/// Bit of the shift key.
pub const SHIFT_BIT: u8 = 0b0000_0100;

/// Bit of the command (super) key.
pub const SUPER_BIT: u8 = 0b0000_1000;

/// Bit of the option (alt) key.
pub const ALT_BIT: u8 = 0b0001_0000;

/// Bit of the control key.
pub const CONTROL_BIT: u8 = 0b0010_0000;

/// Bit that marks a special input.
pub const SPECIAL_INPUT_BIT: u8 = 0b1000_0000;

/// The four keyboard modifier bits together.
pub const REGULAR_BITS: u8 = 0b0011_1100;

/// Every bit that has a meaning.
pub const KNOWN_BITS: u8 = 0b1011_1100;

/// The code that stands for a special input.
pub const SPECIAL_INPUT_CODE: u8 = 255;

/// A set of modifier flags.
#[derive(Debug, Clone, Copy, PartialEq, Eq, Structural)]
pub struct Modifiers {
    pub bits: u8,
}

impl Modifiers {
    /// The flags of `self` include every flag of `other`.
    pub open spec fn spec_contains(self, other: Modifiers) -> bool {
        self.bits & other.bits == other.bits
    }

    /// The set is marked as a special input.
    pub open spec fn spec_is_special_input(self) -> bool {
        self.bits & SPECIAL_INPUT_BIT != 0
    }

    /// The set is one that a code can stand for: the special-input mark alone, or
    /// keyboard modifiers only.
    pub open spec fn representable(self) -> bool {
        self.bits == SPECIAL_INPUT_BIT || self.bits & !REGULAR_BITS == 0
    }

    /// The code of the set: 255 for a special input, else one more than the keyboard
    /// modifier bits.
    pub open spec fn spec_reaper_code(self) -> u8 {
        if self.spec_is_special_input() {
            SPECIAL_INPUT_CODE
        } else {
            (1 + (self.bits & 0x7F)) as u8
        }
    }

    /// The set that the code `n` stands for, if any: 255 is the special-input mark
    /// alone; any other code must be at least 1 and, less one, hold keyboard modifier
    /// bits only.
    pub open spec fn spec_try_from_reaper_code(n: u8) -> Option<Modifiers> {
        if n == SPECIAL_INPUT_CODE {
            Some(Modifiers { bits: SPECIAL_INPUT_BIT })
        } else if n >= 1 && ((n - 1) as u8) & !REGULAR_BITS == 0 {
            Some(Modifiers { bits: (n - 1) as u8 })
        } else {
            None
        }
    }

    /// No flag.
    pub fn empty() -> (r: Modifiers)
        ensures
            r.bits == 0,
    {
        Modifiers { bits: 0 }
    }

    /// Every flag, the special-input mark included.
    pub fn all() -> (r: Modifiers)
        ensures
            r.bits == KNOWN_BITS,
    {
        Modifiers { bits: KNOWN_BITS }
    }

    /// The shift key.
    pub fn shift() -> (r: Modifiers)
        ensures
            r.bits == SHIFT_BIT,
    {
        Modifiers { bits: SHIFT_BIT }
    }

    /// The control key.
    pub fn control() -> (r: Modifiers)
        ensures
            r.bits == CONTROL_BIT,
    {
        Modifiers { bits: CONTROL_BIT }
    }

    /// The option (alt) key.
    pub fn alt() -> (r: Modifiers)
        ensures
            r.bits == ALT_BIT,
    {
        Modifiers { bits: ALT_BIT }
    }

    /// The command (super) key.
    pub fn super_key() -> (r: Modifiers)
        ensures
            r.bits == SUPER_BIT,
    {
        Modifiers { bits: SUPER_BIT }
    }

    /// The mark of a special input.
    pub fn special_input() -> (r: Modifiers)
        ensures
            r.bits == SPECIAL_INPUT_BIT,
    {
        Modifiers { bits: SPECIAL_INPUT_BIT }
    }

    /// The raw bits.
    pub fn bits(&self) -> (r: u8)
        ensures
            r == self.bits,
    {
        self.bits
    }

    /// The set with exactly the bits of `bits`, unless one of them has no meaning.
    pub fn from_bits(bits: u8) -> (r: Option<Modifiers>)
        ensures
            r == if bits & !KNOWN_BITS == 0 {
                Some(Modifiers { bits })
            } else {
                None
            },
    {
        if bits & !KNOWN_BITS == 0 {
            Some(Modifiers { bits })
        } else {
            None
        }
    }

    /// The set with the bits of `bits` that have a meaning.
    pub fn from_bits_truncate(bits: u8) -> (r: Modifiers)
        ensures
            r.bits == bits & KNOWN_BITS,
    {
        Modifiers { bits: bits & KNOWN_BITS }
    }

    /// Whether no flag is set.
    pub fn is_empty(&self) -> (r: bool)
        ensures
            r == (self.bits == 0),
    {
        self.bits == 0
    }

    /// Whether every flag of `other` is set in `self`.
    #[verifier::when_used_as_spec(spec_contains)]
    pub fn contains(self, other: Modifiers) -> (r: bool)
        ensures
            r == self.spec_contains(other),
    {
        self.bits & other.bits == other.bits
    }

    /// The flags of both sets.
    pub fn union(self, other: Modifiers) -> (r: Modifiers)
        ensures
            r.bits == self.bits | other.bits,
    {
        Modifiers { bits: self.bits | other.bits }
    }

    /// Whether the set is marked as a special input.
    #[verifier::when_used_as_spec(spec_is_special_input)]
    pub fn is_special_input(self) -> (r: bool)
        ensures
            r == self.spec_is_special_input(),
    {
        self.bits & SPECIAL_INPUT_BIT != 0
    }

    /// The code of the set in a keymap line.
    #[verifier::when_used_as_spec(spec_reaper_code)]
    pub fn reaper_code(self) -> (r: u8)
        ensures
            r == self.spec_reaper_code(),
            r >= 1,
            r == SPECIAL_INPUT_CODE <==> self.spec_is_special_input(),
    {
        let bits: u8 = self.bits;
        let low: u8 = bits & 0x7F;
        assert(low <= 127) by (bit_vector)
            requires
                low == bits & 0x7F,
        ;
        if self.bits & SPECIAL_INPUT_BIT != 0 {
            SPECIAL_INPUT_CODE
        } else {
            1 + low
        }
    }

    /// The set that the code `n` stands for. A code that decodes is the code of the
    /// set it gives.
    pub fn try_from_reaper_code(n: u8) -> (r: Option<Modifiers>)
        ensures
            r == Modifiers::spec_try_from_reaper_code(n),
            r matches Some(m) ==> m.representable() && m.spec_reaper_code() == n && (
            m.spec_is_special_input() <==> n == SPECIAL_INPUT_CODE),
            n == SPECIAL_INPUT_CODE ==> r == Some(Modifiers { bits: SPECIAL_INPUT_BIT }),
            n == 0 ==> r is None,
    {
        proof {
            lemma_code_round_trip(n);
        }
        if n == SPECIAL_INPUT_CODE {
            Some(Modifiers { bits: SPECIAL_INPUT_BIT })
        } else if n >= 1 && (n - 1) & !REGULAR_BITS == 0 {
            Some(Modifiers { bits: n - 1 })
        } else {
            None
        }
    }
}

impl std::ops::BitOr for Modifiers {
    type Output = Modifiers;

    fn bitor(self, rhs: Modifiers) -> (r: Modifiers) {
        Modifiers { bits: self.bits | rhs.bits }
    }
}

impl vstd::std_specs::ops::BitOrSpecImpl for Modifiers {
    open spec fn obeys_bitor_spec() -> bool {
        true
    }

    open spec fn bitor_req(self, rhs: Modifiers) -> bool {
        true
    }

    open spec fn bitor_spec(self, rhs: Modifiers) -> Modifiers {
        Modifiers { bits: self.bits | rhs.bits }
    }
}

/// Every code that decodes is the code of the set it decodes to, and that set is
/// marked as a special input exactly for the code 255.
pub proof fn lemma_code_round_trip(n: u8)
    ensures
        Modifiers::spec_try_from_reaper_code(n) matches Some(m) ==> m.representable()
            && m.spec_reaper_code() == n && (m.spec_is_special_input() <==> n
            == SPECIAL_INPUT_CODE),
{
    if n == 255 {
        assert(128u8 & 128u8 != 0) by (bit_vector);
    } else if n >= 1 {
        let b: u8 = (n - 1) as u8;
        assert(b & !60u8 == 0 ==> b & 128u8 == 0 && b & 0x7Fu8 == b && b <= 60) by (bit_vector);
    }
}

/// Every representable set is what its own code decodes to.
pub proof fn lemma_modifiers_round_trip(m: Modifiers)
    requires
        m.representable(),
    ensures
        Modifiers::spec_try_from_reaper_code(m.spec_reaper_code()) == Some(m),
{
    let b = m.bits;
    if b == 128 {
        assert(128u8 & 128u8 != 0) by (bit_vector);
    } else {
        assert(b & !60u8 == 0 ==> b & 128u8 == 0 && b & 0x7Fu8 == b && b <= 60) by (bit_vector);
    }
}

} // verus!
