//! The keyboard keys that a binding can name, with their codes (the virtual-key
//! codes of the host platform) and the names that comments show.

use vstd::prelude::*;

verus! {

/// A keyboard key.
#[derive(Debug, Clone, Copy, PartialEq, Eq, Hash, Structural)]
pub enum KeyCode {
    /// The key `Backspace`.
    Backspace,
    /// The key `Tab`.
    Tab,
    /// The key `Clear`.
    Clear,
    /// The key `Return`.
    Return,
    /// The key `Pause`.
    Pause,
    /// The key `Caps Lock`.
    CapsLock,
    /// The key `ESC`.
    Escape,
    /// The key `Space`.
    Space,
    /// The key `Page Up`.
    PageUp,
    /// The key `Page Down`.
    PageDown,
    /// The key `End`.
    End,
    /// The key `Home`.
    Home,
    /// The key `Left`.
    Left,
    /// The key `Up`.
    Up,
    /// The key `Right`.
    Right,
    /// The key `Down`.
    Down,
    /// The key `Print Screen`.
    PrintScreen,
    /// The key `Insert`.
    Insert,
    /// The key `Delete`.
    Delete,
    /// The digit `0` of the main block.
    Digit0,
    /// The digit `1` of the main block.
    Digit1,
    /// The digit `2` of the main block.
    Digit2,
    /// The digit `3` of the main block.
    Digit3,
    /// The digit `4` of the main block.
    Digit4,
    /// The digit `5` of the main block.
    Digit5,
    /// The digit `6` of the main block.
    Digit6,
    /// The digit `7` of the main block.
    Digit7,
    /// The digit `8` of the main block.
    Digit8,
    /// The digit `9` of the main block.
    Digit9,
    /// The letter `A`.
    A,
    /// The letter `B`.
    B,
    /// The letter `C`.
    C,
    /// The letter `D`.
    D,
    /// The letter `E`.
    E,
    /// The letter `F`.
    F,
    /// The letter `G`.
    G,
    /// The letter `H`.
    H,
    /// The letter `I`.
    I,
    /// The letter `J`.
    J,
    /// The letter `K`.
    K,
    /// The letter `L`.
    L,
    /// The letter `M`.
    M,
    /// The letter `N`.
    N,
    /// The letter `O`.
    O,
    /// The letter `P`.
    P,
    /// The letter `Q`.
    Q,
    /// The letter `R`.
    R,
    /// The letter `S`.
    S,
    /// The letter `T`.
    T,
    /// The letter `U`.
    U,
    /// The letter `V`.
    V,
    /// The letter `W`.
    W,
    /// The letter `X`.
    X,
    /// The letter `Y`.
    Y,
    /// The letter `Z`.
    Z,
    /// The digit `0` of the numeric pad.
    Numpad0,
    /// The digit `1` of the numeric pad.
    Numpad1,
    /// The digit `2` of the numeric pad.
    Numpad2,
    /// The digit `3` of the numeric pad.
    Numpad3,
    /// The digit `4` of the numeric pad.
    Numpad4,
    /// The digit `5` of the numeric pad.
    Numpad5,
    /// The digit `6` of the numeric pad.
    Numpad6,
    /// The digit `7` of the numeric pad.
    Numpad7,
    /// The digit `8` of the numeric pad.
    Numpad8,
    /// The digit `9` of the numeric pad.
    Numpad9,
    /// The multiplication key of the numeric pad.
    Multiply,
    /// The addition key of the numeric pad.
    Add,
    /// The separator key of the numeric pad.
    Separator,
    /// The subtraction key of the numeric pad.
    Subtract,
    /// The decimal key of the numeric pad.
    Decimal,
    /// The division key of the numeric pad.
    Divide,
    /// The function key `F1`.
    F1,
    /// The function key `F2`.
    F2,
    /// The function key `F3`.
    F3,
    /// The function key `F4`.
    F4,
    /// The function key `F5`.
    F5,
    /// The function key `F6`.
    F6,
    /// The function key `F7`.
    F7,
    /// The function key `F8`.
    F8,
    /// The function key `F9`.
    F9,
    /// The function key `F10`.
    F10,
    /// The function key `F11`.
    F11,
    /// The function key `F12`.
    F12,
    /// The function key `F13`.
    F13,
    /// The function key `F14`.
    F14,
    /// The function key `F15`.
    F15,
    /// The function key `F16`.
    F16,
    /// The function key `F17`.
    F17,
    /// The function key `F18`.
    F18,
    /// The function key `F19`.
    F19,
    /// The function key `F20`.
    F20,
    /// The function key `F21`.
    F21,
    /// The function key `F22`.
    F22,
    /// The function key `F23`.
    F23,
    /// The function key `F24`.
    F24,
    /// The key `Num Lock`.
    NumLock,
    /// The key `Scroll Lock`.
    ScrollLock,
    /// The key `;`.
    Semicolon,
    /// The key `=`.
    Equals,
    /// The key `,`.
    Comma,
    /// The key `-`.
    Minus,
    /// The key `.`.
    Period,
    /// The key `/`.
    Slash,
    /// The key ```.
    Backquote,
    /// The key `[`.
    LeftBracket,
    /// The key `\\`.
    Backslash,
    /// The key `]`.
    RightBracket,
    /// The key `'`.
    Quote,
}

impl KeyCode {
    /// The code of the key.
    pub open spec fn spec_as_u8(self) -> u8 {
        match self {
            KeyCode::Backspace => 8,
            KeyCode::Tab => 9,
            KeyCode::Clear => 12,
            KeyCode::Return => 13,
            KeyCode::Pause => 19,
            KeyCode::CapsLock => 20,
            KeyCode::Escape => 27,
            KeyCode::Space => 32,
            KeyCode::PageUp => 33,
            KeyCode::PageDown => 34,
            KeyCode::End => 35,
            KeyCode::Home => 36,
            KeyCode::Left => 37,
            KeyCode::Up => 38,
            KeyCode::Right => 39,
            KeyCode::Down => 40,
            KeyCode::PrintScreen => 44,
            KeyCode::Insert => 45,
            KeyCode::Delete => 46,
            KeyCode::Digit0 => 48,
            KeyCode::Digit1 => 49,
            KeyCode::Digit2 => 50,
            KeyCode::Digit3 => 51,
            KeyCode::Digit4 => 52,
            KeyCode::Digit5 => 53,
            KeyCode::Digit6 => 54,
            KeyCode::Digit7 => 55,
            KeyCode::Digit8 => 56,
            KeyCode::Digit9 => 57,
            KeyCode::A => 65,
            KeyCode::B => 66,
            KeyCode::C => 67,
            KeyCode::D => 68,
            KeyCode::E => 69,
            KeyCode::F => 70,
            KeyCode::G => 71,
            KeyCode::H => 72,
            KeyCode::I => 73,
            KeyCode::J => 74,
            KeyCode::K => 75,
            KeyCode::L => 76,
            KeyCode::M => 77,
            KeyCode::N => 78,
            KeyCode::O => 79,
            KeyCode::P => 80,
            KeyCode::Q => 81,
            KeyCode::R => 82,
            KeyCode::S => 83,
            KeyCode::T => 84,
            KeyCode::U => 85,
            KeyCode::V => 86,
            KeyCode::W => 87,
            KeyCode::X => 88,
            KeyCode::Y => 89,
            KeyCode::Z => 90,
            KeyCode::Numpad0 => 96,
            KeyCode::Numpad1 => 97,
            KeyCode::Numpad2 => 98,
            KeyCode::Numpad3 => 99,
            KeyCode::Numpad4 => 100,
            KeyCode::Numpad5 => 101,
            KeyCode::Numpad6 => 102,
            KeyCode::Numpad7 => 103,
            KeyCode::Numpad8 => 104,
            KeyCode::Numpad9 => 105,
            KeyCode::Multiply => 106,
            KeyCode::Add => 107,
            KeyCode::Separator => 108,
            KeyCode::Subtract => 109,
            KeyCode::Decimal => 110,
            KeyCode::Divide => 111,
            KeyCode::F1 => 112,
            KeyCode::F2 => 113,
            KeyCode::F3 => 114,
            KeyCode::F4 => 115,
            KeyCode::F5 => 116,
            KeyCode::F6 => 117,
            KeyCode::F7 => 118,
            KeyCode::F8 => 119,
            KeyCode::F9 => 120,
            KeyCode::F10 => 121,
            KeyCode::F11 => 122,
            KeyCode::F12 => 123,
            KeyCode::F13 => 124,
            KeyCode::F14 => 125,
            KeyCode::F15 => 126,
            KeyCode::F16 => 127,
            KeyCode::F17 => 128,
            KeyCode::F18 => 129,
            KeyCode::F19 => 130,
            KeyCode::F20 => 131,
            KeyCode::F21 => 132,
            KeyCode::F22 => 133,
            KeyCode::F23 => 134,
            KeyCode::F24 => 135,
            KeyCode::NumLock => 144,
            KeyCode::ScrollLock => 145,
            KeyCode::Semicolon => 186,
            KeyCode::Equals => 187,
            KeyCode::Comma => 188,
            KeyCode::Minus => 189,
            KeyCode::Period => 190,
            KeyCode::Slash => 191,
            KeyCode::Backquote => 192,
            KeyCode::LeftBracket => 219,
            KeyCode::Backslash => 220,
            KeyCode::RightBracket => 221,
            KeyCode::Quote => 222,
        }
    }

    /// The key with the code `code`, if there is one.
    pub open spec fn spec_from_u16(code: u16) -> Option<KeyCode> {
        if code == 8 {
            Some(KeyCode::Backspace)
        } else if code == 9 {
            Some(KeyCode::Tab)
        } else if code == 12 {
            Some(KeyCode::Clear)
        } else if code == 13 {
            Some(KeyCode::Return)
        } else if code == 19 {
            Some(KeyCode::Pause)
        } else if code == 20 {
            Some(KeyCode::CapsLock)
        } else if code == 27 {
            Some(KeyCode::Escape)
        } else if code == 32 {
            Some(KeyCode::Space)
        } else if code == 33 {
            Some(KeyCode::PageUp)
        } else if code == 34 {
            Some(KeyCode::PageDown)
        } else if code == 35 {
            Some(KeyCode::End)
        } else if code == 36 {
            Some(KeyCode::Home)
        } else if code == 37 {
            Some(KeyCode::Left)
        } else if code == 38 {
            Some(KeyCode::Up)
        } else if code == 39 {
            Some(KeyCode::Right)
        } else if code == 40 {
            Some(KeyCode::Down)
        } else if code == 44 {
            Some(KeyCode::PrintScreen)
        } else if code == 45 {
            Some(KeyCode::Insert)
        } else if code == 46 {
            Some(KeyCode::Delete)
        } else if code == 48 {
            Some(KeyCode::Digit0)
        } else if code == 49 {
            Some(KeyCode::Digit1)
        } else if code == 50 {
            Some(KeyCode::Digit2)
        } else if code == 51 {
            Some(KeyCode::Digit3)
        } else if code == 52 {
            Some(KeyCode::Digit4)
        } else if code == 53 {
            Some(KeyCode::Digit5)
        } else if code == 54 {
            Some(KeyCode::Digit6)
        } else if code == 55 {
            Some(KeyCode::Digit7)
        } else if code == 56 {
            Some(KeyCode::Digit8)
        } else if code == 57 {
            Some(KeyCode::Digit9)
        } else if code == 65 {
            Some(KeyCode::A)
        } else if code == 66 {
            Some(KeyCode::B)
        } else if code == 67 {
            Some(KeyCode::C)
        } else if code == 68 {
            Some(KeyCode::D)
        } else if code == 69 {
            Some(KeyCode::E)
        } else if code == 70 {
            Some(KeyCode::F)
        } else if code == 71 {
            Some(KeyCode::G)
        } else if code == 72 {
            Some(KeyCode::H)
        } else if code == 73 {
            Some(KeyCode::I)
        } else if code == 74 {
            Some(KeyCode::J)
        } else if code == 75 {
            Some(KeyCode::K)
        } else if code == 76 {
            Some(KeyCode::L)
        } else if code == 77 {
            Some(KeyCode::M)
        } else if code == 78 {
            Some(KeyCode::N)
        } else if code == 79 {
            Some(KeyCode::O)
        } else if code == 80 {
            Some(KeyCode::P)
        } else if code == 81 {
            Some(KeyCode::Q)
        } else if code == 82 {
            Some(KeyCode::R)
        } else if code == 83 {
            Some(KeyCode::S)
        } else if code == 84 {
            Some(KeyCode::T)
        } else if code == 85 {
            Some(KeyCode::U)
        } else if code == 86 {
            Some(KeyCode::V)
        } else if code == 87 {
            Some(KeyCode::W)
        } else if code == 88 {
            Some(KeyCode::X)
        } else if code == 89 {
            Some(KeyCode::Y)
        } else if code == 90 {
            Some(KeyCode::Z)
        } else if code == 96 {
            Some(KeyCode::Numpad0)
        } else if code == 97 {
            Some(KeyCode::Numpad1)
        } else if code == 98 {
            Some(KeyCode::Numpad2)
        } else if code == 99 {
            Some(KeyCode::Numpad3)
        } else if code == 100 {
            Some(KeyCode::Numpad4)
        } else if code == 101 {
            Some(KeyCode::Numpad5)
        } else if code == 102 {
            Some(KeyCode::Numpad6)
        } else if code == 103 {
            Some(KeyCode::Numpad7)
        } else if code == 104 {
            Some(KeyCode::Numpad8)
        } else if code == 105 {
            Some(KeyCode::Numpad9)
        } else if code == 106 {
            Some(KeyCode::Multiply)
        } else if code == 107 {
            Some(KeyCode::Add)
        } else if code == 108 {
            Some(KeyCode::Separator)
        } else if code == 109 {
            Some(KeyCode::Subtract)
        } else if code == 110 {
            Some(KeyCode::Decimal)
        } else if code == 111 {
            Some(KeyCode::Divide)
        } else if code == 112 {
            Some(KeyCode::F1)
        } else if code == 113 {
            Some(KeyCode::F2)
        } else if code == 114 {
            Some(KeyCode::F3)
        } else if code == 115 {
            Some(KeyCode::F4)
        } else if code == 116 {
            Some(KeyCode::F5)
        } else if code == 117 {
            Some(KeyCode::F6)
        } else if code == 118 {
            Some(KeyCode::F7)
        } else if code == 119 {
            Some(KeyCode::F8)
        } else if code == 120 {
            Some(KeyCode::F9)
        } else if code == 121 {
            Some(KeyCode::F10)
        } else if code == 122 {
            Some(KeyCode::F11)
        } else if code == 123 {
            Some(KeyCode::F12)
        } else if code == 124 {
            Some(KeyCode::F13)
        } else if code == 125 {
            Some(KeyCode::F14)
        } else if code == 126 {
            Some(KeyCode::F15)
        } else if code == 127 {
            Some(KeyCode::F16)
        } else if code == 128 {
            Some(KeyCode::F17)
        } else if code == 129 {
            Some(KeyCode::F18)
        } else if code == 130 {
            Some(KeyCode::F19)
        } else if code == 131 {
            Some(KeyCode::F20)
        } else if code == 132 {
            Some(KeyCode::F21)
        } else if code == 133 {
            Some(KeyCode::F22)
        } else if code == 134 {
            Some(KeyCode::F23)
        } else if code == 135 {
            Some(KeyCode::F24)
        } else if code == 144 {
            Some(KeyCode::NumLock)
        } else if code == 145 {
            Some(KeyCode::ScrollLock)
        } else if code == 186 {
            Some(KeyCode::Semicolon)
        } else if code == 187 {
            Some(KeyCode::Equals)
        } else if code == 188 {
            Some(KeyCode::Comma)
        } else if code == 189 {
            Some(KeyCode::Minus)
        } else if code == 190 {
            Some(KeyCode::Period)
        } else if code == 191 {
            Some(KeyCode::Slash)
        } else if code == 192 {
            Some(KeyCode::Backquote)
        } else if code == 219 {
            Some(KeyCode::LeftBracket)
        } else if code == 220 {
            Some(KeyCode::Backslash)
        } else if code == 221 {
            Some(KeyCode::RightBracket)
        } else if code == 222 {
            Some(KeyCode::Quote)
        } else {
            None
        }
    }

    /// The name of the key as it stands in a comment.
    pub open spec fn spec_display_name(self) -> Seq<char> {
        match self {
            KeyCode::Backspace => "Backspace"@,
            KeyCode::Tab => "Tab"@,
            KeyCode::Clear => "Clear"@,
            KeyCode::Return => "Return"@,
            KeyCode::Pause => "Pause"@,
            KeyCode::CapsLock => "Caps Lock"@,
            KeyCode::Escape => "ESC"@,
            KeyCode::Space => "Space"@,
            KeyCode::PageUp => "Page Up"@,
            KeyCode::PageDown => "Page Down"@,
            KeyCode::End => "End"@,
            KeyCode::Home => "Home"@,
            KeyCode::Left => "Left"@,
            KeyCode::Up => "Up"@,
            KeyCode::Right => "Right"@,
            KeyCode::Down => "Down"@,
            KeyCode::PrintScreen => "Print Screen"@,
            KeyCode::Insert => "Insert"@,
            KeyCode::Delete => "Delete"@,
            KeyCode::Digit0 => "0"@,
            KeyCode::Digit1 => "1"@,
            KeyCode::Digit2 => "2"@,
            KeyCode::Digit3 => "3"@,
            KeyCode::Digit4 => "4"@,
            KeyCode::Digit5 => "5"@,
            KeyCode::Digit6 => "6"@,
            KeyCode::Digit7 => "7"@,
            KeyCode::Digit8 => "8"@,
            KeyCode::Digit9 => "9"@,
            KeyCode::A => "A"@,
            KeyCode::B => "B"@,
            KeyCode::C => "C"@,
            KeyCode::D => "D"@,
            KeyCode::E => "E"@,
            KeyCode::F => "F"@,
            KeyCode::G => "G"@,
            KeyCode::H => "H"@,
            KeyCode::I => "I"@,
            KeyCode::J => "J"@,
            KeyCode::K => "K"@,
            KeyCode::L => "L"@,
            KeyCode::M => "M"@,
            KeyCode::N => "N"@,
            KeyCode::O => "O"@,
            KeyCode::P => "P"@,
            KeyCode::Q => "Q"@,
            KeyCode::R => "R"@,
            KeyCode::S => "S"@,
            KeyCode::T => "T"@,
            KeyCode::U => "U"@,
            KeyCode::V => "V"@,
            KeyCode::W => "W"@,
            KeyCode::X => "X"@,
            KeyCode::Y => "Y"@,
            KeyCode::Z => "Z"@,
            KeyCode::Numpad0 => "NumPad 0"@,
            KeyCode::Numpad1 => "NumPad 1"@,
            KeyCode::Numpad2 => "NumPad 2"@,
            KeyCode::Numpad3 => "NumPad 3"@,
            KeyCode::Numpad4 => "NumPad 4"@,
            KeyCode::Numpad5 => "NumPad 5"@,
            KeyCode::Numpad6 => "NumPad 6"@,
            KeyCode::Numpad7 => "NumPad 7"@,
            KeyCode::Numpad8 => "NumPad 8"@,
            KeyCode::Numpad9 => "NumPad 9"@,
            KeyCode::Multiply => "NumPad *"@,
            KeyCode::Add => "NumPad +"@,
            KeyCode::Separator => "NumPad Separator"@,
            KeyCode::Subtract => "NumPad -"@,
            KeyCode::Decimal => "NumPad ."@,
            KeyCode::Divide => "NumPad /"@,
            KeyCode::F1 => "F1"@,
            KeyCode::F2 => "F2"@,
            KeyCode::F3 => "F3"@,
            KeyCode::F4 => "F4"@,
            KeyCode::F5 => "F5"@,
            KeyCode::F6 => "F6"@,
            KeyCode::F7 => "F7"@,
            KeyCode::F8 => "F8"@,
            KeyCode::F9 => "F9"@,
            KeyCode::F10 => "F10"@,
            KeyCode::F11 => "F11"@,
            KeyCode::F12 => "F12"@,
            KeyCode::F13 => "F13"@,
            KeyCode::F14 => "F14"@,
            KeyCode::F15 => "F15"@,
            KeyCode::F16 => "F16"@,
            KeyCode::F17 => "F17"@,
            KeyCode::F18 => "F18"@,
            KeyCode::F19 => "F19"@,
            KeyCode::F20 => "F20"@,
            KeyCode::F21 => "F21"@,
            KeyCode::F22 => "F22"@,
            KeyCode::F23 => "F23"@,
            KeyCode::F24 => "F24"@,
            KeyCode::NumLock => "Num Lock"@,
            KeyCode::ScrollLock => "Scroll Lock"@,
            KeyCode::Semicolon => ";"@,
            KeyCode::Equals => "="@,
            KeyCode::Comma => ","@,
            KeyCode::Minus => "-"@,
            KeyCode::Period => "."@,
            KeyCode::Slash => "/"@,
            KeyCode::Backquote => "`"@,
            KeyCode::LeftBracket => "["@,
            KeyCode::Backslash => "\\"@,
            KeyCode::RightBracket => "]"@,
            KeyCode::Quote => "'"@,
        }
    }

    /// The key with the code `code`. The result is `None` exactly when no key has
    /// that code.
    pub fn from_u16(code: u16) -> (r: Option<KeyCode>)
        ensures
            r == KeyCode::spec_from_u16(code),
            r matches Some(k) ==> k.spec_as_u8() == code,
            r is None ==> forall|k: KeyCode| k.spec_as_u8() != code,
    {
        if code == 8 {
            Some(KeyCode::Backspace)
        } else if code == 9 {
            Some(KeyCode::Tab)
        } else if code == 12 {
            Some(KeyCode::Clear)
        } else if code == 13 {
            Some(KeyCode::Return)
        } else if code == 19 {
            Some(KeyCode::Pause)
        } else if code == 20 {
            Some(KeyCode::CapsLock)
        } else if code == 27 {
            Some(KeyCode::Escape)
        } else if code == 32 {
            Some(KeyCode::Space)
        } else if code == 33 {
            Some(KeyCode::PageUp)
        } else if code == 34 {
            Some(KeyCode::PageDown)
        } else if code == 35 {
            Some(KeyCode::End)
        } else if code == 36 {
            Some(KeyCode::Home)
        } else if code == 37 {
            Some(KeyCode::Left)
        } else if code == 38 {
            Some(KeyCode::Up)
        } else if code == 39 {
            Some(KeyCode::Right)
        } else if code == 40 {
            Some(KeyCode::Down)
        } else if code == 44 {
            Some(KeyCode::PrintScreen)
        } else if code == 45 {
            Some(KeyCode::Insert)
        } else if code == 46 {
            Some(KeyCode::Delete)
        } else if code == 48 {
            Some(KeyCode::Digit0)
        } else if code == 49 {
            Some(KeyCode::Digit1)
        } else if code == 50 {
            Some(KeyCode::Digit2)
        } else if code == 51 {
            Some(KeyCode::Digit3)
        } else if code == 52 {
            Some(KeyCode::Digit4)
        } else if code == 53 {
            Some(KeyCode::Digit5)
        } else if code == 54 {
            Some(KeyCode::Digit6)
        } else if code == 55 {
            Some(KeyCode::Digit7)
        } else if code == 56 {
            Some(KeyCode::Digit8)
        } else if code == 57 {
            Some(KeyCode::Digit9)
        } else if code == 65 {
            Some(KeyCode::A)
        } else if code == 66 {
            Some(KeyCode::B)
        } else if code == 67 {
            Some(KeyCode::C)
        } else if code == 68 {
            Some(KeyCode::D)
        } else if code == 69 {
            Some(KeyCode::E)
        } else if code == 70 {
            Some(KeyCode::F)
        } else if code == 71 {
            Some(KeyCode::G)
        } else if code == 72 {
            Some(KeyCode::H)
        } else if code == 73 {
            Some(KeyCode::I)
        } else if code == 74 {
            Some(KeyCode::J)
        } else if code == 75 {
            Some(KeyCode::K)
        } else if code == 76 {
            Some(KeyCode::L)
        } else if code == 77 {
            Some(KeyCode::M)
        } else if code == 78 {
            Some(KeyCode::N)
        } else if code == 79 {
            Some(KeyCode::O)
        } else if code == 80 {
            Some(KeyCode::P)
        } else if code == 81 {
            Some(KeyCode::Q)
        } else if code == 82 {
            Some(KeyCode::R)
        } else if code == 83 {
            Some(KeyCode::S)
        } else if code == 84 {
            Some(KeyCode::T)
        } else if code == 85 {
            Some(KeyCode::U)
        } else if code == 86 {
            Some(KeyCode::V)
        } else if code == 87 {
            Some(KeyCode::W)
        } else if code == 88 {
            Some(KeyCode::X)
        } else if code == 89 {
            Some(KeyCode::Y)
        } else if code == 90 {
            Some(KeyCode::Z)
        } else if code == 96 {
            Some(KeyCode::Numpad0)
        } else if code == 97 {
            Some(KeyCode::Numpad1)
        } else if code == 98 {
            Some(KeyCode::Numpad2)
        } else if code == 99 {
            Some(KeyCode::Numpad3)
        } else if code == 100 {
            Some(KeyCode::Numpad4)
        } else if code == 101 {
            Some(KeyCode::Numpad5)
        } else if code == 102 {
            Some(KeyCode::Numpad6)
        } else if code == 103 {
            Some(KeyCode::Numpad7)
        } else if code == 104 {
            Some(KeyCode::Numpad8)
        } else if code == 105 {
            Some(KeyCode::Numpad9)
        } else if code == 106 {
            Some(KeyCode::Multiply)
        } else if code == 107 {
            Some(KeyCode::Add)
        } else if code == 108 {
            Some(KeyCode::Separator)
        } else if code == 109 {
            Some(KeyCode::Subtract)
        } else if code == 110 {
            Some(KeyCode::Decimal)
        } else if code == 111 {
            Some(KeyCode::Divide)
        } else if code == 112 {
            Some(KeyCode::F1)
        } else if code == 113 {
            Some(KeyCode::F2)
        } else if code == 114 {
            Some(KeyCode::F3)
        } else if code == 115 {
            Some(KeyCode::F4)
        } else if code == 116 {
            Some(KeyCode::F5)
        } else if code == 117 {
            Some(KeyCode::F6)
        } else if code == 118 {
            Some(KeyCode::F7)
        } else if code == 119 {
            Some(KeyCode::F8)
        } else if code == 120 {
            Some(KeyCode::F9)
        } else if code == 121 {
            Some(KeyCode::F10)
        } else if code == 122 {
            Some(KeyCode::F11)
        } else if code == 123 {
            Some(KeyCode::F12)
        } else if code == 124 {
            Some(KeyCode::F13)
        } else if code == 125 {
            Some(KeyCode::F14)
        } else if code == 126 {
            Some(KeyCode::F15)
        } else if code == 127 {
            Some(KeyCode::F16)
        } else if code == 128 {
            Some(KeyCode::F17)
        } else if code == 129 {
            Some(KeyCode::F18)
        } else if code == 130 {
            Some(KeyCode::F19)
        } else if code == 131 {
            Some(KeyCode::F20)
        } else if code == 132 {
            Some(KeyCode::F21)
        } else if code == 133 {
            Some(KeyCode::F22)
        } else if code == 134 {
            Some(KeyCode::F23)
        } else if code == 135 {
            Some(KeyCode::F24)
        } else if code == 144 {
            Some(KeyCode::NumLock)
        } else if code == 145 {
            Some(KeyCode::ScrollLock)
        } else if code == 186 {
            Some(KeyCode::Semicolon)
        } else if code == 187 {
            Some(KeyCode::Equals)
        } else if code == 188 {
            Some(KeyCode::Comma)
        } else if code == 189 {
            Some(KeyCode::Minus)
        } else if code == 190 {
            Some(KeyCode::Period)
        } else if code == 191 {
            Some(KeyCode::Slash)
        } else if code == 192 {
            Some(KeyCode::Backquote)
        } else if code == 219 {
            Some(KeyCode::LeftBracket)
        } else if code == 220 {
            Some(KeyCode::Backslash)
        } else if code == 221 {
            Some(KeyCode::RightBracket)
        } else if code == 222 {
            Some(KeyCode::Quote)
        } else {
            None
        }
    }

    /// The code of the key.
    #[verifier::when_used_as_spec(spec_as_u8)]
    pub fn as_u8(self) -> (r: u8)
        ensures
            r == self.spec_as_u8(),
            KeyCode::spec_from_u16(r as u16) == Some(self),
    {
        match self {
            KeyCode::Backspace => 8,
            KeyCode::Tab => 9,
            KeyCode::Clear => 12,
            KeyCode::Return => 13,
            KeyCode::Pause => 19,
            KeyCode::CapsLock => 20,
            KeyCode::Escape => 27,
            KeyCode::Space => 32,
            KeyCode::PageUp => 33,
            KeyCode::PageDown => 34,
            KeyCode::End => 35,
            KeyCode::Home => 36,
            KeyCode::Left => 37,
            KeyCode::Up => 38,
            KeyCode::Right => 39,
            KeyCode::Down => 40,
            KeyCode::PrintScreen => 44,
            KeyCode::Insert => 45,
            KeyCode::Delete => 46,
            KeyCode::Digit0 => 48,
            KeyCode::Digit1 => 49,
            KeyCode::Digit2 => 50,
            KeyCode::Digit3 => 51,
            KeyCode::Digit4 => 52,
            KeyCode::Digit5 => 53,
            KeyCode::Digit6 => 54,
            KeyCode::Digit7 => 55,
            KeyCode::Digit8 => 56,
            KeyCode::Digit9 => 57,
            KeyCode::A => 65,
            KeyCode::B => 66,
            KeyCode::C => 67,
            KeyCode::D => 68,
            KeyCode::E => 69,
            KeyCode::F => 70,
            KeyCode::G => 71,
            KeyCode::H => 72,
            KeyCode::I => 73,
            KeyCode::J => 74,
            KeyCode::K => 75,
            KeyCode::L => 76,
            KeyCode::M => 77,
            KeyCode::N => 78,
            KeyCode::O => 79,
            KeyCode::P => 80,
            KeyCode::Q => 81,
            KeyCode::R => 82,
            KeyCode::S => 83,
            KeyCode::T => 84,
            KeyCode::U => 85,
            KeyCode::V => 86,
            KeyCode::W => 87,
            KeyCode::X => 88,
            KeyCode::Y => 89,
            KeyCode::Z => 90,
            KeyCode::Numpad0 => 96,
            KeyCode::Numpad1 => 97,
            KeyCode::Numpad2 => 98,
            KeyCode::Numpad3 => 99,
            KeyCode::Numpad4 => 100,
            KeyCode::Numpad5 => 101,
            KeyCode::Numpad6 => 102,
            KeyCode::Numpad7 => 103,
            KeyCode::Numpad8 => 104,
            KeyCode::Numpad9 => 105,
            KeyCode::Multiply => 106,
            KeyCode::Add => 107,
            KeyCode::Separator => 108,
            KeyCode::Subtract => 109,
            KeyCode::Decimal => 110,
            KeyCode::Divide => 111,
            KeyCode::F1 => 112,
            KeyCode::F2 => 113,
            KeyCode::F3 => 114,
            KeyCode::F4 => 115,
            KeyCode::F5 => 116,
            KeyCode::F6 => 117,
            KeyCode::F7 => 118,
            KeyCode::F8 => 119,
            KeyCode::F9 => 120,
            KeyCode::F10 => 121,
            KeyCode::F11 => 122,
            KeyCode::F12 => 123,
            KeyCode::F13 => 124,
            KeyCode::F14 => 125,
            KeyCode::F15 => 126,
            KeyCode::F16 => 127,
            KeyCode::F17 => 128,
            KeyCode::F18 => 129,
            KeyCode::F19 => 130,
            KeyCode::F20 => 131,
            KeyCode::F21 => 132,
            KeyCode::F22 => 133,
            KeyCode::F23 => 134,
            KeyCode::F24 => 135,
            KeyCode::NumLock => 144,
            KeyCode::ScrollLock => 145,
            KeyCode::Semicolon => 186,
            KeyCode::Equals => 187,
            KeyCode::Comma => 188,
            KeyCode::Minus => 189,
            KeyCode::Period => 190,
            KeyCode::Slash => 191,
            KeyCode::Backquote => 192,
            KeyCode::LeftBracket => 219,
            KeyCode::Backslash => 220,
            KeyCode::RightBracket => 221,
            KeyCode::Quote => 222,
        }
    }

    /// The name of the key as it stands in a comment.
    pub fn display_name(self) -> (r: &'static str)
        ensures
            r@ == self.spec_display_name(),
    {
        match self {
            KeyCode::Backspace => "Backspace",
            KeyCode::Tab => "Tab",
            KeyCode::Clear => "Clear",
            KeyCode::Return => "Return",
            KeyCode::Pause => "Pause",
            KeyCode::CapsLock => "Caps Lock",
            KeyCode::Escape => "ESC",
            KeyCode::Space => "Space",
            KeyCode::PageUp => "Page Up",
            KeyCode::PageDown => "Page Down",
            KeyCode::End => "End",
            KeyCode::Home => "Home",
            KeyCode::Left => "Left",
            KeyCode::Up => "Up",
            KeyCode::Right => "Right",
            KeyCode::Down => "Down",
            KeyCode::PrintScreen => "Print Screen",
            KeyCode::Insert => "Insert",
            KeyCode::Delete => "Delete",
            KeyCode::Digit0 => "0",
            KeyCode::Digit1 => "1",
            KeyCode::Digit2 => "2",
            KeyCode::Digit3 => "3",
            KeyCode::Digit4 => "4",
            KeyCode::Digit5 => "5",
            KeyCode::Digit6 => "6",
            KeyCode::Digit7 => "7",
            KeyCode::Digit8 => "8",
            KeyCode::Digit9 => "9",
            KeyCode::A => "A",
            KeyCode::B => "B",
            KeyCode::C => "C",
            KeyCode::D => "D",
            KeyCode::E => "E",
            KeyCode::F => "F",
            KeyCode::G => "G",
            KeyCode::H => "H",
            KeyCode::I => "I",
            KeyCode::J => "J",
            KeyCode::K => "K",
            KeyCode::L => "L",
            KeyCode::M => "M",
            KeyCode::N => "N",
            KeyCode::O => "O",
            KeyCode::P => "P",
            KeyCode::Q => "Q",
            KeyCode::R => "R",
            KeyCode::S => "S",
            KeyCode::T => "T",
            KeyCode::U => "U",
            KeyCode::V => "V",
            KeyCode::W => "W",
            KeyCode::X => "X",
            KeyCode::Y => "Y",
            KeyCode::Z => "Z",
            KeyCode::Numpad0 => "NumPad 0",
            KeyCode::Numpad1 => "NumPad 1",
            KeyCode::Numpad2 => "NumPad 2",
            KeyCode::Numpad3 => "NumPad 3",
            KeyCode::Numpad4 => "NumPad 4",
            KeyCode::Numpad5 => "NumPad 5",
            KeyCode::Numpad6 => "NumPad 6",
            KeyCode::Numpad7 => "NumPad 7",
            KeyCode::Numpad8 => "NumPad 8",
            KeyCode::Numpad9 => "NumPad 9",
            KeyCode::Multiply => "NumPad *",
            KeyCode::Add => "NumPad +",
            KeyCode::Separator => "NumPad Separator",
            KeyCode::Subtract => "NumPad -",
            KeyCode::Decimal => "NumPad .",
            KeyCode::Divide => "NumPad /",
            KeyCode::F1 => "F1",
            KeyCode::F2 => "F2",
            KeyCode::F3 => "F3",
            KeyCode::F4 => "F4",
            KeyCode::F5 => "F5",
            KeyCode::F6 => "F6",
            KeyCode::F7 => "F7",
            KeyCode::F8 => "F8",
            KeyCode::F9 => "F9",
            KeyCode::F10 => "F10",
            KeyCode::F11 => "F11",
            KeyCode::F12 => "F12",
            KeyCode::F13 => "F13",
            KeyCode::F14 => "F14",
            KeyCode::F15 => "F15",
            KeyCode::F16 => "F16",
            KeyCode::F17 => "F17",
            KeyCode::F18 => "F18",
            KeyCode::F19 => "F19",
            KeyCode::F20 => "F20",
            KeyCode::F21 => "F21",
            KeyCode::F22 => "F22",
            KeyCode::F23 => "F23",
            KeyCode::F24 => "F24",
            KeyCode::NumLock => "Num Lock",
            KeyCode::ScrollLock => "Scroll Lock",
            KeyCode::Semicolon => ";",
            KeyCode::Equals => "=",
            KeyCode::Comma => ",",
            KeyCode::Minus => "-",
            KeyCode::Period => ".",
            KeyCode::Slash => "/",
            KeyCode::Backquote => "`",
            KeyCode::LeftBracket => "[",
            KeyCode::Backslash => "\\",
            KeyCode::RightBracket => "]",
            KeyCode::Quote => "'",
        }
    }
}

/// A key is the key of its own code.
pub proof fn lemma_key_round_trip(k: KeyCode)
    ensures
        KeyCode::spec_from_u16(k.spec_as_u8() as u16) == Some(k),
{
}

/// A code that names a key is the code of that key.
pub proof fn lemma_key_code_round_trip(code: u16)
    ensures
        KeyCode::spec_from_u16(code) matches Some(k) ==> k.spec_as_u8() == code,
        KeyCode::spec_from_u16(code) is None ==> forall|k: KeyCode| k.spec_as_u8() != code,
{
}

} // verus!
