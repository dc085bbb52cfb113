use vstd::prelude::*;
use vstd::string::StringExecFns;

verus! {

/// A key of the keyboard. The printable keys come first, up to `GraveAccent`.
#[derive(Copy, Clone, PartialEq, Eq, PartialOrd, Ord, Hash, Debug, Structural)]
pub enum Key {
    Space,
    Apostrophe,
    Comma,
    Minus,
    Period,
    Slash,
    Num0,
    Num1,
    Num2,
    Num3,
    Num4,
    Num5,
    Num6,
    Num7,
    Num8,
    Num9,
    Semicolon,
    Equal,
    A,
    B,
    C,
    D,
    E,
    F,
    G,
    H,
    I,
    J,
    K,
    L,
    M,
    N,
    O,
    P,
    Q,
    R,
    S,
    T,
    U,
    V,
    W,
    X,
    Y,
    Z,
    LeftBracket,
    Backslash,
    RightBracket,
    GraveAccent,
    World1,
    World2,
    Escape,
    Enter,
    Tab,
    Backspace,
    Insert,
    Delete,
    Right,
    Left,
    Down,
    Up,
    PageUp,
    PageDown,
    Home,
    End,
    CapsLock,
    ScrollLock,
    NumLock,
    PrintScreen,
    Pause,
    F1,
    F2,
    F3,
    F4,
    F5,
    F6,
    F7,
    F8,
    F9,
    F10,
    F11,
    F12,
    F13,
    F14,
    F15,
    F16,
    F17,
    F18,
    F19,
    F20,
    F21,
    F22,
    F23,
    F24,
    F25,
    Kp0,
    Kp1,
    Kp2,
    Kp3,
    Kp4,
    Kp5,
    Kp6,
    Kp7,
    Kp8,
    Kp9,
    KpDecimal,
    KpDivide,
    KpMultiply,
    KpSubtract,
    KpAdd,
    KpEnter,
    KpEqual,
    LeftShift,
    LeftControl,
    LeftAlt,
    LeftWin,
    RightShift,
    RightControl,
    RightAlt,
    RightWin,
    Menu,
}

/// The number of printable keys; they come first in declaration order.
pub const PRINTABLE_KEYS: u32 = 48;

impl Key {
    /// The position of the key in declaration order.
    pub open spec fn index(self) -> int {
        match self {
            Key::Space => 0,
            Key::Apostrophe => 1,
            Key::Comma => 2,
            Key::Minus => 3,
            Key::Period => 4,
            Key::Slash => 5,
            Key::Num0 => 6,
            Key::Num1 => 7,
            Key::Num2 => 8,
            Key::Num3 => 9,
            Key::Num4 => 10,
            Key::Num5 => 11,
            Key::Num6 => 12,
            Key::Num7 => 13,
            Key::Num8 => 14,
            Key::Num9 => 15,
            Key::Semicolon => 16,
            Key::Equal => 17,
            Key::A => 18,
            Key::B => 19,
            Key::C => 20,
            Key::D => 21,
            Key::E => 22,
            Key::F => 23,
            Key::G => 24,
            Key::H => 25,
            Key::I => 26,
            Key::J => 27,
            Key::K => 28,
            Key::L => 29,
            Key::M => 30,
            Key::N => 31,
            Key::O => 32,
            Key::P => 33,
            Key::Q => 34,
            Key::R => 35,
            Key::S => 36,
            Key::T => 37,
            Key::U => 38,
            Key::V => 39,
            Key::W => 40,
            Key::X => 41,
            Key::Y => 42,
            Key::Z => 43,
            Key::LeftBracket => 44,
            Key::Backslash => 45,
            Key::RightBracket => 46,
            Key::GraveAccent => 47,
            Key::World1 => 48,
            Key::World2 => 49,
            Key::Escape => 50,
            Key::Enter => 51,
            Key::Tab => 52,
            Key::Backspace => 53,
            Key::Insert => 54,
            Key::Delete => 55,
            Key::Right => 56,
            Key::Left => 57,
            Key::Down => 58,
            Key::Up => 59,
            Key::PageUp => 60,
            Key::PageDown => 61,
            Key::Home => 62,
            Key::End => 63,
            Key::CapsLock => 64,
            Key::ScrollLock => 65,
            Key::NumLock => 66,
            Key::PrintScreen => 67,
            Key::Pause => 68,
            Key::F1 => 69,
            Key::F2 => 70,
            Key::F3 => 71,
            Key::F4 => 72,
            Key::F5 => 73,
            Key::F6 => 74,
            Key::F7 => 75,
            Key::F8 => 76,
            Key::F9 => 77,
            Key::F10 => 78,
            Key::F11 => 79,
            Key::F12 => 80,
            Key::F13 => 81,
            Key::F14 => 82,
            Key::F15 => 83,
            Key::F16 => 84,
            Key::F17 => 85,
            Key::F18 => 86,
            Key::F19 => 87,
            Key::F20 => 88,
            Key::F21 => 89,
            Key::F22 => 90,
            Key::F23 => 91,
            Key::F24 => 92,
            Key::F25 => 93,
            Key::Kp0 => 94,
            Key::Kp1 => 95,
            Key::Kp2 => 96,
            Key::Kp3 => 97,
            Key::Kp4 => 98,
            Key::Kp5 => 99,
            Key::Kp6 => 100,
            Key::Kp7 => 101,
            Key::Kp8 => 102,
            Key::Kp9 => 103,
            Key::KpDecimal => 104,
            Key::KpDivide => 105,
            Key::KpMultiply => 106,
            Key::KpSubtract => 107,
            Key::KpAdd => 108,
            Key::KpEnter => 109,
            Key::KpEqual => 110,
            Key::LeftShift => 111,
            Key::LeftControl => 112,
            Key::LeftAlt => 113,
            Key::LeftWin => 114,
            Key::RightShift => 115,
            Key::RightControl => 116,
            Key::RightAlt => 117,
            Key::RightWin => 118,
            Key::Menu => 119,
        }
    }

    /// The name shown to users.
    pub open spec fn display_name_spec(self) -> Seq<char> {
        match self {
            Key::Space => "Space"@,
            Key::Apostrophe => "'"@,
            Key::Comma => ","@,
            Key::Minus => "-"@,
            Key::Period => "."@,
            Key::Slash => "/"@,
            Key::Num0 => "0"@,
            Key::Num1 => "1"@,
            Key::Num2 => "2"@,
            Key::Num3 => "3"@,
            Key::Num4 => "4"@,
            Key::Num5 => "5"@,
            Key::Num6 => "6"@,
            Key::Num7 => "7"@,
            Key::Num8 => "8"@,
            Key::Num9 => "9"@,
            Key::Semicolon => ";"@,
            Key::Equal => "="@,
            Key::A => "A"@,
            Key::B => "B"@,
            Key::C => "C"@,
            Key::D => "D"@,
            Key::E => "E"@,
            Key::F => "F"@,
            Key::G => "G"@,
            Key::H => "H"@,
            Key::I => "I"@,
            Key::J => "J"@,
            Key::K => "K"@,
            Key::L => "L"@,
            Key::M => "M"@,
            Key::N => "N"@,
            Key::O => "O"@,
            Key::P => "P"@,
            Key::Q => "Q"@,
            Key::R => "R"@,
            Key::S => "S"@,
            Key::T => "T"@,
            Key::U => "U"@,
            Key::V => "V"@,
            Key::W => "W"@,
            Key::X => "X"@,
            Key::Y => "Y"@,
            Key::Z => "Z"@,
            Key::LeftBracket => "["@,
            Key::Backslash => "\\"@,
            Key::RightBracket => "]"@,
            Key::GraveAccent => "`"@,
            Key::World1 => "World1"@,
            Key::World2 => "World2"@,
            Key::Escape => "Esc"@,
            Key::Enter => "Enter"@,
            Key::Tab => "Tab"@,
            Key::Backspace => "Backspace"@,
            Key::Insert => "Insert"@,
            Key::Delete => "Delete"@,
            Key::Right => "→"@,
            Key::Left => "←"@,
            Key::Down => "↓"@,
            Key::Up => "↑"@,
            Key::PageUp => "Page Up"@,
            Key::PageDown => "Page Down"@,
            Key::Home => "Home"@,
            Key::End => "End"@,
            Key::CapsLock => "Caps Lock"@,
            Key::ScrollLock => "Scroll Lock"@,
            Key::NumLock => "Num Lock"@,
            Key::PrintScreen => "Print Screen"@,
            Key::Pause => "Pause"@,
            Key::F1 => "F1"@,
            Key::F2 => "F2"@,
            Key::F3 => "F3"@,
            Key::F4 => "F4"@,
            Key::F5 => "F5"@,
            Key::F6 => "F6"@,
            Key::F7 => "F7"@,
            Key::F8 => "F8"@,
            Key::F9 => "F9"@,
            Key::F10 => "F10"@,
            Key::F11 => "F11"@,
            Key::F12 => "F12"@,
            Key::F13 => "F13"@,
            Key::F14 => "F14"@,
            Key::F15 => "F15"@,
            Key::F16 => "F16"@,
            Key::F17 => "F17"@,
            Key::F18 => "F18"@,
            Key::F19 => "F19"@,
            Key::F20 => "F20"@,
            Key::F21 => "F21"@,
            Key::F22 => "F22"@,
            Key::F23 => "F23"@,
            Key::F24 => "F24"@,
            Key::F25 => "F25"@,
            Key::Kp0 => "Keypad 0"@,
            Key::Kp1 => "Keypad 1"@,
            Key::Kp2 => "Keypad 2"@,
            Key::Kp3 => "Keypad 3"@,
            Key::Kp4 => "Keypad 4"@,
            Key::Kp5 => "Keypad 5"@,
            Key::Kp6 => "Keypad 6"@,
            Key::Kp7 => "Keypad 7"@,
            Key::Kp8 => "Keypad 8"@,
            Key::Kp9 => "Keypad 9"@,
            Key::KpDecimal => "Keypad ."@,
            Key::KpDivide => "Keypad /"@,
            Key::KpMultiply => "Keypad *"@,
            Key::KpSubtract => "Keypad -"@,
            Key::KpAdd => "Keypad +"@,
            Key::KpEnter => "Keypad Enter"@,
            Key::KpEqual => "Keypad ="@,
            Key::LeftShift => "Left Shift"@,
            Key::LeftControl => "Left Control"@,
            Key::LeftAlt => "Left Alt"@,
            Key::LeftWin => "Left Windows"@,
            Key::RightShift => "Right Shift"@,
            Key::RightControl => "Right Control"@,
            Key::RightAlt => "Right Alt"@,
            Key::RightWin => "Right Windows"@,
            Key::Menu => "Menu"@,
        }
    }

    /// The symbol name, the same as the variant name.
    pub open spec fn sym_name_spec(self) -> Seq<char> {
        match self {
            Key::Space => "Space"@,
            Key::Apostrophe => "Apostrophe"@,
            Key::Comma => "Comma"@,
            Key::Minus => "Minus"@,
            Key::Period => "Period"@,
            Key::Slash => "Slash"@,
            Key::Num0 => "Num0"@,
            Key::Num1 => "Num1"@,
            Key::Num2 => "Num2"@,
            Key::Num3 => "Num3"@,
            Key::Num4 => "Num4"@,
            Key::Num5 => "Num5"@,
            Key::Num6 => "Num6"@,
            Key::Num7 => "Num7"@,
            Key::Num8 => "Num8"@,
            Key::Num9 => "Num9"@,
            Key::Semicolon => "Semicolon"@,
            Key::Equal => "Equal"@,
            Key::A => "A"@,
            Key::B => "B"@,
            Key::C => "C"@,
            Key::D => "D"@,
            Key::E => "E"@,
            Key::F => "F"@,
            Key::G => "G"@,
            Key::H => "H"@,
            Key::I => "I"@,
            Key::J => "J"@,
            Key::K => "K"@,
            Key::L => "L"@,
            Key::M => "M"@,
            Key::N => "N"@,
            Key::O => "O"@,
            Key::P => "P"@,
            Key::Q => "Q"@,
            Key::R => "R"@,
            Key::S => "S"@,
            Key::T => "T"@,
            Key::U => "U"@,
            Key::V => "V"@,
            Key::W => "W"@,
            Key::X => "X"@,
            Key::Y => "Y"@,
            Key::Z => "Z"@,
            Key::LeftBracket => "LeftBracket"@,
            Key::Backslash => "Backslash"@,
            Key::RightBracket => "RightBracket"@,
            Key::GraveAccent => "GraveAccent"@,
            Key::World1 => "World1"@,
            Key::World2 => "World2"@,
            Key::Escape => "Escape"@,
            Key::Enter => "Enter"@,
            Key::Tab => "Tab"@,
            Key::Backspace => "Backspace"@,
            Key::Insert => "Insert"@,
            Key::Delete => "Delete"@,
            Key::Right => "Right"@,
            Key::Left => "Left"@,
            Key::Down => "Down"@,
            Key::Up => "Up"@,
            Key::PageUp => "PageUp"@,
            Key::PageDown => "PageDown"@,
            Key::Home => "Home"@,
            Key::End => "End"@,
            Key::CapsLock => "CapsLock"@,
            Key::ScrollLock => "ScrollLock"@,
            Key::NumLock => "NumLock"@,
            Key::PrintScreen => "PrintScreen"@,
            Key::Pause => "Pause"@,
            Key::F1 => "F1"@,
            Key::F2 => "F2"@,
            Key::F3 => "F3"@,
            Key::F4 => "F4"@,
            Key::F5 => "F5"@,
            Key::F6 => "F6"@,
            Key::F7 => "F7"@,
            Key::F8 => "F8"@,
            Key::F9 => "F9"@,
            Key::F10 => "F10"@,
            Key::F11 => "F11"@,
            Key::F12 => "F12"@,
            Key::F13 => "F13"@,
            Key::F14 => "F14"@,
            Key::F15 => "F15"@,
            Key::F16 => "F16"@,
            Key::F17 => "F17"@,
            Key::F18 => "F18"@,
            Key::F19 => "F19"@,
            Key::F20 => "F20"@,
            Key::F21 => "F21"@,
            Key::F22 => "F22"@,
            Key::F23 => "F23"@,
            Key::F24 => "F24"@,
            Key::F25 => "F25"@,
            Key::Kp0 => "Kp0"@,
            Key::Kp1 => "Kp1"@,
            Key::Kp2 => "Kp2"@,
            Key::Kp3 => "Kp3"@,
            Key::Kp4 => "Kp4"@,
            Key::Kp5 => "Kp5"@,
            Key::Kp6 => "Kp6"@,
            Key::Kp7 => "Kp7"@,
            Key::Kp8 => "Kp8"@,
            Key::Kp9 => "Kp9"@,
            Key::KpDecimal => "KpDecimal"@,
            Key::KpDivide => "KpDivide"@,
            Key::KpMultiply => "KpMultiply"@,
            Key::KpSubtract => "KpSubtract"@,
            Key::KpAdd => "KpAdd"@,
            Key::KpEnter => "KpEnter"@,
            Key::KpEqual => "KpEqual"@,
            Key::LeftShift => "LeftShift"@,
            Key::LeftControl => "LeftControl"@,
            Key::LeftAlt => "LeftAlt"@,
            Key::LeftWin => "LeftWin"@,
            Key::RightShift => "RightShift"@,
            Key::RightControl => "RightControl"@,
            Key::RightAlt => "RightAlt"@,
            Key::RightWin => "RightWin"@,
            Key::Menu => "Menu"@,
        }
    }

    /// Whether the key types a character: it comes before `World1`.
    pub fn is_printable(&self) -> (b: bool)
        ensures
            b == (self.index() < PRINTABLE_KEYS),
    {
        match *self {
            Key::Space | Key::Apostrophe | Key::Comma | Key::Minus | Key::Period | Key::Slash | Key::Num0 | Key::Num1 | Key::Num2 | Key::Num3 | Key::Num4 | Key::Num5 | Key::Num6 | Key::Num7 | Key::Num8 | Key::Num9 | Key::Semicolon | Key::Equal | Key::A | Key::B | Key::C | Key::D | Key::E | Key::F | Key::G | Key::H | Key::I | Key::J | Key::K | Key::L | Key::M | Key::N | Key::O | Key::P | Key::Q | Key::R | Key::S | Key::T | Key::U | Key::V | Key::W | Key::X | Key::Y | Key::Z | Key::LeftBracket | Key::Backslash | Key::RightBracket | Key::GraveAccent => true,
            _ => false,
        }
    }

    /// The name of the key, meant to be shown to the user.
    pub fn display_name(&self) -> (s: &'static str)
        ensures
            s@ == self.display_name_spec(),
    {
        match *self {
            Key::Space => "Space",
            Key::Apostrophe => "'",
            Key::Comma => ",",
            Key::Minus => "-",
            Key::Period => ".",
            Key::Slash => "/",
            Key::Num0 => "0",
            Key::Num1 => "1",
            Key::Num2 => "2",
            Key::Num3 => "3",
            Key::Num4 => "4",
            Key::Num5 => "5",
            Key::Num6 => "6",
            Key::Num7 => "7",
            Key::Num8 => "8",
            Key::Num9 => "9",
            Key::Semicolon => ";",
            Key::Equal => "=",
            Key::A => "A",
            Key::B => "B",
            Key::C => "C",
            Key::D => "D",
            Key::E => "E",
            Key::F => "F",
            Key::G => "G",
            Key::H => "H",
            Key::I => "I",
            Key::J => "J",
            Key::K => "K",
            Key::L => "L",
            Key::M => "M",
            Key::N => "N",
            Key::O => "O",
            Key::P => "P",
            Key::Q => "Q",
            Key::R => "R",
            Key::S => "S",
            Key::T => "T",
            Key::U => "U",
            Key::V => "V",
            Key::W => "W",
            Key::X => "X",
            Key::Y => "Y",
            Key::Z => "Z",
            Key::LeftBracket => "[",
            Key::Backslash => "\\",
            Key::RightBracket => "]",
            Key::GraveAccent => "`",
            Key::World1 => "World1",
            Key::World2 => "World2",
            Key::Escape => "Esc",
            Key::Enter => "Enter",
            Key::Tab => "Tab",
            Key::Backspace => "Backspace",
            Key::Insert => "Insert",
            Key::Delete => "Delete",
            Key::Right => "→",
            Key::Left => "←",
            Key::Down => "↓",
            Key::Up => "↑",
            Key::PageUp => "Page Up",
            Key::PageDown => "Page Down",
            Key::Home => "Home",
            Key::End => "End",
            Key::CapsLock => "Caps Lock",
            Key::ScrollLock => "Scroll Lock",
            Key::NumLock => "Num Lock",
            Key::PrintScreen => "Print Screen",
            Key::Pause => "Pause",
            Key::F1 => "F1",
            Key::F2 => "F2",
            Key::F3 => "F3",
            Key::F4 => "F4",
            Key::F5 => "F5",
            Key::F6 => "F6",
            Key::F7 => "F7",
            Key::F8 => "F8",
            Key::F9 => "F9",
            Key::F10 => "F10",
            Key::F11 => "F11",
            Key::F12 => "F12",
            Key::F13 => "F13",
            Key::F14 => "F14",
            Key::F15 => "F15",
            Key::F16 => "F16",
            Key::F17 => "F17",
            Key::F18 => "F18",
            Key::F19 => "F19",
            Key::F20 => "F20",
            Key::F21 => "F21",
            Key::F22 => "F22",
            Key::F23 => "F23",
            Key::F24 => "F24",
            Key::F25 => "F25",
            Key::Kp0 => "Keypad 0",
            Key::Kp1 => "Keypad 1",
            Key::Kp2 => "Keypad 2",
            Key::Kp3 => "Keypad 3",
            Key::Kp4 => "Keypad 4",
            Key::Kp5 => "Keypad 5",
            Key::Kp6 => "Keypad 6",
            Key::Kp7 => "Keypad 7",
            Key::Kp8 => "Keypad 8",
            Key::Kp9 => "Keypad 9",
            Key::KpDecimal => "Keypad .",
            Key::KpDivide => "Keypad /",
            Key::KpMultiply => "Keypad *",
            Key::KpSubtract => "Keypad -",
            Key::KpAdd => "Keypad +",
            Key::KpEnter => "Keypad Enter",
            Key::KpEqual => "Keypad =",
            Key::LeftShift => "Left Shift",
            Key::LeftControl => "Left Control",
            Key::LeftAlt => "Left Alt",
            Key::LeftWin => "Left Windows",
            Key::RightShift => "Right Shift",
            Key::RightControl => "Right Control",
            Key::RightAlt => "Right Alt",
            Key::RightWin => "Right Windows",
            Key::Menu => "Menu",
        }
    }

    /// The symbol name of the key, the same as its variant name.
    pub fn sym_name(&self) -> (s: &'static str)
        ensures
            s@ == self.sym_name_spec(),
    {
        match *self {
            Key::Space => "Space",
            Key::Apostrophe => "Apostrophe",
            Key::Comma => "Comma",
            Key::Minus => "Minus",
            Key::Period => "Period",
            Key::Slash => "Slash",
            Key::Num0 => "Num0",
            Key::Num1 => "Num1",
            Key::Num2 => "Num2",
            Key::Num3 => "Num3",
            Key::Num4 => "Num4",
            Key::Num5 => "Num5",
            Key::Num6 => "Num6",
            Key::Num7 => "Num7",
            Key::Num8 => "Num8",
            Key::Num9 => "Num9",
            Key::Semicolon => "Semicolon",
            Key::Equal => "Equal",
            Key::A => "A",
            Key::B => "B",
            Key::C => "C",
            Key::D => "D",
            Key::E => "E",
            Key::F => "F",
            Key::G => "G",
            Key::H => "H",
            Key::I => "I",
            Key::J => "J",
            Key::K => "K",
            Key::L => "L",
            Key::M => "M",
            Key::N => "N",
            Key::O => "O",
            Key::P => "P",
            Key::Q => "Q",
            Key::R => "R",
            Key::S => "S",
            Key::T => "T",
            Key::U => "U",
            Key::V => "V",
            Key::W => "W",
            Key::X => "X",
            Key::Y => "Y",
            Key::Z => "Z",
            Key::LeftBracket => "LeftBracket",
            Key::Backslash => "Backslash",
            Key::RightBracket => "RightBracket",
            Key::GraveAccent => "GraveAccent",
            Key::World1 => "World1",
            Key::World2 => "World2",
            Key::Escape => "Escape",
            Key::Enter => "Enter",
            Key::Tab => "Tab",
            Key::Backspace => "Backspace",
            Key::Insert => "Insert",
            Key::Delete => "Delete",
            Key::Right => "Right",
            Key::Left => "Left",
            Key::Down => "Down",
            Key::Up => "Up",
            Key::PageUp => "PageUp",
            Key::PageDown => "PageDown",
            Key::Home => "Home",
            Key::End => "End",
            Key::CapsLock => "CapsLock",
            Key::ScrollLock => "ScrollLock",
            Key::NumLock => "NumLock",
            Key::PrintScreen => "PrintScreen",
            Key::Pause => "Pause",
            Key::F1 => "F1",
            Key::F2 => "F2",
            Key::F3 => "F3",
            Key::F4 => "F4",
            Key::F5 => "F5",
            Key::F6 => "F6",
            Key::F7 => "F7",
            Key::F8 => "F8",
            Key::F9 => "F9",
            Key::F10 => "F10",
            Key::F11 => "F11",
            Key::F12 => "F12",
            Key::F13 => "F13",
            Key::F14 => "F14",
            Key::F15 => "F15",
            Key::F16 => "F16",
            Key::F17 => "F17",
            Key::F18 => "F18",
            Key::F19 => "F19",
            Key::F20 => "F20",
            Key::F21 => "F21",
            Key::F22 => "F22",
            Key::F23 => "F23",
            Key::F24 => "F24",
            Key::F25 => "F25",
            Key::Kp0 => "Kp0",
            Key::Kp1 => "Kp1",
            Key::Kp2 => "Kp2",
            Key::Kp3 => "Kp3",
            Key::Kp4 => "Kp4",
            Key::Kp5 => "Kp5",
            Key::Kp6 => "Kp6",
            Key::Kp7 => "Kp7",
            Key::Kp8 => "Kp8",
            Key::Kp9 => "Kp9",
            Key::KpDecimal => "KpDecimal",
            Key::KpDivide => "KpDivide",
            Key::KpMultiply => "KpMultiply",
            Key::KpSubtract => "KpSubtract",
            Key::KpAdd => "KpAdd",
            Key::KpEnter => "KpEnter",
            Key::KpEqual => "KpEqual",
            Key::LeftShift => "LeftShift",
            Key::LeftControl => "LeftControl",
            Key::LeftAlt => "LeftAlt",
            Key::LeftWin => "LeftWin",
            Key::RightShift => "RightShift",
            Key::RightControl => "RightControl",
            Key::RightAlt => "RightAlt",
            Key::RightWin => "RightWin",
            Key::Menu => "Menu",
        }
    }
}

/// The modifier keys held with a key.
#[derive(Copy, Clone, PartialEq, Eq, Hash, Debug, Structural)]
pub struct Modifiers {
    pub shift: bool,
    pub control: bool,
    pub alt: bool,
    pub win: bool,
}

/// `c` when `b` holds, else nothing.
pub open spec fn mark(b: bool, c: Seq<char>) -> Seq<char> {
    if b {
        c
    } else {
        Seq::empty()
    }
}

impl Modifiers {
    /// No modifier held.
    pub fn new() -> (m: Modifiers)
        ensures
            m == (Modifiers { shift: false, control: false, alt: false, win: false }),
    {
        Modifiers { shift: false, control: false, alt: false, win: false }
    }

    pub fn with(shift: bool, control: bool, alt: bool, win: bool) -> (m: Modifiers)
        ensures
            m == (Modifiers { shift, control, alt, win }),
    {
        Modifiers { shift, control, alt, win }
    }

    pub fn none() -> (m: Modifiers)
        ensures
            m == (Modifiers { shift: false, control: false, alt: false, win: false }),
    {
        Modifiers::new()
    }

    pub fn shift() -> (m: Modifiers)
        ensures
            m == (Modifiers { shift: true, control: false, alt: false, win: false }),
    {
        Modifiers::with(true, false, false, false)
    }

    pub fn control() -> (m: Modifiers)
        ensures
            m == (Modifiers { shift: false, control: true, alt: false, win: false }),
    {
        Modifiers::with(false, true, false, false)
    }

    pub fn alt() -> (m: Modifiers)
        ensures
            m == (Modifiers { shift: false, control: false, alt: true, win: false }),
    {
        Modifiers::with(false, false, true, false)
    }

    pub fn win() -> (m: Modifiers)
        ensures
            m == (Modifiers { shift: false, control: false, alt: false, win: true }),
    {
        Modifiers::with(false, false, false, true)
    }

    pub fn ctrl_alt() -> (m: Modifiers)
        ensures
            m == (Modifiers { shift: false, control: true, alt: true, win: false }),
    {
        Modifiers::with(false, true, true, false)
    }

    pub fn ctrl_shift() -> (m: Modifiers)
        ensures
            m == (Modifiers { shift: true, control: true, alt: false, win: false }),
    {
        Modifiers::with(true, true, false, false)
    }

    pub fn alt_shift() -> (m: Modifiers)
        ensures
            m == (Modifiers { shift: true, control: false, alt: true, win: false }),
    {
        Modifiers::with(true, false, true, false)
    }

    /// The held modifiers as letters: `S`, `C`, `A`, `W`, in that order.
    pub fn to_string(&self) -> (s: String)
        ensures
            s@ == mark(self.shift, "S"@) + mark(self.control, "C"@) + mark(self.alt, "A"@) + mark(
                self.win,
                "W"@,
            ),
    {
        let mut s = String::new();
        if self.shift {
            s.append("S");
        }
        if self.control {
            s.append("C");
        }
        if self.alt {
            s.append("A");
        }
        if self.win {
            s.append("W");
        }
        assert(s@ =~= mark(self.shift, "S"@) + mark(self.control, "C"@) + mark(self.alt, "A"@)
            + mark(self.win, "W"@));
        s
    }

    /// The held modifiers as symbols: `⇧`, `^`, `!`, `#`, in that order.
    pub fn to_string_alt(&self) -> (s: String)
        ensures
            s@ == mark(self.shift, "⇧"@) + mark(self.control, "^"@) + mark(self.alt, "!"@) + mark(
                self.win,
                "#"@,
            ),
    {
        let mut s = String::new();
        if self.shift {
            s.append("⇧");
        }
        if self.control {
            s.append("^");
        }
        if self.alt {
            s.append("!");
        }
        if self.win {
            s.append("#");
        }
        assert(s@ =~= mark(self.shift, "⇧"@) + mark(self.control, "^"@) + mark(self.alt, "!"@)
            + mark(self.win, "#"@));
        s
    }
}

} // verus!
