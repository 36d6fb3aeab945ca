//! Printable-key identification and the fixed key-to-character table used
//! by text inputs: every key that can contribute a character to an input
//! buffer, with its plain and its shifted character.

use vstd::prelude::*;

verus! {

/// A keyboard key that a text input may react to. `Other` stands for any
/// key outside the printable table; it contributes no character.
#[derive(Debug, PartialEq, Eq, Structural, Clone, Copy)]
pub enum UiKey {
    Space,
    Apostrophe,
    Comma,
    Minus,
    Period,
    Slash,
    Key0,
    Key1,
    Key2,
    Key3,
    Key4,
    Key5,
    Key6,
    Key7,
    Key8,
    Key9,
    Semicolon,
    Equal,
    A,
    B,
    C,
    D,
    E,
    F,
    G,
    H,
    I,
    J,
    K,
    L,
    M,
    N,
    O,
    P,
    Q,
    R,
    S,
    T,
    U,
    V,
    W,
    X,
    Y,
    Z,
    LeftBracket,
    Backslash,
    RightBracket,
    GraveAccent,
    Kp0,
    Kp1,
    Kp2,
    Kp3,
    Kp4,
    Kp5,
    Kp6,
    Kp7,
    Kp8,
    Kp9,
    KpDecimal,
    KpDivide,
    KpMultiply,
    KpSubtract,
    KpAdd,
    Other,
}

/// The character a key yields, depending on the shift modifier: letters
/// upper-case under shift, the digit row gives its symbols, the numpad
/// ignores shift, and non-printable keys yield nothing.
pub open spec fn key_char_spec(k: UiKey, shift: bool) -> Option<char> {
    match k {
        UiKey::Space => Some(' '),
        UiKey::Apostrophe => Some(if shift { '"' } else { '\'' }),
        UiKey::Comma => Some(if shift { '<' } else { ',' }),
        UiKey::Minus => Some(if shift { '_' } else { '-' }),
        UiKey::Period => Some(if shift { '>' } else { '.' }),
        UiKey::Slash => Some(if shift { '?' } else { '/' }),
        UiKey::Key0 => Some(if shift { ')' } else { '0' }),
        UiKey::Key1 => Some(if shift { '!' } else { '1' }),
        UiKey::Key2 => Some(if shift { '@' } else { '2' }),
        UiKey::Key3 => Some(if shift { '#' } else { '3' }),
        UiKey::Key4 => Some(if shift { '$' } else { '4' }),
        UiKey::Key5 => Some(if shift { '%' } else { '5' }),
        UiKey::Key6 => Some(if shift { '^' } else { '6' }),
        UiKey::Key7 => Some(if shift { '&' } else { '7' }),
        UiKey::Key8 => Some(if shift { '*' } else { '8' }),
        UiKey::Key9 => Some(if shift { '(' } else { '9' }),
        UiKey::Semicolon => Some(if shift { ':' } else { ';' }),
        UiKey::Equal => Some(if shift { '+' } else { '=' }),
        UiKey::A => Some(if shift { 'A' } else { 'a' }),
        UiKey::B => Some(if shift { 'B' } else { 'b' }),
        UiKey::C => Some(if shift { 'C' } else { 'c' }),
        UiKey::D => Some(if shift { 'D' } else { 'd' }),
        UiKey::E => Some(if shift { 'E' } else { 'e' }),
        UiKey::F => Some(if shift { 'F' } else { 'f' }),
        UiKey::G => Some(if shift { 'G' } else { 'g' }),
        UiKey::H => Some(if shift { 'H' } else { 'h' }),
        UiKey::I => Some(if shift { 'I' } else { 'i' }),
        UiKey::J => Some(if shift { 'J' } else { 'j' }),
        UiKey::K => Some(if shift { 'K' } else { 'k' }),
        UiKey::L => Some(if shift { 'L' } else { 'l' }),
        UiKey::M => Some(if shift { 'M' } else { 'm' }),
        UiKey::N => Some(if shift { 'N' } else { 'n' }),
        UiKey::O => Some(if shift { 'O' } else { 'o' }),
        UiKey::P => Some(if shift { 'P' } else { 'p' }),
        UiKey::Q => Some(if shift { 'Q' } else { 'q' }),
        UiKey::R => Some(if shift { 'R' } else { 'r' }),
        UiKey::S => Some(if shift { 'S' } else { 's' }),
        UiKey::T => Some(if shift { 'T' } else { 't' }),
        UiKey::U => Some(if shift { 'U' } else { 'u' }),
        UiKey::V => Some(if shift { 'V' } else { 'v' }),
        UiKey::W => Some(if shift { 'W' } else { 'w' }),
        UiKey::X => Some(if shift { 'X' } else { 'x' }),
        UiKey::Y => Some(if shift { 'Y' } else { 'y' }),
        UiKey::Z => Some(if shift { 'Z' } else { 'z' }),
        UiKey::LeftBracket => Some(if shift { '{' } else { '[' }),
        UiKey::Backslash => Some(if shift { '|' } else { '\\' }),
        UiKey::RightBracket => Some(if shift { '}' } else { ']' }),
        UiKey::GraveAccent => Some(if shift { '~' } else { '`' }),
        UiKey::Kp0 => Some('0'),
        UiKey::Kp1 => Some('1'),
        UiKey::Kp2 => Some('2'),
        UiKey::Kp3 => Some('3'),
        UiKey::Kp4 => Some('4'),
        UiKey::Kp5 => Some('5'),
        UiKey::Kp6 => Some('6'),
        UiKey::Kp7 => Some('7'),
        UiKey::Kp8 => Some('8'),
        UiKey::Kp9 => Some('9'),
        UiKey::KpDecimal => Some('.'),
        UiKey::KpDivide => Some('/'),
        UiKey::KpMultiply => Some('*'),
        UiKey::KpSubtract => Some('-'),
        UiKey::KpAdd => Some('+'),
        UiKey::Other => Option::None,
    }
}

/// Look up the character a key yields under the given shift state.
pub fn key_char(k: &UiKey, shift: bool) -> (r: Option<char>)
    ensures
        r == key_char_spec(*k, shift),
{
    match k {
        UiKey::Space => Some(' '),
        UiKey::Apostrophe => Some(if shift { '"' } else { '\'' }),
        UiKey::Comma => Some(if shift { '<' } else { ',' }),
        UiKey::Minus => Some(if shift { '_' } else { '-' }),
        UiKey::Period => Some(if shift { '>' } else { '.' }),
        UiKey::Slash => Some(if shift { '?' } else { '/' }),
        UiKey::Key0 => Some(if shift { ')' } else { '0' }),
        UiKey::Key1 => Some(if shift { '!' } else { '1' }),
        UiKey::Key2 => Some(if shift { '@' } else { '2' }),
        UiKey::Key3 => Some(if shift { '#' } else { '3' }),
        UiKey::Key4 => Some(if shift { '$' } else { '4' }),
        UiKey::Key5 => Some(if shift { '%' } else { '5' }),
        UiKey::Key6 => Some(if shift { '^' } else { '6' }),
        UiKey::Key7 => Some(if shift { '&' } else { '7' }),
        UiKey::Key8 => Some(if shift { '*' } else { '8' }),
        UiKey::Key9 => Some(if shift { '(' } else { '9' }),
        UiKey::Semicolon => Some(if shift { ':' } else { ';' }),
        UiKey::Equal => Some(if shift { '+' } else { '=' }),
        UiKey::A => Some(if shift { 'A' } else { 'a' }),
        UiKey::B => Some(if shift { 'B' } else { 'b' }),
        UiKey::C => Some(if shift { 'C' } else { 'c' }),
        UiKey::D => Some(if shift { 'D' } else { 'd' }),
        UiKey::E => Some(if shift { 'E' } else { 'e' }),
        UiKey::F => Some(if shift { 'F' } else { 'f' }),
        UiKey::G => Some(if shift { 'G' } else { 'g' }),
        UiKey::H => Some(if shift { 'H' } else { 'h' }),
        UiKey::I => Some(if shift { 'I' } else { 'i' }),
        UiKey::J => Some(if shift { 'J' } else { 'j' }),
        UiKey::K => Some(if shift { 'K' } else { 'k' }),
        UiKey::L => Some(if shift { 'L' } else { 'l' }),
        UiKey::M => Some(if shift { 'M' } else { 'm' }),
        UiKey::N => Some(if shift { 'N' } else { 'n' }),
        UiKey::O => Some(if shift { 'O' } else { 'o' }),
        UiKey::P => Some(if shift { 'P' } else { 'p' }),
        UiKey::Q => Some(if shift { 'Q' } else { 'q' }),
        UiKey::R => Some(if shift { 'R' } else { 'r' }),
        UiKey::S => Some(if shift { 'S' } else { 's' }),
        UiKey::T => Some(if shift { 'T' } else { 't' }),
        UiKey::U => Some(if shift { 'U' } else { 'u' }),
        UiKey::V => Some(if shift { 'V' } else { 'v' }),
        UiKey::W => Some(if shift { 'W' } else { 'w' }),
        UiKey::X => Some(if shift { 'X' } else { 'x' }),
        UiKey::Y => Some(if shift { 'Y' } else { 'y' }),
        UiKey::Z => Some(if shift { 'Z' } else { 'z' }),
        UiKey::LeftBracket => Some(if shift { '{' } else { '[' }),
        UiKey::Backslash => Some(if shift { '|' } else { '\\' }),
        UiKey::RightBracket => Some(if shift { '}' } else { ']' }),
        UiKey::GraveAccent => Some(if shift { '~' } else { '`' }),
        UiKey::Kp0 => Some('0'),
        UiKey::Kp1 => Some('1'),
        UiKey::Kp2 => Some('2'),
        UiKey::Kp3 => Some('3'),
        UiKey::Kp4 => Some('4'),
        UiKey::Kp5 => Some('5'),
        UiKey::Kp6 => Some('6'),
        UiKey::Kp7 => Some('7'),
        UiKey::Kp8 => Some('8'),
        UiKey::Kp9 => Some('9'),
        UiKey::KpDecimal => Some('.'),
        UiKey::KpDivide => Some('/'),
        UiKey::KpMultiply => Some('*'),
        UiKey::KpSubtract => Some('-'),
        UiKey::KpAdd => Some('+'),
        UiKey::Other => Option::None,
    }
}

} // verus!
