//! The key and character mapper: pure lookup tables from symbolic key
//! names and literal characters to abstract key identifiers.

use vstd::prelude::*;
use crate::strutil::{ascii_lower, lower_seq, str_eq};

verus! {

/// An abstract key identifier, backend-agnostic.
#[derive(Clone, Copy, PartialEq, Eq, Structural, Debug)]
pub enum KeyCode {
    A,
    B,
    C,
    D,
    E,
    F,
    G,
    H,
    I,
    J,
    K,
    L,
    M,
    N,
    O,
    P,
    Q,
    R,
    S,
    T,
    U,
    V,
    W,
    X,
    Y,
    Z,
    N0,
    N1,
    N2,
    N3,
    N4,
    N5,
    N6,
    N7,
    N8,
    N9,
    Return,
    Tab,
    Space,
    Backspace,
    Delete,
    Escape,
    UpArrow,
    DownArrow,
    LeftArrow,
    RightArrow,
    Home,
    End,
    PageUp,
    PageDown,
    F1,
    F2,
    F3,
    F4,
    F5,
    F6,
    F7,
    F8,
    F9,
    F10,
    F11,
    F12,
    CapsLock,
    ShiftLeft,
    ControlLeft,
    Alt,
    MetaLeft,
    Minus,
    Equal,
    LeftBracket,
    RightBracket,
    BackSlash,
    SemiColon,
    Quote,
    Comma,
    Dot,
    Slash,
    BackQuote,
}

/// The key a lowered name resolves to, or `None` for an unknown name.
pub open spec fn key_of_lower(s: Seq<char>) -> Option<KeyCode> {
    if s == "a"@ {
        Some(KeyCode::A)
    } else if s == "b"@ {
        Some(KeyCode::B)
    } else if s == "c"@ {
        Some(KeyCode::C)
    } else if s == "d"@ {
        Some(KeyCode::D)
    } else if s == "e"@ {
        Some(KeyCode::E)
    } else if s == "f"@ {
        Some(KeyCode::F)
    } else if s == "g"@ {
        Some(KeyCode::G)
    } else if s == "h"@ {
        Some(KeyCode::H)
    } else if s == "i"@ {
        Some(KeyCode::I)
    } else if s == "j"@ {
        Some(KeyCode::J)
    } else if s == "k"@ {
        Some(KeyCode::K)
    } else if s == "l"@ {
        Some(KeyCode::L)
    } else if s == "m"@ {
        Some(KeyCode::M)
    } else if s == "n"@ {
        Some(KeyCode::N)
    } else if s == "o"@ {
        Some(KeyCode::O)
    } else if s == "p"@ {
        Some(KeyCode::P)
    } else if s == "q"@ {
        Some(KeyCode::Q)
    } else if s == "r"@ {
        Some(KeyCode::R)
    } else if s == "s"@ {
        Some(KeyCode::S)
    } else if s == "t"@ {
        Some(KeyCode::T)
    } else if s == "u"@ {
        Some(KeyCode::U)
    } else if s == "v"@ {
        Some(KeyCode::V)
    } else if s == "w"@ {
        Some(KeyCode::W)
    } else if s == "x"@ {
        Some(KeyCode::X)
    } else if s == "y"@ {
        Some(KeyCode::Y)
    } else if s == "z"@ {
        Some(KeyCode::Z)
    } else if s == "0"@ {
        Some(KeyCode::N0)
    } else if s == "1"@ {
        Some(KeyCode::N1)
    } else if s == "2"@ {
        Some(KeyCode::N2)
    } else if s == "3"@ {
        Some(KeyCode::N3)
    } else if s == "4"@ {
        Some(KeyCode::N4)
    } else if s == "5"@ {
        Some(KeyCode::N5)
    } else if s == "6"@ {
        Some(KeyCode::N6)
    } else if s == "7"@ {
        Some(KeyCode::N7)
    } else if s == "8"@ {
        Some(KeyCode::N8)
    } else if s == "9"@ {
        Some(KeyCode::N9)
    } else if s == "enter"@ {
        Some(KeyCode::Return)
    } else if s == "return"@ {
        Some(KeyCode::Return)
    } else if s == "tab"@ {
        Some(KeyCode::Tab)
    } else if s == "space"@ {
        Some(KeyCode::Space)
    } else if s == " "@ {
        Some(KeyCode::Space)
    } else if s == "backspace"@ {
        Some(KeyCode::Backspace)
    } else if s == "delete"@ {
        Some(KeyCode::Delete)
    } else if s == "escape"@ {
        Some(KeyCode::Escape)
    } else if s == "esc"@ {
        Some(KeyCode::Escape)
    } else if s == "up"@ {
        Some(KeyCode::UpArrow)
    } else if s == "uparrow"@ {
        Some(KeyCode::UpArrow)
    } else if s == "down"@ {
        Some(KeyCode::DownArrow)
    } else if s == "downarrow"@ {
        Some(KeyCode::DownArrow)
    } else if s == "left"@ {
        Some(KeyCode::LeftArrow)
    } else if s == "leftarrow"@ {
        Some(KeyCode::LeftArrow)
    } else if s == "right"@ {
        Some(KeyCode::RightArrow)
    } else if s == "rightarrow"@ {
        Some(KeyCode::RightArrow)
    } else if s == "home"@ {
        Some(KeyCode::Home)
    } else if s == "end"@ {
        Some(KeyCode::End)
    } else if s == "pageup"@ {
        Some(KeyCode::PageUp)
    } else if s == "pagedown"@ {
        Some(KeyCode::PageDown)
    } else if s == "f1"@ {
        Some(KeyCode::F1)
    } else if s == "f2"@ {
        Some(KeyCode::F2)
    } else if s == "f3"@ {
        Some(KeyCode::F3)
    } else if s == "f4"@ {
        Some(KeyCode::F4)
    } else if s == "f5"@ {
        Some(KeyCode::F5)
    } else if s == "f6"@ {
        Some(KeyCode::F6)
    } else if s == "f7"@ {
        Some(KeyCode::F7)
    } else if s == "f8"@ {
        Some(KeyCode::F8)
    } else if s == "f9"@ {
        Some(KeyCode::F9)
    } else if s == "f10"@ {
        Some(KeyCode::F10)
    } else if s == "f11"@ {
        Some(KeyCode::F11)
    } else if s == "f12"@ {
        Some(KeyCode::F12)
    } else if s == "capslock"@ {
        Some(KeyCode::CapsLock)
    } else if s == "shift"@ {
        Some(KeyCode::ShiftLeft)
    } else if s == "control"@ {
        Some(KeyCode::ControlLeft)
    } else if s == "ctrl"@ {
        Some(KeyCode::ControlLeft)
    } else if s == "alt"@ {
        Some(KeyCode::Alt)
    } else if s == "option"@ {
        Some(KeyCode::Alt)
    } else if s == "meta"@ {
        Some(KeyCode::MetaLeft)
    } else if s == "command"@ {
        Some(KeyCode::MetaLeft)
    } else if s == "cmd"@ {
        Some(KeyCode::MetaLeft)
    } else if s == "super"@ {
        Some(KeyCode::MetaLeft)
    } else if s == "win"@ {
        Some(KeyCode::MetaLeft)
    } else if s == "-"@ {
        Some(KeyCode::Minus)
    } else if s == "minus"@ {
        Some(KeyCode::Minus)
    } else if s == "="@ {
        Some(KeyCode::Equal)
    } else if s == "equal"@ {
        Some(KeyCode::Equal)
    } else if s == "["@ {
        Some(KeyCode::LeftBracket)
    } else if s == "leftbracket"@ {
        Some(KeyCode::LeftBracket)
    } else if s == "]"@ {
        Some(KeyCode::RightBracket)
    } else if s == "rightbracket"@ {
        Some(KeyCode::RightBracket)
    } else if s == "\\"@ {
        Some(KeyCode::BackSlash)
    } else if s == "backslash"@ {
        Some(KeyCode::BackSlash)
    } else if s == ";"@ {
        Some(KeyCode::SemiColon)
    } else if s == "semicolon"@ {
        Some(KeyCode::SemiColon)
    } else if s == "'"@ {
        Some(KeyCode::Quote)
    } else if s == "quote"@ {
        Some(KeyCode::Quote)
    } else if s == ","@ {
        Some(KeyCode::Comma)
    } else if s == "comma"@ {
        Some(KeyCode::Comma)
    } else if s == "."@ {
        Some(KeyCode::Dot)
    } else if s == "dot"@ {
        Some(KeyCode::Dot)
    } else if s == "period"@ {
        Some(KeyCode::Dot)
    } else if s == "/"@ {
        Some(KeyCode::Slash)
    } else if s == "slash"@ {
        Some(KeyCode::Slash)
    } else if s == "`"@ {
        Some(KeyCode::BackQuote)
    } else if s == "backquote"@ {
        Some(KeyCode::BackQuote)
    } else if s == "grave"@ {
        Some(KeyCode::BackQuote)
    } else {
        None
    }
}

/// The key a symbolic name resolves to, case-insensitively.
pub open spec fn key_of_name(s: Seq<char>) -> Option<KeyCode> {
    key_of_lower(lower_seq(s))
}

/// Resolves a symbolic key name, case-insensitively, to an abstract key.
pub fn parse_key(key_str: &str) -> (r: Option<KeyCode>)
    ensures
        r == key_of_name(key_str@),
{
    let low = ascii_lower(key_str);
    if str_eq(low.as_str(), "a") {
        Some(KeyCode::A)
    } else if str_eq(low.as_str(), "b") {
        Some(KeyCode::B)
    } else if str_eq(low.as_str(), "c") {
        Some(KeyCode::C)
    } else if str_eq(low.as_str(), "d") {
        Some(KeyCode::D)
    } else if str_eq(low.as_str(), "e") {
        Some(KeyCode::E)
    } else if str_eq(low.as_str(), "f") {
        Some(KeyCode::F)
    } else if str_eq(low.as_str(), "g") {
        Some(KeyCode::G)
    } else if str_eq(low.as_str(), "h") {
        Some(KeyCode::H)
    } else if str_eq(low.as_str(), "i") {
        Some(KeyCode::I)
    } else if str_eq(low.as_str(), "j") {
        Some(KeyCode::J)
    } else if str_eq(low.as_str(), "k") {
        Some(KeyCode::K)
    } else if str_eq(low.as_str(), "l") {
        Some(KeyCode::L)
    } else if str_eq(low.as_str(), "m") {
        Some(KeyCode::M)
    } else if str_eq(low.as_str(), "n") {
        Some(KeyCode::N)
    } else if str_eq(low.as_str(), "o") {
        Some(KeyCode::O)
    } else if str_eq(low.as_str(), "p") {
        Some(KeyCode::P)
    } else if str_eq(low.as_str(), "q") {
        Some(KeyCode::Q)
    } else if str_eq(low.as_str(), "r") {
        Some(KeyCode::R)
    } else if str_eq(low.as_str(), "s") {
        Some(KeyCode::S)
    } else if str_eq(low.as_str(), "t") {
        Some(KeyCode::T)
    } else if str_eq(low.as_str(), "u") {
        Some(KeyCode::U)
    } else if str_eq(low.as_str(), "v") {
        Some(KeyCode::V)
    } else if str_eq(low.as_str(), "w") {
        Some(KeyCode::W)
    } else if str_eq(low.as_str(), "x") {
        Some(KeyCode::X)
    } else if str_eq(low.as_str(), "y") {
        Some(KeyCode::Y)
    } else if str_eq(low.as_str(), "z") {
        Some(KeyCode::Z)
    } else if str_eq(low.as_str(), "0") {
        Some(KeyCode::N0)
    } else if str_eq(low.as_str(), "1") {
        Some(KeyCode::N1)
    } else if str_eq(low.as_str(), "2") {
        Some(KeyCode::N2)
    } else if str_eq(low.as_str(), "3") {
        Some(KeyCode::N3)
    } else if str_eq(low.as_str(), "4") {
        Some(KeyCode::N4)
    } else if str_eq(low.as_str(), "5") {
        Some(KeyCode::N5)
    } else if str_eq(low.as_str(), "6") {
        Some(KeyCode::N6)
    } else if str_eq(low.as_str(), "7") {
        Some(KeyCode::N7)
    } else if str_eq(low.as_str(), "8") {
        Some(KeyCode::N8)
    } else if str_eq(low.as_str(), "9") {
        Some(KeyCode::N9)
    } else if str_eq(low.as_str(), "enter") || str_eq(low.as_str(), "return") {
        Some(KeyCode::Return)
    } else if str_eq(low.as_str(), "tab") {
        Some(KeyCode::Tab)
    } else if str_eq(low.as_str(), "space") || str_eq(low.as_str(), " ") {
        Some(KeyCode::Space)
    } else if str_eq(low.as_str(), "backspace") {
        Some(KeyCode::Backspace)
    } else if str_eq(low.as_str(), "delete") {
        Some(KeyCode::Delete)
    } else if str_eq(low.as_str(), "escape") || str_eq(low.as_str(), "esc") {
        Some(KeyCode::Escape)
    } else if str_eq(low.as_str(), "up") || str_eq(low.as_str(), "uparrow") {
        Some(KeyCode::UpArrow)
    } else if str_eq(low.as_str(), "down") || str_eq(low.as_str(), "downarrow") {
        Some(KeyCode::DownArrow)
    } else if str_eq(low.as_str(), "left") || str_eq(low.as_str(), "leftarrow") {
        Some(KeyCode::LeftArrow)
    } else if str_eq(low.as_str(), "right") || str_eq(low.as_str(), "rightarrow") {
        Some(KeyCode::RightArrow)
    } else if str_eq(low.as_str(), "home") {
        Some(KeyCode::Home)
    } else if str_eq(low.as_str(), "end") {
        Some(KeyCode::End)
    } else if str_eq(low.as_str(), "pageup") {
        Some(KeyCode::PageUp)
    } else if str_eq(low.as_str(), "pagedown") {
        Some(KeyCode::PageDown)
    } else if str_eq(low.as_str(), "f1") {
        Some(KeyCode::F1)
    } else if str_eq(low.as_str(), "f2") {
        Some(KeyCode::F2)
    } else if str_eq(low.as_str(), "f3") {
        Some(KeyCode::F3)
    } else if str_eq(low.as_str(), "f4") {
        Some(KeyCode::F4)
    } else if str_eq(low.as_str(), "f5") {
        Some(KeyCode::F5)
    } else if str_eq(low.as_str(), "f6") {
        Some(KeyCode::F6)
    } else if str_eq(low.as_str(), "f7") {
        Some(KeyCode::F7)
    } else if str_eq(low.as_str(), "f8") {
        Some(KeyCode::F8)
    } else if str_eq(low.as_str(), "f9") {
        Some(KeyCode::F9)
    } else if str_eq(low.as_str(), "f10") {
        Some(KeyCode::F10)
    } else if str_eq(low.as_str(), "f11") {
        Some(KeyCode::F11)
    } else if str_eq(low.as_str(), "f12") {
        Some(KeyCode::F12)
    } else if str_eq(low.as_str(), "capslock") {
        Some(KeyCode::CapsLock)
    } else if str_eq(low.as_str(), "shift") {
        Some(KeyCode::ShiftLeft)
    } else if str_eq(low.as_str(), "control") || str_eq(low.as_str(), "ctrl") {
        Some(KeyCode::ControlLeft)
    } else if str_eq(low.as_str(), "alt") || str_eq(low.as_str(), "option") {
        Some(KeyCode::Alt)
    } else if str_eq(low.as_str(), "meta") || str_eq(low.as_str(), "command") || str_eq(low.as_str(), "cmd") || str_eq(low.as_str(), "super") || str_eq(low.as_str(), "win") {
        Some(KeyCode::MetaLeft)
    } else if str_eq(low.as_str(), "-") || str_eq(low.as_str(), "minus") {
        Some(KeyCode::Minus)
    } else if str_eq(low.as_str(), "=") || str_eq(low.as_str(), "equal") {
        Some(KeyCode::Equal)
    } else if str_eq(low.as_str(), "[") || str_eq(low.as_str(), "leftbracket") {
        Some(KeyCode::LeftBracket)
    } else if str_eq(low.as_str(), "]") || str_eq(low.as_str(), "rightbracket") {
        Some(KeyCode::RightBracket)
    } else if str_eq(low.as_str(), "\\") || str_eq(low.as_str(), "backslash") {
        Some(KeyCode::BackSlash)
    } else if str_eq(low.as_str(), ";") || str_eq(low.as_str(), "semicolon") {
        Some(KeyCode::SemiColon)
    } else if str_eq(low.as_str(), "'") || str_eq(low.as_str(), "quote") {
        Some(KeyCode::Quote)
    } else if str_eq(low.as_str(), ",") || str_eq(low.as_str(), "comma") {
        Some(KeyCode::Comma)
    } else if str_eq(low.as_str(), ".") || str_eq(low.as_str(), "dot") || str_eq(low.as_str(), "period") {
        Some(KeyCode::Dot)
    } else if str_eq(low.as_str(), "/") || str_eq(low.as_str(), "slash") {
        Some(KeyCode::Slash)
    } else if str_eq(low.as_str(), "`") || str_eq(low.as_str(), "backquote") || str_eq(low.as_str(), "grave") {
        Some(KeyCode::BackQuote)
    } else {
        None
    }
}
/// The modifier key a lowered name resolves to.
pub open spec fn modifier_of_lower(s: Seq<char>) -> Option<KeyCode> {
    if s == "shift"@ {
        Some(KeyCode::ShiftLeft)
    } else if s == "control"@ {
        Some(KeyCode::ControlLeft)
    } else if s == "ctrl"@ {
        Some(KeyCode::ControlLeft)
    } else if s == "alt"@ {
        Some(KeyCode::Alt)
    } else if s == "option"@ {
        Some(KeyCode::Alt)
    } else if s == "meta"@ {
        Some(KeyCode::MetaLeft)
    } else if s == "command"@ {
        Some(KeyCode::MetaLeft)
    } else if s == "cmd"@ {
        Some(KeyCode::MetaLeft)
    } else if s == "super"@ {
        Some(KeyCode::MetaLeft)
    } else if s == "win"@ {
        Some(KeyCode::MetaLeft)
    } else {
        None
    }
}

/// The modifier key a name resolves to, case-insensitively.
pub open spec fn modifier_of_name(s: Seq<char>) -> Option<KeyCode> {
    modifier_of_lower(lower_seq(s))
}

/// Resolves a modifier name, case-insensitively, to an abstract key.
pub fn get_modifier_key(modifier: &str) -> (r: Option<KeyCode>)
    ensures
        r == modifier_of_name(modifier@),
{
    let low = ascii_lower(modifier);
    if str_eq(low.as_str(), "shift") {
        Some(KeyCode::ShiftLeft)
    } else if str_eq(low.as_str(), "control") || str_eq(low.as_str(), "ctrl") {
        Some(KeyCode::ControlLeft)
    } else if str_eq(low.as_str(), "alt") || str_eq(low.as_str(), "option") {
        Some(KeyCode::Alt)
    } else if str_eq(low.as_str(), "meta") || str_eq(low.as_str(), "command") || str_eq(low.as_str(), "cmd") || str_eq(low.as_str(), "super") || str_eq(low.as_str(), "win") {
        Some(KeyCode::MetaLeft)
    } else {
        None
    }
}

/// The key a literal character types with, and whether shift is held
/// for it; `None` for a character outside the supported set.
pub open spec fn char_key(c: char) -> Option<KeyCode> {
    if c == 'a' {
        Some(KeyCode::A)
    } else if c == 'b' {
        Some(KeyCode::B)
    } else if c == 'c' {
        Some(KeyCode::C)
    } else if c == 'd' {
        Some(KeyCode::D)
    } else if c == 'e' {
        Some(KeyCode::E)
    } else if c == 'f' {
        Some(KeyCode::F)
    } else if c == 'g' {
        Some(KeyCode::G)
    } else if c == 'h' {
        Some(KeyCode::H)
    } else if c == 'i' {
        Some(KeyCode::I)
    } else if c == 'j' {
        Some(KeyCode::J)
    } else if c == 'k' {
        Some(KeyCode::K)
    } else if c == 'l' {
        Some(KeyCode::L)
    } else if c == 'm' {
        Some(KeyCode::M)
    } else if c == 'n' {
        Some(KeyCode::N)
    } else if c == 'o' {
        Some(KeyCode::O)
    } else if c == 'p' {
        Some(KeyCode::P)
    } else if c == 'q' {
        Some(KeyCode::Q)
    } else if c == 'r' {
        Some(KeyCode::R)
    } else if c == 's' {
        Some(KeyCode::S)
    } else if c == 't' {
        Some(KeyCode::T)
    } else if c == 'u' {
        Some(KeyCode::U)
    } else if c == 'v' {
        Some(KeyCode::V)
    } else if c == 'w' {
        Some(KeyCode::W)
    } else if c == 'x' {
        Some(KeyCode::X)
    } else if c == 'y' {
        Some(KeyCode::Y)
    } else if c == 'z' {
        Some(KeyCode::Z)
    } else if c == 'A' {
        Some(KeyCode::A)
    } else if c == 'B' {
        Some(KeyCode::B)
    } else if c == 'C' {
        Some(KeyCode::C)
    } else if c == 'D' {
        Some(KeyCode::D)
    } else if c == 'E' {
        Some(KeyCode::E)
    } else if c == 'F' {
        Some(KeyCode::F)
    } else if c == 'G' {
        Some(KeyCode::G)
    } else if c == 'H' {
        Some(KeyCode::H)
    } else if c == 'I' {
        Some(KeyCode::I)
    } else if c == 'J' {
        Some(KeyCode::J)
    } else if c == 'K' {
        Some(KeyCode::K)
    } else if c == 'L' {
        Some(KeyCode::L)
    } else if c == 'M' {
        Some(KeyCode::M)
    } else if c == 'N' {
        Some(KeyCode::N)
    } else if c == 'O' {
        Some(KeyCode::O)
    } else if c == 'P' {
        Some(KeyCode::P)
    } else if c == 'Q' {
        Some(KeyCode::Q)
    } else if c == 'R' {
        Some(KeyCode::R)
    } else if c == 'S' {
        Some(KeyCode::S)
    } else if c == 'T' {
        Some(KeyCode::T)
    } else if c == 'U' {
        Some(KeyCode::U)
    } else if c == 'V' {
        Some(KeyCode::V)
    } else if c == 'W' {
        Some(KeyCode::W)
    } else if c == 'X' {
        Some(KeyCode::X)
    } else if c == 'Y' {
        Some(KeyCode::Y)
    } else if c == 'Z' {
        Some(KeyCode::Z)
    } else if c == '0' {
        Some(KeyCode::N0)
    } else if c == '1' {
        Some(KeyCode::N1)
    } else if c == '2' {
        Some(KeyCode::N2)
    } else if c == '3' {
        Some(KeyCode::N3)
    } else if c == '4' {
        Some(KeyCode::N4)
    } else if c == '5' {
        Some(KeyCode::N5)
    } else if c == '6' {
        Some(KeyCode::N6)
    } else if c == '7' {
        Some(KeyCode::N7)
    } else if c == '8' {
        Some(KeyCode::N8)
    } else if c == '9' {
        Some(KeyCode::N9)
    } else if c == ' ' {
        Some(KeyCode::Space)
    } else if c == '\n' {
        Some(KeyCode::Return)
    } else if c == '\t' {
        Some(KeyCode::Tab)
    } else if c == '-' {
        Some(KeyCode::Minus)
    } else if c == '=' {
        Some(KeyCode::Equal)
    } else if c == '[' {
        Some(KeyCode::LeftBracket)
    } else if c == ']' {
        Some(KeyCode::RightBracket)
    } else if c == '\\' {
        Some(KeyCode::BackSlash)
    } else if c == ';' {
        Some(KeyCode::SemiColon)
    } else if c == '\'' {
        Some(KeyCode::Quote)
    } else if c == ',' {
        Some(KeyCode::Comma)
    } else if c == '.' {
        Some(KeyCode::Dot)
    } else if c == '/' {
        Some(KeyCode::Slash)
    } else if c == '`' {
        Some(KeyCode::BackQuote)
    } else if c == '!' {
        Some(KeyCode::N1)
    } else if c == '@' {
        Some(KeyCode::N2)
    } else if c == '#' {
        Some(KeyCode::N3)
    } else if c == '$' {
        Some(KeyCode::N4)
    } else if c == '%' {
        Some(KeyCode::N5)
    } else if c == '^' {
        Some(KeyCode::N6)
    } else if c == '&' {
        Some(KeyCode::N7)
    } else if c == '*' {
        Some(KeyCode::N8)
    } else if c == '(' {
        Some(KeyCode::N9)
    } else if c == ')' {
        Some(KeyCode::N0)
    } else if c == '_' {
        Some(KeyCode::Minus)
    } else if c == '+' {
        Some(KeyCode::Equal)
    } else if c == '{' {
        Some(KeyCode::LeftBracket)
    } else if c == '}' {
        Some(KeyCode::RightBracket)
    } else if c == '|' {
        Some(KeyCode::BackSlash)
    } else if c == ':' {
        Some(KeyCode::SemiColon)
    } else if c == '"' {
        Some(KeyCode::Quote)
    } else if c == '<' {
        Some(KeyCode::Comma)
    } else if c == '>' {
        Some(KeyCode::Dot)
    } else if c == '?' {
        Some(KeyCode::Slash)
    } else if c == '~' {
        Some(KeyCode::BackQuote)
    } else {
        None
    }
}

/// Whether typing the character needs shift held.
pub open spec fn char_shift(c: char) -> bool {
    c == 'A' || c == 'B' || c == 'C' || c == 'D' || c == 'E' || c == 'F' || c == 'G' || c == 'H' || c == 'I' || c == 'J' || c == 'K' || c == 'L' || c == 'M' || c == 'N' || c == 'O' || c == 'P' || c == 'Q' || c == 'R' || c == 'S' || c == 'T' || c == 'U' || c == 'V' || c == 'W' || c == 'X' || c == 'Y' || c == 'Z' || c == '!' || c == '@' || c == '#' || c == '$' || c == '%' || c == '^' || c == '&' || c == '*' || c == '(' || c == ')' || c == '_' || c == '+' || c == '{' || c == '}' || c == '|' || c == ':' || c == '"' || c == '<' || c == '>' || c == '?' || c == '~'
}

/// Resolves a literal character to the key that types it plus a
/// shift-required flag; unmapped characters give `(None, false)`.
pub fn char_to_key(c: char) -> (r: (Option<KeyCode>, bool))
    ensures
        r.0 == char_key(c),
        r.1 == (char_key(c) is Some && char_shift(c)),
{
    match c {
        'a' => (Some(KeyCode::A), false),
        'b' => (Some(KeyCode::B), false),
        'c' => (Some(KeyCode::C), false),
        'd' => (Some(KeyCode::D), false),
        'e' => (Some(KeyCode::E), false),
        'f' => (Some(KeyCode::F), false),
        'g' => (Some(KeyCode::G), false),
        'h' => (Some(KeyCode::H), false),
        'i' => (Some(KeyCode::I), false),
        'j' => (Some(KeyCode::J), false),
        'k' => (Some(KeyCode::K), false),
        'l' => (Some(KeyCode::L), false),
        'm' => (Some(KeyCode::M), false),
        'n' => (Some(KeyCode::N), false),
        'o' => (Some(KeyCode::O), false),
        'p' => (Some(KeyCode::P), false),
        'q' => (Some(KeyCode::Q), false),
        'r' => (Some(KeyCode::R), false),
        's' => (Some(KeyCode::S), false),
        't' => (Some(KeyCode::T), false),
        'u' => (Some(KeyCode::U), false),
        'v' => (Some(KeyCode::V), false),
        'w' => (Some(KeyCode::W), false),
        'x' => (Some(KeyCode::X), false),
        'y' => (Some(KeyCode::Y), false),
        'z' => (Some(KeyCode::Z), false),
        'A' => (Some(KeyCode::A), true),
        'B' => (Some(KeyCode::B), true),
        'C' => (Some(KeyCode::C), true),
        'D' => (Some(KeyCode::D), true),
        'E' => (Some(KeyCode::E), true),
        'F' => (Some(KeyCode::F), true),
        'G' => (Some(KeyCode::G), true),
        'H' => (Some(KeyCode::H), true),
        'I' => (Some(KeyCode::I), true),
        'J' => (Some(KeyCode::J), true),
        'K' => (Some(KeyCode::K), true),
        'L' => (Some(KeyCode::L), true),
        'M' => (Some(KeyCode::M), true),
        'N' => (Some(KeyCode::N), true),
        'O' => (Some(KeyCode::O), true),
        'P' => (Some(KeyCode::P), true),
        'Q' => (Some(KeyCode::Q), true),
        'R' => (Some(KeyCode::R), true),
        'S' => (Some(KeyCode::S), true),
        'T' => (Some(KeyCode::T), true),
        'U' => (Some(KeyCode::U), true),
        'V' => (Some(KeyCode::V), true),
        'W' => (Some(KeyCode::W), true),
        'X' => (Some(KeyCode::X), true),
        'Y' => (Some(KeyCode::Y), true),
        'Z' => (Some(KeyCode::Z), true),
        '0' => (Some(KeyCode::N0), false),
        '1' => (Some(KeyCode::N1), false),
        '2' => (Some(KeyCode::N2), false),
        '3' => (Some(KeyCode::N3), false),
        '4' => (Some(KeyCode::N4), false),
        '5' => (Some(KeyCode::N5), false),
        '6' => (Some(KeyCode::N6), false),
        '7' => (Some(KeyCode::N7), false),
        '8' => (Some(KeyCode::N8), false),
        '9' => (Some(KeyCode::N9), false),
        ' ' => (Some(KeyCode::Space), false),
        '\n' => (Some(KeyCode::Return), false),
        '\t' => (Some(KeyCode::Tab), false),
        '-' => (Some(KeyCode::Minus), false),
        '=' => (Some(KeyCode::Equal), false),
        '[' => (Some(KeyCode::LeftBracket), false),
        ']' => (Some(KeyCode::RightBracket), false),
        '\\' => (Some(KeyCode::BackSlash), false),
        ';' => (Some(KeyCode::SemiColon), false),
        '\'' => (Some(KeyCode::Quote), false),
        ',' => (Some(KeyCode::Comma), false),
        '.' => (Some(KeyCode::Dot), false),
        '/' => (Some(KeyCode::Slash), false),
        '`' => (Some(KeyCode::BackQuote), false),
        '!' => (Some(KeyCode::N1), true),
        '@' => (Some(KeyCode::N2), true),
        '#' => (Some(KeyCode::N3), true),
        '$' => (Some(KeyCode::N4), true),
        '%' => (Some(KeyCode::N5), true),
        '^' => (Some(KeyCode::N6), true),
        '&' => (Some(KeyCode::N7), true),
        '*' => (Some(KeyCode::N8), true),
        '(' => (Some(KeyCode::N9), true),
        ')' => (Some(KeyCode::N0), true),
        '_' => (Some(KeyCode::Minus), true),
        '+' => (Some(KeyCode::Equal), true),
        '{' => (Some(KeyCode::LeftBracket), true),
        '}' => (Some(KeyCode::RightBracket), true),
        '|' => (Some(KeyCode::BackSlash), true),
        ':' => (Some(KeyCode::SemiColon), true),
        '"' => (Some(KeyCode::Quote), true),
        '<' => (Some(KeyCode::Comma), true),
        '>' => (Some(KeyCode::Dot), true),
        '?' => (Some(KeyCode::Slash), true),
        '~' => (Some(KeyCode::BackQuote), true),
        _ => (None, false),
    }
}

} // verus!
