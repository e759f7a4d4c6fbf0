//! Translation of the embedded host's virtual-key codes into the UI
//! library's key vocabulary.
//!
//! The host reports keys as one-byte virtual-key codes; the UI library
//! wants its own named keys.  [`KeyCode`] mirrors the UI library's key
//! names for exactly the keys the hosts can deliver, and
//! [`to_imgui_key`] is the total lookup from code to key.

use vstd::prelude::*;

verus! {

// The embedded host's virtual-key codes.
pub const VK_BACK: u8 = 0x08;

pub const VK_TAB: u8 = 0x09;

pub const VK_RETURN: u8 = 0x0D;

pub const VK_ESCAPE: u8 = 0x1B;

pub const VK_SPACE: u8 = 0x20;

pub const VK_PRIOR: u8 = 0x21;

pub const VK_NEXT: u8 = 0x22;

pub const VK_END: u8 = 0x23;

pub const VK_HOME: u8 = 0x24;

pub const VK_LEFT: u8 = 0x25;

pub const VK_UP: u8 = 0x26;

pub const VK_RIGHT: u8 = 0x27;

pub const VK_DOWN: u8 = 0x28;

pub const VK_INSERT: u8 = 0x2D;

pub const VK_DELETE: u8 = 0x2E;

pub const VK_0: u8 = 0x30;

pub const VK_1: u8 = 0x31;

pub const VK_2: u8 = 0x32;

pub const VK_3: u8 = 0x33;

pub const VK_4: u8 = 0x34;

pub const VK_5: u8 = 0x35;

pub const VK_6: u8 = 0x36;

pub const VK_7: u8 = 0x37;

pub const VK_8: u8 = 0x38;

pub const VK_9: u8 = 0x39;

pub const VK_A: u8 = 0x41;

pub const VK_B: u8 = 0x42;

pub const VK_C: u8 = 0x43;

pub const VK_D: u8 = 0x44;

pub const VK_E: u8 = 0x45;

pub const VK_F: u8 = 0x46;

pub const VK_G: u8 = 0x47;

pub const VK_H: u8 = 0x48;

pub const VK_I: u8 = 0x49;

pub const VK_J: u8 = 0x4A;

pub const VK_K: u8 = 0x4B;

pub const VK_L: u8 = 0x4C;

pub const VK_M: u8 = 0x4D;

pub const VK_N: u8 = 0x4E;

pub const VK_O: u8 = 0x4F;

pub const VK_P: u8 = 0x50;

pub const VK_Q: u8 = 0x51;

pub const VK_R: u8 = 0x52;

pub const VK_S: u8 = 0x53;

pub const VK_T: u8 = 0x54;

pub const VK_U: u8 = 0x55;

pub const VK_V: u8 = 0x56;

pub const VK_W: u8 = 0x57;

pub const VK_X: u8 = 0x58;

pub const VK_Y: u8 = 0x59;

pub const VK_Z: u8 = 0x5A;

pub const VK_NUMPAD0: u8 = 0x60;

pub const VK_NUMPAD1: u8 = 0x61;

pub const VK_NUMPAD2: u8 = 0x62;

pub const VK_NUMPAD3: u8 = 0x63;

pub const VK_NUMPAD4: u8 = 0x64;

pub const VK_NUMPAD5: u8 = 0x65;

pub const VK_NUMPAD6: u8 = 0x66;

pub const VK_NUMPAD7: u8 = 0x67;

pub const VK_NUMPAD8: u8 = 0x68;

pub const VK_NUMPAD9: u8 = 0x69;

pub const VK_MULTIPLY: u8 = 0x6A;

pub const VK_ADD: u8 = 0x6B;

pub const VK_SUBTRACT: u8 = 0x6D;

pub const VK_DECIMAL: u8 = 0x6E;

pub const VK_DIVIDE: u8 = 0x6F;

pub const VK_F1: u8 = 0x70;

pub const VK_F2: u8 = 0x71;

pub const VK_F3: u8 = 0x72;

pub const VK_F4: u8 = 0x73;

pub const VK_F5: u8 = 0x74;

pub const VK_F6: u8 = 0x75;

pub const VK_F7: u8 = 0x76;

pub const VK_F8: u8 = 0x77;

pub const VK_F9: u8 = 0x78;

pub const VK_F10: u8 = 0x79;

pub const VK_F11: u8 = 0x7A;

pub const VK_F12: u8 = 0x7B;

pub const VK_EQUAL: u8 = 0xB0;

pub const VK_MINUS: u8 = 0xB1;

pub const VK_RBRACE: u8 = 0xB2;

pub const VK_LBRACE: u8 = 0xB3;

pub const VK_QUOTE: u8 = 0xB4;

pub const VK_SEMICOLON: u8 = 0xB5;

pub const VK_BACKSLASH: u8 = 0xB6;

pub const VK_COMMA: u8 = 0xB7;

pub const VK_SLASH: u8 = 0xB8;

pub const VK_PERIOD: u8 = 0xB9;

pub const VK_BACKQUOTE: u8 = 0xBA;

pub const VK_NUMPAD_ENT: u8 = 0xBC;

pub const VK_NUMPAD_EQ: u8 = 0xBD;

/// A named key in the UI library's vocabulary.
#[derive(Clone, Copy, Debug, PartialEq, Eq, Structural)]
pub enum KeyCode {
    Tab,
    LeftArrow,
    RightArrow,
    UpArrow,
    DownArrow,
    PageUp,
    PageDown,
    Home,
    End,
    Insert,
    Delete,
    Backspace,
    Space,
    Enter,
    Escape,
    Alpha0,
    Alpha1,
    Alpha2,
    Alpha3,
    Alpha4,
    Alpha5,
    Alpha6,
    Alpha7,
    Alpha8,
    Alpha9,
    A,
    B,
    C,
    D,
    E,
    F,
    G,
    H,
    I,
    J,
    K,
    L,
    M,
    N,
    O,
    P,
    Q,
    R,
    S,
    T,
    U,
    V,
    W,
    X,
    Y,
    Z,
    F1,
    F2,
    F3,
    F4,
    F5,
    F6,
    F7,
    F8,
    F9,
    F10,
    F11,
    F12,
    Apostrophe,
    Comma,
    Minus,
    Period,
    Slash,
    Semicolon,
    Equal,
    LeftBracket,
    Backslash,
    RightBracket,
    GraveAccent,
    Keypad0,
    Keypad1,
    Keypad2,
    Keypad3,
    Keypad4,
    Keypad5,
    Keypad6,
    Keypad7,
    Keypad8,
    Keypad9,
    KeypadDecimal,
    KeypadDivide,
    KeypadMultiply,
    KeypadSubtract,
    KeypadAdd,
    KeypadEnter,
    KeypadEqual,
}

/// The key, if any, that the virtual-key code `vk` names.
pub open spec fn spec_key_from_virtual(vk: u8) -> Option<KeyCode> {
    if vk == VK_TAB {
        Some(KeyCode::Tab)
    } else if vk == VK_LEFT {
        Some(KeyCode::LeftArrow)
    } else if vk == VK_RIGHT {
        Some(KeyCode::RightArrow)
    } else if vk == VK_UP {
        Some(KeyCode::UpArrow)
    } else if vk == VK_DOWN {
        Some(KeyCode::DownArrow)
    } else if vk == VK_PRIOR {
        Some(KeyCode::PageUp)
    } else if vk == VK_NEXT {
        Some(KeyCode::PageDown)
    } else if vk == VK_HOME {
        Some(KeyCode::Home)
    } else if vk == VK_END {
        Some(KeyCode::End)
    } else if vk == VK_INSERT {
        Some(KeyCode::Insert)
    } else if vk == VK_DELETE {
        Some(KeyCode::Delete)
    } else if vk == VK_BACK {
        Some(KeyCode::Backspace)
    } else if vk == VK_SPACE {
        Some(KeyCode::Space)
    } else if vk == VK_RETURN {
        Some(KeyCode::Enter)
    } else if vk == VK_ESCAPE {
        Some(KeyCode::Escape)
    } else if vk == VK_0 {
        Some(KeyCode::Alpha0)
    } else if vk == VK_1 {
        Some(KeyCode::Alpha1)
    } else if vk == VK_2 {
        Some(KeyCode::Alpha2)
    } else if vk == VK_3 {
        Some(KeyCode::Alpha3)
    } else if vk == VK_4 {
        Some(KeyCode::Alpha4)
    } else if vk == VK_5 {
        Some(KeyCode::Alpha5)
    } else if vk == VK_6 {
        Some(KeyCode::Alpha6)
    } else if vk == VK_7 {
        Some(KeyCode::Alpha7)
    } else if vk == VK_8 {
        Some(KeyCode::Alpha8)
    } else if vk == VK_9 {
        Some(KeyCode::Alpha9)
    } else if vk == VK_A {
        Some(KeyCode::A)
    } else if vk == VK_B {
        Some(KeyCode::B)
    } else if vk == VK_C {
        Some(KeyCode::C)
    } else if vk == VK_D {
        Some(KeyCode::D)
    } else if vk == VK_E {
        Some(KeyCode::E)
    } else if vk == VK_F {
        Some(KeyCode::F)
    } else if vk == VK_G {
        Some(KeyCode::G)
    } else if vk == VK_H {
        Some(KeyCode::H)
    } else if vk == VK_I {
        Some(KeyCode::I)
    } else if vk == VK_J {
        Some(KeyCode::J)
    } else if vk == VK_K {
        Some(KeyCode::K)
    } else if vk == VK_L {
        Some(KeyCode::L)
    } else if vk == VK_M {
        Some(KeyCode::M)
    } else if vk == VK_N {
        Some(KeyCode::N)
    } else if vk == VK_O {
        Some(KeyCode::O)
    } else if vk == VK_P {
        Some(KeyCode::P)
    } else if vk == VK_Q {
        Some(KeyCode::Q)
    } else if vk == VK_R {
        Some(KeyCode::R)
    } else if vk == VK_S {
        Some(KeyCode::S)
    } else if vk == VK_T {
        Some(KeyCode::T)
    } else if vk == VK_U {
        Some(KeyCode::U)
    } else if vk == VK_V {
        Some(KeyCode::V)
    } else if vk == VK_W {
        Some(KeyCode::W)
    } else if vk == VK_X {
        Some(KeyCode::X)
    } else if vk == VK_Y {
        Some(KeyCode::Y)
    } else if vk == VK_Z {
        Some(KeyCode::Z)
    } else if vk == VK_F1 {
        Some(KeyCode::F1)
    } else if vk == VK_F2 {
        Some(KeyCode::F2)
    } else if vk == VK_F3 {
        Some(KeyCode::F3)
    } else if vk == VK_F4 {
        Some(KeyCode::F4)
    } else if vk == VK_F5 {
        Some(KeyCode::F5)
    } else if vk == VK_F6 {
        Some(KeyCode::F6)
    } else if vk == VK_F7 {
        Some(KeyCode::F7)
    } else if vk == VK_F8 {
        Some(KeyCode::F8)
    } else if vk == VK_F9 {
        Some(KeyCode::F9)
    } else if vk == VK_F10 {
        Some(KeyCode::F10)
    } else if vk == VK_F11 {
        Some(KeyCode::F11)
    } else if vk == VK_F12 {
        Some(KeyCode::F12)
    } else if vk == VK_QUOTE {
        Some(KeyCode::Apostrophe)
    } else if vk == VK_COMMA {
        Some(KeyCode::Comma)
    } else if vk == VK_MINUS {
        Some(KeyCode::Minus)
    } else if vk == VK_PERIOD {
        Some(KeyCode::Period)
    } else if vk == VK_SLASH {
        Some(KeyCode::Slash)
    } else if vk == VK_SEMICOLON {
        Some(KeyCode::Semicolon)
    } else if vk == VK_EQUAL {
        Some(KeyCode::Equal)
    } else if vk == VK_LBRACE {
        Some(KeyCode::LeftBracket)
    } else if vk == VK_BACKSLASH {
        Some(KeyCode::Backslash)
    } else if vk == VK_RBRACE {
        Some(KeyCode::RightBracket)
    } else if vk == VK_BACKQUOTE {
        Some(KeyCode::GraveAccent)
    } else if vk == VK_NUMPAD0 {
        Some(KeyCode::Keypad0)
    } else if vk == VK_NUMPAD1 {
        Some(KeyCode::Keypad1)
    } else if vk == VK_NUMPAD2 {
        Some(KeyCode::Keypad2)
    } else if vk == VK_NUMPAD3 {
        Some(KeyCode::Keypad3)
    } else if vk == VK_NUMPAD4 {
        Some(KeyCode::Keypad4)
    } else if vk == VK_NUMPAD5 {
        Some(KeyCode::Keypad5)
    } else if vk == VK_NUMPAD6 {
        Some(KeyCode::Keypad6)
    } else if vk == VK_NUMPAD7 {
        Some(KeyCode::Keypad7)
    } else if vk == VK_NUMPAD8 {
        Some(KeyCode::Keypad8)
    } else if vk == VK_NUMPAD9 {
        Some(KeyCode::Keypad9)
    } else if vk == VK_DECIMAL {
        Some(KeyCode::KeypadDecimal)
    } else if vk == VK_DIVIDE {
        Some(KeyCode::KeypadDivide)
    } else if vk == VK_MULTIPLY {
        Some(KeyCode::KeypadMultiply)
    } else if vk == VK_SUBTRACT {
        Some(KeyCode::KeypadSubtract)
    } else if vk == VK_ADD {
        Some(KeyCode::KeypadAdd)
    } else if vk == VK_NUMPAD_ENT {
        Some(KeyCode::KeypadEnter)
    } else if vk == VK_NUMPAD_EQ {
        Some(KeyCode::KeypadEqual)
    } else {
        None
    }
}

/// Translate a host virtual-key code into the UI library's key, or
/// `None` for a code the UI library has no key for.
pub fn to_imgui_key(vk: u8) -> (k: Option<KeyCode>)
    ensures
        k == spec_key_from_virtual(vk),
{
    match vk {
        VK_TAB => Some(KeyCode::Tab),
        VK_LEFT => Some(KeyCode::LeftArrow),
        VK_RIGHT => Some(KeyCode::RightArrow),
        VK_UP => Some(KeyCode::UpArrow),
        VK_DOWN => Some(KeyCode::DownArrow),
        VK_PRIOR => Some(KeyCode::PageUp),
        VK_NEXT => Some(KeyCode::PageDown),
        VK_HOME => Some(KeyCode::Home),
        VK_END => Some(KeyCode::End),
        VK_INSERT => Some(KeyCode::Insert),
        VK_DELETE => Some(KeyCode::Delete),
        VK_BACK => Some(KeyCode::Backspace),
        VK_SPACE => Some(KeyCode::Space),
        VK_RETURN => Some(KeyCode::Enter),
        VK_ESCAPE => Some(KeyCode::Escape),
        VK_0 => Some(KeyCode::Alpha0),
        VK_1 => Some(KeyCode::Alpha1),
        VK_2 => Some(KeyCode::Alpha2),
        VK_3 => Some(KeyCode::Alpha3),
        VK_4 => Some(KeyCode::Alpha4),
        VK_5 => Some(KeyCode::Alpha5),
        VK_6 => Some(KeyCode::Alpha6),
        VK_7 => Some(KeyCode::Alpha7),
        VK_8 => Some(KeyCode::Alpha8),
        VK_9 => Some(KeyCode::Alpha9),
        VK_A => Some(KeyCode::A),
        VK_B => Some(KeyCode::B),
        VK_C => Some(KeyCode::C),
        VK_D => Some(KeyCode::D),
        VK_E => Some(KeyCode::E),
        VK_F => Some(KeyCode::F),
        VK_G => Some(KeyCode::G),
        VK_H => Some(KeyCode::H),
        VK_I => Some(KeyCode::I),
        VK_J => Some(KeyCode::J),
        VK_K => Some(KeyCode::K),
        VK_L => Some(KeyCode::L),
        VK_M => Some(KeyCode::M),
        VK_N => Some(KeyCode::N),
        VK_O => Some(KeyCode::O),
        VK_P => Some(KeyCode::P),
        VK_Q => Some(KeyCode::Q),
        VK_R => Some(KeyCode::R),
        VK_S => Some(KeyCode::S),
        VK_T => Some(KeyCode::T),
        VK_U => Some(KeyCode::U),
        VK_V => Some(KeyCode::V),
        VK_W => Some(KeyCode::W),
        VK_X => Some(KeyCode::X),
        VK_Y => Some(KeyCode::Y),
        VK_Z => Some(KeyCode::Z),
        VK_F1 => Some(KeyCode::F1),
        VK_F2 => Some(KeyCode::F2),
        VK_F3 => Some(KeyCode::F3),
        VK_F4 => Some(KeyCode::F4),
        VK_F5 => Some(KeyCode::F5),
        VK_F6 => Some(KeyCode::F6),
        VK_F7 => Some(KeyCode::F7),
        VK_F8 => Some(KeyCode::F8),
        VK_F9 => Some(KeyCode::F9),
        VK_F10 => Some(KeyCode::F10),
        VK_F11 => Some(KeyCode::F11),
        VK_F12 => Some(KeyCode::F12),
        VK_QUOTE => Some(KeyCode::Apostrophe),
        VK_COMMA => Some(KeyCode::Comma),
        VK_MINUS => Some(KeyCode::Minus),
        VK_PERIOD => Some(KeyCode::Period),
        VK_SLASH => Some(KeyCode::Slash),
        VK_SEMICOLON => Some(KeyCode::Semicolon),
        VK_EQUAL => Some(KeyCode::Equal),
        VK_LBRACE => Some(KeyCode::LeftBracket),
        VK_BACKSLASH => Some(KeyCode::Backslash),
        VK_RBRACE => Some(KeyCode::RightBracket),
        VK_BACKQUOTE => Some(KeyCode::GraveAccent),
        VK_NUMPAD0 => Some(KeyCode::Keypad0),
        VK_NUMPAD1 => Some(KeyCode::Keypad1),
        VK_NUMPAD2 => Some(KeyCode::Keypad2),
        VK_NUMPAD3 => Some(KeyCode::Keypad3),
        VK_NUMPAD4 => Some(KeyCode::Keypad4),
        VK_NUMPAD5 => Some(KeyCode::Keypad5),
        VK_NUMPAD6 => Some(KeyCode::Keypad6),
        VK_NUMPAD7 => Some(KeyCode::Keypad7),
        VK_NUMPAD8 => Some(KeyCode::Keypad8),
        VK_NUMPAD9 => Some(KeyCode::Keypad9),
        VK_DECIMAL => Some(KeyCode::KeypadDecimal),
        VK_DIVIDE => Some(KeyCode::KeypadDivide),
        VK_MULTIPLY => Some(KeyCode::KeypadMultiply),
        VK_SUBTRACT => Some(KeyCode::KeypadSubtract),
        VK_ADD => Some(KeyCode::KeypadAdd),
        VK_NUMPAD_ENT => Some(KeyCode::KeypadEnter),
        VK_NUMPAD_EQ => Some(KeyCode::KeypadEqual),
        _ => None,
    }
}

} // verus!
