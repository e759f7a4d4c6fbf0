//! The common input-event vocabulary, and the decisions the hosts'
//! callbacks make when they translate raw reports into it.
//!
//! The embedded host delivers raw callback data — a mouse status code,
//! wheel and click counts, a key byte with modifier flags.  What event
//! each report becomes is a pure decision, made here with an exact
//! contract; the host-facing layer only performs the calls around it.

use crate::geometry::Rect;
use crate::keymap::{spec_key_from_virtual, to_imgui_key, KeyCode};
use crate::transform::spec_device_to_logical;
use vstd::prelude::*;

verus! {

/// A mouse button the event vocabulary distinguishes.
#[derive(Clone, Copy, Debug, PartialEq, Eq, Structural)]
pub enum MouseButton {
    Left,
    Right,
}

/// Whether a button or key went down or up.
#[derive(Clone, Copy, Debug, PartialEq, Eq, Structural)]
pub enum Action {
    Press,
    Release,
}

/// The modifier keys held during a key event.
#[derive(Clone, Copy, Debug, PartialEq, Eq, Structural)]
pub struct Modifiers {
    pub control: bool,
    pub option: bool,
    pub shift: bool,
}

impl Default for Modifiers {
    /// No modifier held.
    fn default() -> (m: Self)
        ensures
            m == (Modifiers { control: false, option: false, shift: false }),
    {
        Modifiers { control: false, option: false, shift: false }
    }
}

/// A host input event in the common vocabulary: cursor positions are in
/// device pixels, keys carry the typed character and the held modifiers.
#[derive(Clone, Copy, Debug, PartialEq)]
pub enum Event {
    MouseButton(MouseButton, Action),
    CursorPos(i32, i32),
    Scroll(i32, i32),
    Key(Option<KeyCode>, char, Action, Modifiers),
}

/// The embedded host's mouse-status code for a released button; every
/// other status is a press or drag.
pub const MOUSE_STATUS_UP: i32 = 3;

/// The embedded host's key-flag bits.
pub const KEY_FLAG_SHIFT: u32 = 1;

pub const KEY_FLAG_OPTION_ALT: u32 = 2;

pub const KEY_FLAG_CONTROL: u32 = 4;

pub const KEY_FLAG_DOWN: u32 = 8;

pub const KEY_FLAG_UP: u32 = 16;

/// The flag bit is set.
pub open spec fn spec_flag_set(flags: u32, flag: u32) -> bool {
    flags & flag != 0
}

pub fn flag_set(flags: u32, flag: u32) -> (b: bool)
    ensures
        b == spec_flag_set(flags, flag),
{
    flags & flag != 0
}

/// The button event a mouse-click callback reports: a release exactly
/// for the host's mouse-up status, a press for every other status.
pub fn click_event(button: MouseButton, status: i32) -> (e: Event)
    ensures
        e == Event::MouseButton(
            button,
            if status == MOUSE_STATUS_UP {
                Action::Release
            } else {
                Action::Press
            },
        ),
{
    let action = if status == MOUSE_STATUS_UP {
        Action::Release
    } else {
        Action::Press
    };
    Event::MouseButton(button, action)
}

/// The scroll event a mouse-wheel callback reports: wheel zero is the
/// vertical wheel, anything else the horizontal one.
pub fn wheel_event(wheel: i32, clicks: i32) -> (e: Event)
    ensures
        e == (if wheel == 0 {
            Event::Scroll(0, clicks)
        } else {
            Event::Scroll(clicks, 0)
        }),
{
    if wheel == 0 {
        Event::Scroll(0, clicks)
    } else {
        Event::Scroll(clicks, 0)
    }
}

/// The key event a key callback reports: the virtual key translated to
/// the UI vocabulary, the key byte as the typed character, a release
/// exactly when the host's up-flag is set, and the modifiers read from
/// the flag bits.
pub fn key_event(key_byte: u8, flags: u32, virtual_key: u8) -> (e: Event)
    ensures
        e == Event::Key(
            spec_key_from_virtual(virtual_key),
            key_byte as char,
            if spec_flag_set(flags, KEY_FLAG_UP) {
                Action::Release
            } else {
                Action::Press
            },
            Modifiers {
                control: spec_flag_set(flags, KEY_FLAG_CONTROL),
                option: spec_flag_set(flags, KEY_FLAG_OPTION_ALT),
                shift: spec_flag_set(flags, KEY_FLAG_SHIFT),
            },
        ),
{
    let action = if flag_set(flags, KEY_FLAG_UP) {
        Action::Release
    } else {
        Action::Press
    };
    let modifiers = Modifiers {
        control: flag_set(flags, KEY_FLAG_CONTROL),
        option: flag_set(flags, KEY_FLAG_OPTION_ALT),
        shift: flag_set(flags, KEY_FLAG_SHIFT),
    };
    Event::Key(to_imgui_key(virtual_key), key_byte as char, action, modifiers)
}

/// One update to hand to the UI library's input state.
#[derive(Clone, Copy, Debug, PartialEq)]
pub enum IoCommand {
    /// Report a named key as down or up.
    KeyEvent(KeyCode, bool),
    /// Report the control modifier as down or up.
    ModCtrl(bool),
    /// Report the alt/option modifier as down or up.
    ModAlt(bool),
    /// Report the shift modifier as down or up.
    ModShift(bool),
    /// Feed a typed character.
    InputChar(char),
    /// Report the pointer at a logical position on the surface.
    PointerPos(i64, i64),
    /// Report that the pointer is outside the surface.
    PointerLeft,
    /// Feed a wheel delta.
    Wheel(i32, i32),
    /// Report a button as down or up.
    Button(MouseButton, bool),
}

/// The delete character, which is never fed as typed input.
pub open spec fn spec_delete_char() -> char {
    '\u{7f}'
}

/// The UI-state updates one event calls for, in order.
///
/// A key event reports the key (when the vocabulary names it), feeds
/// the character — only on a press without control or option held, and
/// never the delete character — and then reports all three modifiers.
/// A cursor event is translated into the panel's logical space, or
/// becomes a pointer-left report when it falls outside the surface.
pub open spec fn spec_io_commands(e: Event, panel: Rect) -> Seq<IoCommand> {
    match e {
        Event::Key(key, ch, action, m) => {
            let pressed = action == Action::Press;
            let key_part = match key {
                Some(k) => seq![IoCommand::KeyEvent(k, pressed)],
                None => Seq::<IoCommand>::empty(),
            };
            let char_part = if pressed && !m.control && !m.option && ch != spec_delete_char() {
                seq![IoCommand::InputChar(ch)]
            } else {
                Seq::<IoCommand>::empty()
            };
            key_part + char_part + seq![
                IoCommand::ModCtrl(m.control),
                IoCommand::ModAlt(m.option),
                IoCommand::ModShift(m.shift),
            ]
        },
        Event::CursorPos(x, y) => match spec_device_to_logical(panel, x, y) {
            Some(p) => seq![IoCommand::PointerPos(p.0, p.1)],
            None => seq![IoCommand::PointerLeft],
        },
        Event::Scroll(x, y) => seq![IoCommand::Wheel(x, y)],
        Event::MouseButton(b, a) => seq![IoCommand::Button(b, a != Action::Release)],
    }
}

/// Decide the UI-state updates for one event against the current panel
/// rectangle; the host-facing layer applies them in order.
pub fn io_commands(e: &Event, panel: &Rect) -> (cmds: Vec<IoCommand>)
    ensures
        cmds@ == spec_io_commands(*e, *panel),
{
    let mut cmds: Vec<IoCommand> = Vec::new();
    match e {
        Event::Key(key, ch, action, m) => {
            let pressed = matches!(*action, Action::Press);
            match key {
                Some(k) => {
                    cmds.push(IoCommand::KeyEvent(*k, pressed));
                },
                None => {},
            }
            if pressed && !m.control && !m.option && *ch != '\u{7f}' {
                cmds.push(IoCommand::InputChar(*ch));
            }
            cmds.push(IoCommand::ModCtrl(m.control));
            cmds.push(IoCommand::ModAlt(m.option));
            cmds.push(IoCommand::ModShift(m.shift));
            proof {
                assert(cmds@ =~= spec_io_commands(*e, *panel));
            }
        },
        Event::CursorPos(x, y) => {
            match crate::transform::device_to_logical(panel, *x, *y) {
                Some(p) => {
                    cmds.push(IoCommand::PointerPos(p.0, p.1));
                },
                None => {
                    cmds.push(IoCommand::PointerLeft);
                },
            }
            proof {
                assert(cmds@ =~= spec_io_commands(*e, *panel));
            }
        },
        Event::Scroll(x, y) => {
            cmds.push(IoCommand::Wheel(*x, *y));
            proof {
                assert(cmds@ =~= spec_io_commands(*e, *panel));
            }
        },
        Event::MouseButton(b, a) => {
            cmds.push(IoCommand::Button(*b, !matches!(*a, Action::Release)));
            proof {
                assert(cmds@ =~= spec_io_commands(*e, *panel));
            }
        },
    }
    cmds
}

} // verus!
