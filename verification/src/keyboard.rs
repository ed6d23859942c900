//! The keyboard side of event translation: the scan-code table and the
//! modifier-flag diffing that turns aggregate flag snapshots into discrete
//! key presses and releases.

use vstd::prelude::*;
use crate::event::{ElementState, KeyboardInput, ModifiersState, VirtualKeyCode, WindowEvent};
use crate::native::NativeEvent;
use crate::DeviceId;

verus! {

/// The symbolic key each platform scan code stands for; `None` for codes
/// that have no symbolic counterpart.
#[verifier::opaque]
pub open spec fn key_code_mapping(code: u16) -> Option<VirtualKeyCode> {
    match code {
        0x00 => Some(VirtualKeyCode::A),
        0x01 => Some(VirtualKeyCode::S),
        0x02 => Some(VirtualKeyCode::D),
        0x03 => Some(VirtualKeyCode::F),
        0x04 => Some(VirtualKeyCode::H),
        0x05 => Some(VirtualKeyCode::G),
        0x06 => Some(VirtualKeyCode::Z),
        0x07 => Some(VirtualKeyCode::X),
        0x08 => Some(VirtualKeyCode::C),
        0x09 => Some(VirtualKeyCode::V),
        0x0b => Some(VirtualKeyCode::B),
        0x0c => Some(VirtualKeyCode::Q),
        0x0d => Some(VirtualKeyCode::W),
        0x0e => Some(VirtualKeyCode::E),
        0x0f => Some(VirtualKeyCode::R),
        0x10 => Some(VirtualKeyCode::Y),
        0x11 => Some(VirtualKeyCode::T),
        0x12 => Some(VirtualKeyCode::Key1),
        0x13 => Some(VirtualKeyCode::Key2),
        0x14 => Some(VirtualKeyCode::Key3),
        0x15 => Some(VirtualKeyCode::Key4),
        0x16 => Some(VirtualKeyCode::Key6),
        0x17 => Some(VirtualKeyCode::Key5),
        0x18 => Some(VirtualKeyCode::Equals),
        0x19 => Some(VirtualKeyCode::Key9),
        0x1a => Some(VirtualKeyCode::Key7),
        0x1b => Some(VirtualKeyCode::Minus),
        0x1c => Some(VirtualKeyCode::Key8),
        0x1d => Some(VirtualKeyCode::Key0),
        0x1e => Some(VirtualKeyCode::RBracket),
        0x1f => Some(VirtualKeyCode::O),
        0x20 => Some(VirtualKeyCode::U),
        0x21 => Some(VirtualKeyCode::LBracket),
        0x22 => Some(VirtualKeyCode::I),
        0x23 => Some(VirtualKeyCode::P),
        0x24 => Some(VirtualKeyCode::Return),
        0x25 => Some(VirtualKeyCode::L),
        0x26 => Some(VirtualKeyCode::J),
        0x27 => Some(VirtualKeyCode::Apostrophe),
        0x28 => Some(VirtualKeyCode::K),
        0x29 => Some(VirtualKeyCode::Semicolon),
        0x2a => Some(VirtualKeyCode::Backslash),
        0x2b => Some(VirtualKeyCode::Comma),
        0x2c => Some(VirtualKeyCode::Slash),
        0x2d => Some(VirtualKeyCode::N),
        0x2e => Some(VirtualKeyCode::M),
        0x2f => Some(VirtualKeyCode::Period),
        0x30 => Some(VirtualKeyCode::Tab),
        0x31 => Some(VirtualKeyCode::Space),
        0x32 => Some(VirtualKeyCode::Grave),
        0x33 => Some(VirtualKeyCode::Back),
        0x35 => Some(VirtualKeyCode::Escape),
        0x36 => Some(VirtualKeyCode::LWin),
        0x37 => Some(VirtualKeyCode::RWin),
        0x38 => Some(VirtualKeyCode::LShift),
        0x3a => Some(VirtualKeyCode::LAlt),
        0x3b => Some(VirtualKeyCode::LControl),
        0x3c => Some(VirtualKeyCode::RShift),
        0x3d => Some(VirtualKeyCode::RAlt),
        0x3e => Some(VirtualKeyCode::RControl),
        0x40 => Some(VirtualKeyCode::F17),
        0x41 => Some(VirtualKeyCode::Decimal),
        0x43 => Some(VirtualKeyCode::Multiply),
        0x45 => Some(VirtualKeyCode::Add),
        0x47 => Some(VirtualKeyCode::Numlock),
        0x49 => Some(VirtualKeyCode::VolumeUp),
        0x4a => Some(VirtualKeyCode::VolumeDown),
        0x4b => Some(VirtualKeyCode::Divide),
        0x4c => Some(VirtualKeyCode::NumpadEnter),
        0x4e => Some(VirtualKeyCode::Subtract),
        0x4f => Some(VirtualKeyCode::F18),
        0x50 => Some(VirtualKeyCode::F19),
        0x51 => Some(VirtualKeyCode::NumpadEquals),
        0x52 => Some(VirtualKeyCode::Numpad0),
        0x53 => Some(VirtualKeyCode::Numpad1),
        0x54 => Some(VirtualKeyCode::Numpad2),
        0x55 => Some(VirtualKeyCode::Numpad3),
        0x56 => Some(VirtualKeyCode::Numpad4),
        0x57 => Some(VirtualKeyCode::Numpad5),
        0x58 => Some(VirtualKeyCode::Numpad6),
        0x59 => Some(VirtualKeyCode::Numpad7),
        0x5a => Some(VirtualKeyCode::F20),
        0x5b => Some(VirtualKeyCode::Numpad8),
        0x5c => Some(VirtualKeyCode::Numpad9),
        0x5d => Some(VirtualKeyCode::Yen),
        0x60 => Some(VirtualKeyCode::F5),
        0x61 => Some(VirtualKeyCode::F6),
        0x62 => Some(VirtualKeyCode::F7),
        0x63 => Some(VirtualKeyCode::F3),
        0x64 => Some(VirtualKeyCode::F8),
        0x65 => Some(VirtualKeyCode::F9),
        0x67 => Some(VirtualKeyCode::F11),
        0x69 => Some(VirtualKeyCode::F13),
        0x6a => Some(VirtualKeyCode::F16),
        0x6b => Some(VirtualKeyCode::F14),
        0x6d => Some(VirtualKeyCode::F10),
        0x6f => Some(VirtualKeyCode::F12),
        0x71 => Some(VirtualKeyCode::F15),
        0x72 => Some(VirtualKeyCode::Insert),
        0x73 => Some(VirtualKeyCode::Home),
        0x74 => Some(VirtualKeyCode::PageUp),
        0x75 => Some(VirtualKeyCode::Delete),
        0x76 => Some(VirtualKeyCode::F4),
        0x77 => Some(VirtualKeyCode::End),
        0x78 => Some(VirtualKeyCode::F2),
        0x79 => Some(VirtualKeyCode::PageDown),
        0x7a => Some(VirtualKeyCode::F1),
        0x7b => Some(VirtualKeyCode::Left),
        0x7c => Some(VirtualKeyCode::Right),
        0x7d => Some(VirtualKeyCode::Down),
        0x7e => Some(VirtualKeyCode::Up),
        0x0a => Some(VirtualKeyCode::Caret),
        _ => None,
    }
}

/// Looks up the symbolic key for a platform scan code.
#[verifier::when_used_as_spec(key_code_mapping)]
pub fn to_virtual_key_code(code: u16) -> (r: Option<VirtualKeyCode>)
    ensures
        r == key_code_mapping(code),
{
    proof {
        reveal(key_code_mapping);
    }
    match code {
        0x00 => Some(VirtualKeyCode::A),
        0x01 => Some(VirtualKeyCode::S),
        0x02 => Some(VirtualKeyCode::D),
        0x03 => Some(VirtualKeyCode::F),
        0x04 => Some(VirtualKeyCode::H),
        0x05 => Some(VirtualKeyCode::G),
        0x06 => Some(VirtualKeyCode::Z),
        0x07 => Some(VirtualKeyCode::X),
        0x08 => Some(VirtualKeyCode::C),
        0x09 => Some(VirtualKeyCode::V),
        0x0b => Some(VirtualKeyCode::B),
        0x0c => Some(VirtualKeyCode::Q),
        0x0d => Some(VirtualKeyCode::W),
        0x0e => Some(VirtualKeyCode::E),
        0x0f => Some(VirtualKeyCode::R),
        0x10 => Some(VirtualKeyCode::Y),
        0x11 => Some(VirtualKeyCode::T),
        0x12 => Some(VirtualKeyCode::Key1),
        0x13 => Some(VirtualKeyCode::Key2),
        0x14 => Some(VirtualKeyCode::Key3),
        0x15 => Some(VirtualKeyCode::Key4),
        0x16 => Some(VirtualKeyCode::Key6),
        0x17 => Some(VirtualKeyCode::Key5),
        0x18 => Some(VirtualKeyCode::Equals),
        0x19 => Some(VirtualKeyCode::Key9),
        0x1a => Some(VirtualKeyCode::Key7),
        0x1b => Some(VirtualKeyCode::Minus),
        0x1c => Some(VirtualKeyCode::Key8),
        0x1d => Some(VirtualKeyCode::Key0),
        0x1e => Some(VirtualKeyCode::RBracket),
        0x1f => Some(VirtualKeyCode::O),
        0x20 => Some(VirtualKeyCode::U),
        0x21 => Some(VirtualKeyCode::LBracket),
        0x22 => Some(VirtualKeyCode::I),
        0x23 => Some(VirtualKeyCode::P),
        0x24 => Some(VirtualKeyCode::Return),
        0x25 => Some(VirtualKeyCode::L),
        0x26 => Some(VirtualKeyCode::J),
        0x27 => Some(VirtualKeyCode::Apostrophe),
        0x28 => Some(VirtualKeyCode::K),
        0x29 => Some(VirtualKeyCode::Semicolon),
        0x2a => Some(VirtualKeyCode::Backslash),
        0x2b => Some(VirtualKeyCode::Comma),
        0x2c => Some(VirtualKeyCode::Slash),
        0x2d => Some(VirtualKeyCode::N),
        0x2e => Some(VirtualKeyCode::M),
        0x2f => Some(VirtualKeyCode::Period),
        0x30 => Some(VirtualKeyCode::Tab),
        0x31 => Some(VirtualKeyCode::Space),
        0x32 => Some(VirtualKeyCode::Grave),
        0x33 => Some(VirtualKeyCode::Back),
        0x35 => Some(VirtualKeyCode::Escape),
        0x36 => Some(VirtualKeyCode::LWin),
        0x37 => Some(VirtualKeyCode::RWin),
        0x38 => Some(VirtualKeyCode::LShift),
        0x3a => Some(VirtualKeyCode::LAlt),
        0x3b => Some(VirtualKeyCode::LControl),
        0x3c => Some(VirtualKeyCode::RShift),
        0x3d => Some(VirtualKeyCode::RAlt),
        0x3e => Some(VirtualKeyCode::RControl),
        0x40 => Some(VirtualKeyCode::F17),
        0x41 => Some(VirtualKeyCode::Decimal),
        0x43 => Some(VirtualKeyCode::Multiply),
        0x45 => Some(VirtualKeyCode::Add),
        0x47 => Some(VirtualKeyCode::Numlock),
        0x49 => Some(VirtualKeyCode::VolumeUp),
        0x4a => Some(VirtualKeyCode::VolumeDown),
        0x4b => Some(VirtualKeyCode::Divide),
        0x4c => Some(VirtualKeyCode::NumpadEnter),
        0x4e => Some(VirtualKeyCode::Subtract),
        0x4f => Some(VirtualKeyCode::F18),
        0x50 => Some(VirtualKeyCode::F19),
        0x51 => Some(VirtualKeyCode::NumpadEquals),
        0x52 => Some(VirtualKeyCode::Numpad0),
        0x53 => Some(VirtualKeyCode::Numpad1),
        0x54 => Some(VirtualKeyCode::Numpad2),
        0x55 => Some(VirtualKeyCode::Numpad3),
        0x56 => Some(VirtualKeyCode::Numpad4),
        0x57 => Some(VirtualKeyCode::Numpad5),
        0x58 => Some(VirtualKeyCode::Numpad6),
        0x59 => Some(VirtualKeyCode::Numpad7),
        0x5a => Some(VirtualKeyCode::F20),
        0x5b => Some(VirtualKeyCode::Numpad8),
        0x5c => Some(VirtualKeyCode::Numpad9),
        0x5d => Some(VirtualKeyCode::Yen),
        0x60 => Some(VirtualKeyCode::F5),
        0x61 => Some(VirtualKeyCode::F6),
        0x62 => Some(VirtualKeyCode::F7),
        0x63 => Some(VirtualKeyCode::F3),
        0x64 => Some(VirtualKeyCode::F8),
        0x65 => Some(VirtualKeyCode::F9),
        0x67 => Some(VirtualKeyCode::F11),
        0x69 => Some(VirtualKeyCode::F13),
        0x6a => Some(VirtualKeyCode::F16),
        0x6b => Some(VirtualKeyCode::F14),
        0x6d => Some(VirtualKeyCode::F10),
        0x6f => Some(VirtualKeyCode::F12),
        0x71 => Some(VirtualKeyCode::F15),
        0x72 => Some(VirtualKeyCode::Insert),
        0x73 => Some(VirtualKeyCode::Home),
        0x74 => Some(VirtualKeyCode::PageUp),
        0x75 => Some(VirtualKeyCode::Delete),
        0x76 => Some(VirtualKeyCode::F4),
        0x77 => Some(VirtualKeyCode::End),
        0x78 => Some(VirtualKeyCode::F2),
        0x79 => Some(VirtualKeyCode::PageDown),
        0x7a => Some(VirtualKeyCode::F1),
        0x7b => Some(VirtualKeyCode::Left),
        0x7c => Some(VirtualKeyCode::Right),
        0x7d => Some(VirtualKeyCode::Down),
        0x7e => Some(VirtualKeyCode::Up),
        0x0a => Some(VirtualKeyCode::Caret),
        _ => None,
    }
}

/// The symbolic key for the first character of the typed text, for function
/// keys the scan-code table cannot see.
pub open spec fn spec_check_additional_virtual_key_codes(
    s: Option<String>,
) -> Option<VirtualKeyCode> {
    match s {
        Some(t) => if t@.len() > 0 {
            if t@[0] == '\u{f718}' {
                Some(VirtualKeyCode::F21)
            } else if t@[0] == '\u{f719}' {
                Some(VirtualKeyCode::F22)
            } else if t@[0] == '\u{f71a}' {
                Some(VirtualKeyCode::F23)
            } else if t@[0] == '\u{f71b}' {
                Some(VirtualKeyCode::F24)
            } else {
                None
            }
        } else {
            None
        },
        None => None,
    }
}

/// Recognizes the extra function keys that arrive only as typed text.
pub fn check_additional_virtual_key_codes(s: &Option<String>) -> (r: Option<VirtualKeyCode>)
    ensures
        r == spec_check_additional_virtual_key_codes(*s),
{
    match s {
        Some(t) => {
            if t.as_str().unicode_len() > 0 {
                let c = t.as_str().get_char(0);
                if c == '\u{f718}' {
                    Some(VirtualKeyCode::F21)
                } else if c == '\u{f719}' {
                    Some(VirtualKeyCode::F22)
                } else if c == '\u{f71a}' {
                    Some(VirtualKeyCode::F23)
                } else if c == '\u{f71b}' {
                    Some(VirtualKeyCode::F24)
                } else {
                    None
                }
            } else {
                None
            }
        },
        None => None,
    }
}

/// One of the four modifier keys whose held state the translator tracks.
#[derive(Debug, Copy, Clone, PartialEq, Eq, Structural)]
pub enum ModifierKey {
    Shift,
    Ctrl,
    Logo,
    Alt,
}

/// The modifier keys the translator believes are currently held.
///
/// Some platforms report only the aggregate set of held modifiers on each
/// keyboard-adjacent event; this state is diffed against each report to
/// recover the individual presses and releases.
#[derive(Debug, Copy, Clone, PartialEq, Eq, Structural)]
pub struct Modifiers {
    pub shift_pressed: bool,
    pub ctrl_pressed: bool,
    pub win_pressed: bool,
    pub alt_pressed: bool,
}

impl Modifiers {
    /// The initial state: nothing held.
    pub fn new() -> (r: Self)
        ensures
            r == (Modifiers {
                shift_pressed: false,
                ctrl_pressed: false,
                win_pressed: false,
                alt_pressed: false,
            }),
    {
        Modifiers {
            shift_pressed: false,
            ctrl_pressed: false,
            win_pressed: false,
            alt_pressed: false,
        }
    }
}

/// Whether `key` is a member of the aggregate flag snapshot `flags`.
pub open spec fn spec_flag_of(flags: ModifiersState, key: ModifierKey) -> bool {
    match key {
        ModifierKey::Shift => flags.shift,
        ModifierKey::Ctrl => flags.ctrl,
        ModifierKey::Logo => flags.logo,
        ModifierKey::Alt => flags.alt,
    }
}

/// Whether the translator believes `key` is held in state `m`.
pub open spec fn spec_held(m: Modifiers, key: ModifierKey) -> bool {
    match key {
        ModifierKey::Shift => m.shift_pressed,
        ModifierKey::Ctrl => m.ctrl_pressed,
        ModifierKey::Logo => m.win_pressed,
        ModifierKey::Alt => m.alt_pressed,
    }
}

/// The keyboard event synthesized for `key` when a native event carrying
/// flag snapshot `ev.modifiers` arrives while the tracked held state is
/// `was_key_pressed`: a press when the key joined the set, a release when it
/// left, nothing when its membership did not change.
pub open spec fn spec_modifier_event(
    ev: NativeEvent,
    key: ModifierKey,
    was_key_pressed: bool,
) -> Option<WindowEvent> {
    if spec_flag_of(ev.modifiers, key) != was_key_pressed {
        Some(WindowEvent::KeyboardInput {
            device_id: DeviceId(0),
            input: KeyboardInput {
                state: if was_key_pressed {
                    ElementState::Released
                } else {
                    ElementState::Pressed
                },
                scancode: ev.key_code as u32,
                virtual_keycode: key_code_mapping(ev.key_code),
                modifiers: ev.modifiers,
            },
        })
    } else {
        None
    }
}

/// Synthesizes the press or release of `key` implied by the flag snapshot
/// carried on `ns_event`, given the held state tracked so far.
pub fn modifier_event(
    ns_event: &NativeEvent,
    key: ModifierKey,
    was_key_pressed: bool,
) -> (r: Option<WindowEvent>)
    ensures
        r == spec_modifier_event(*ns_event, key, was_key_pressed),
{
    let flag = match key {
        ModifierKey::Shift => ns_event.modifiers.shift,
        ModifierKey::Ctrl => ns_event.modifiers.ctrl,
        ModifierKey::Logo => ns_event.modifiers.logo,
        ModifierKey::Alt => ns_event.modifiers.alt,
    };
    if flag != was_key_pressed {
        let state = if was_key_pressed {
            ElementState::Released
        } else {
            ElementState::Pressed
        };
        Some(WindowEvent::KeyboardInput {
            device_id: DeviceId(0),
            input: KeyboardInput {
                state,
                scancode: ns_event.key_code as u32,
                virtual_keycode: to_virtual_key_code(ns_event.key_code),
                modifiers: ns_event.modifiers,
            },
        })
    } else {
        None
    }
}

} // verus!
