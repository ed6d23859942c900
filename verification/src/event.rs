//! The canonical event vocabulary.
//!
//! Every native event, whatever platform produced it, is translated into zero
//! or more of these events before it reaches the caller.

use vstd::prelude::*;
use crate::dpi::LogicalPosition;
use crate::{DeviceId, WindowId};

verus! {

/// Whether a key or button went down or up.
#[derive(Debug, Clone, Copy, PartialEq, Eq, Structural)]
pub enum ElementState {
    Pressed,
    Released,
}

/// The set of modifier keys held at some instant.
#[derive(Debug, Clone, Copy, PartialEq, Eq, Structural)]
pub struct ModifiersState {
    pub shift: bool,
    pub ctrl: bool,
    pub alt: bool,
    pub logo: bool,
}

impl ModifiersState {
    /// The empty set: no modifier held.
    pub fn empty() -> (r: Self)
        ensures
            r == (ModifiersState { shift: false, ctrl: false, alt: false, logo: false }),
    {
        ModifiersState { shift: false, ctrl: false, alt: false, logo: false }
    }
}

/// The phase of a scroll or touch gesture.
#[derive(Debug, Clone, Copy, PartialEq, Eq, Structural)]
pub enum TouchPhase {
    Started,
    Moved,
    Ended,
    Cancelled,
}

/// The amount a mouse wheel scrolled, in lines or in pixels depending on
/// what the device reports.
#[derive(Debug, Clone, Copy, PartialEq, Eq, Structural)]
pub enum MouseScrollDelta {
    LineDelta(i32, i32),
    PixelDelta(i64, i64),
}

/// A symbolic name for a keyboard key.
#[derive(Debug, Clone, Copy, PartialEq, Eq, Structural)]
pub enum VirtualKeyCode {
    Key1,
    Key2,
    Key3,
    Key4,
    Key5,
    Key6,
    Key7,
    Key8,
    Key9,
    Key0,
    A,
    B,
    C,
    D,
    E,
    F,
    G,
    H,
    I,
    J,
    K,
    L,
    M,
    N,
    O,
    P,
    Q,
    R,
    S,
    T,
    U,
    V,
    W,
    X,
    Y,
    Z,
    Escape,
    F1,
    F2,
    F3,
    F4,
    F5,
    F6,
    F7,
    F8,
    F9,
    F10,
    F11,
    F12,
    F13,
    F14,
    F15,
    F16,
    F17,
    F18,
    F19,
    F20,
    F21,
    F22,
    F23,
    F24,
    Delete,
    End,
    Home,
    Insert,
    PageDown,
    PageUp,
    Left,
    Up,
    Right,
    Down,
    Back,
    Return,
    Space,
    Caret,
    Numlock,
    Numpad0,
    Numpad1,
    Numpad2,
    Numpad3,
    Numpad4,
    Numpad5,
    Numpad6,
    Numpad7,
    Numpad8,
    Numpad9,
    Add,
    Apostrophe,
    Backslash,
    Comma,
    Decimal,
    Divide,
    Equals,
    Grave,
    LAlt,
    LBracket,
    LControl,
    LShift,
    LWin,
    Minus,
    Multiply,
    NumpadEnter,
    NumpadEquals,
    Period,
    RAlt,
    RBracket,
    RControl,
    RShift,
    RWin,
    Semicolon,
    Slash,
    Subtract,
    Tab,
    VolumeDown,
    VolumeUp,
    Yen,
}

/// One keyboard state change: a key went down or up.
#[derive(Debug, Clone, Copy, PartialEq, Eq)]
pub struct KeyboardInput {
    /// The platform scan code of the key.
    pub scancode: u32,
    pub state: ElementState,
    /// The symbolic key, where the scan code has one.
    pub virtual_keycode: Option<VirtualKeyCode>,
    /// The modifiers held when the change happened.
    pub modifiers: ModifiersState,
}

/// An event that concerns one window.
#[derive(Debug, Clone, Copy, PartialEq, Eq)]
pub enum WindowEvent {
    /// The window's close button was pressed.
    CloseRequested,
    /// The cursor moved to a new position, in window-relative coordinates.
    CursorMoved { device_id: DeviceId, position: LogicalPosition, modifiers: ModifiersState },
    /// The cursor entered the window.
    CursorEntered { device_id: DeviceId },
    /// The cursor left the window.
    CursorLeft { device_id: DeviceId },
    /// The mouse wheel scrolled over the window.
    MouseWheel {
        device_id: DeviceId,
        delta: MouseScrollDelta,
        phase: TouchPhase,
        modifiers: ModifiersState,
    },
    /// A key went down or up while the window had focus.
    KeyboardInput { device_id: DeviceId, input: KeyboardInput },
    /// The pressure of a touchpad press changed.
    TouchpadPressure { device_id: DeviceId, pressure: i64, stage: i64 },
}

/// An event that concerns an input device rather than a window.
#[derive(Debug, Clone, Copy, PartialEq, Eq)]
pub enum DeviceEvent {
    /// Relative movement along one axis.
    Motion { axis: u32, value: i64 },
    /// Relative movement of the pointing device, both axes at once.
    MouseMotion { delta: (i64, i64) },
    /// The wheel scrolled, unattributed to any window.
    MouseWheel { delta: MouseScrollDelta },
}

/// A canonical event, as delivered to the caller's callback.
#[derive(Debug, Clone, Copy, PartialEq, Eq)]
pub enum Event {
    WindowEvent { window_id: WindowId, event: WindowEvent },
    DeviceEvent { device_id: DeviceId, event: DeviceEvent },
    /// The loop was woken by a wakeup proxy.
    Awakened,
}

} // verus!
