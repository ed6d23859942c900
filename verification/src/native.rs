//! The plain-value model of a raw native event.
//!
//! The platform layer reads what it needs out of each raw event object —
//! its type, the window it targets, the aggregate modifier flags, the key
//! code, the movement deltas — and hands the values in here. Everything the
//! translator decides, it decides from these values alone.

use vstd::prelude::*;
use crate::event::{ModifiersState, TouchPhase};
use crate::window::Id;

verus! {

/// What kind of raw event arrived, with the values specific to that kind.
#[derive(Debug, Copy, Clone, PartialEq, Eq)]
pub enum NativeEventKind {
    /// A key went up.
    KeyUp,
    /// A key went down.
    KeyDown,
    /// The set of held modifier keys changed; the new set is the event's
    /// aggregate flags.
    FlagsChanged,
    /// The cursor entered a window; `x`/`y` is its position in the window.
    MouseEntered { x: i64, y: i64 },
    /// The cursor left a window.
    MouseExited,
    /// The cursor moved: to `x`/`y` in the window, by `delta_x`/`delta_y`.
    MouseMoved { x: i64, y: i64, delta_x: i64, delta_y: i64 },
    /// The wheel scrolled; `precise` when the device reports pixel deltas.
    ScrollWheel { delta_x: i64, delta_y: i64, precise: bool, phase: TouchPhase },
    /// The pressure of a touchpad press changed.
    Pressure { pressure: i64, stage: i64 },
    /// An application-defined event; the wakeup proxy posts one with
    /// `activated` set.
    AppDefined { activated: bool },
    /// Any event type the translator does not know.
    Other,
}

/// One raw native event, reduced to the plain values the translator reads.
#[derive(Debug, Copy, Clone, PartialEq, Eq)]
pub struct NativeEvent {
    pub kind: NativeEventKind,
    /// The window the event targets, where the platform attached one.
    pub window: Option<Id>,
    /// The aggregate set of modifiers held when the event was generated.
    pub modifiers: ModifiersState,
    /// The platform key code, for keyboard-adjacent events.
    pub key_code: u16,
}

/// The synthetic event a wakeup proxy posts into the native queue: an
/// application-defined event marked `activated`, which the translator turns
/// into exactly one `Awakened`.
pub open spec fn spec_wakeup_event() -> NativeEvent {
    NativeEvent {
        kind: NativeEventKind::AppDefined { activated: true },
        window: None,
        modifiers: ModifiersState { shift: false, ctrl: false, alt: false, logo: false },
        key_code: 0,
    }
}

/// Builds the synthetic native event a wakeup posts.
pub fn wakeup_event() -> (r: NativeEvent)
    ensures
        r == spec_wakeup_event(),
{
    NativeEvent {
        kind: NativeEventKind::AppDefined { activated: true },
        window: None,
        modifiers: ModifiersState { shift: false, ctrl: false, alt: false, logo: false },
        key_code: 0,
    }
}

/// The aggregate modifier flags a native event carries.
pub fn event_mods(ns_event: &NativeEvent) -> (r: ModifiersState)
    ensures
        r == ns_event.modifiers,
{
    ns_event.modifiers
}

} // verus!
