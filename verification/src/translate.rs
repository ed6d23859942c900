//! What the translator produces, mathematically.
//!
//! One native event fans out to a fixed, ordered sequence of canonical
//! events; these functions define that sequence, the modifier-state update,
//! and the window-resolution rules the translator must follow.

use vstd::prelude::*;
use crate::event::{DeviceEvent, Event, ModifiersState, MouseScrollDelta, WindowEvent};
use crate::keyboard::{spec_flag_of, spec_held, spec_modifier_event, ModifierKey, Modifiers};
use crate::native::{NativeEvent, NativeEventKind};
use crate::window::Id;
use crate::{DeviceId, WindowId};

verus! {

/// One entry of the window registry: the window's identity, whether its
/// owner still holds it, and whether it is the key (focused) window.
#[derive(Debug, Copy, Clone, PartialEq, Eq, Structural)]
pub struct WindowEntry {
    pub id: Id,
    /// Whether the owning application still holds the window. The registry
    /// reference is non-owning: a window whose owner dropped it is dead
    /// even before the close notification removes its entry.
    pub alive: bool,
    /// Whether this is the key (focused) window.
    pub is_key: bool,
}

/// Whether `target` resolves to a live window in the registry.
pub open spec fn spec_window_known(windows: Seq<WindowEntry>, target: Id) -> bool {
    exists|i: int| 0 <= i < windows.len() && windows[i].alive && windows[i].id == target
}

/// Whether the native event's window reference resolves to a live window.
pub open spec fn spec_window_known_opt(windows: Seq<WindowEntry>, target: Option<Id>) -> bool {
    target is Some && spec_window_known(windows, target->0)
}

/// The first live key window in the registry, if any.
pub open spec fn spec_key_window(windows: Seq<WindowEntry>) -> Option<Id>
    decreases windows.len(),
{
    if windows.len() == 0 {
        None
    } else if windows[0].alive && windows[0].is_key {
        Some(windows[0].id)
    } else {
        spec_key_window(windows.drop_first())
    }
}

/// Resolves a native event's window reference for pointer events: the
/// referenced window when it is live, otherwise the key window.
pub open spec fn spec_resolve_window(
    windows: Seq<WindowEntry>,
    target: Option<Id>,
) -> Option<Id> {
    match target {
        Some(id) => if spec_window_known(windows, id) {
            Some(id)
        } else {
            spec_key_window(windows)
        },
        None => spec_key_window(windows),
    }
}

/// Wraps a synthesized window event, or nothing, as a sequence.
pub open spec fn spec_opt_window_event(wid: WindowId, o: Option<WindowEvent>) -> Seq<Event> {
    match o {
        Some(we) => seq![Event::WindowEvent { window_id: wid, event: we }],
        None => Seq::<Event>::empty(),
    }
}

/// The events synthesized for one aggregate modifier-flag snapshot: one
/// press or release for each modifier whose membership changed, in the
/// fixed order shift, ctrl, logo, alt.
pub open spec fn spec_flags_events(m: Modifiers, ev: NativeEvent, wid: WindowId) -> Seq<Event> {
    spec_opt_window_event(wid, spec_modifier_event(ev, ModifierKey::Shift, m.shift_pressed))
        + spec_opt_window_event(wid, spec_modifier_event(ev, ModifierKey::Ctrl, m.ctrl_pressed))
        + spec_opt_window_event(wid, spec_modifier_event(ev, ModifierKey::Logo, m.win_pressed))
        + spec_opt_window_event(wid, spec_modifier_event(ev, ModifierKey::Alt, m.alt_pressed))
}

/// The scroll delta a native wheel event carries: pixel deltas when the
/// device reports precise deltas, line deltas otherwise.
pub open spec fn spec_scroll_delta(
    delta_x: i64,
    delta_y: i64,
    precise: bool,
) -> MouseScrollDelta {
    if precise {
        MouseScrollDelta::PixelDelta(delta_x, delta_y)
    } else {
        MouseScrollDelta::LineDelta(delta_x as i32, delta_y as i32)
    }
}

/// The device-relative fan-out of a cursor movement: one `Motion` per axis
/// with a non-zero delta, then the aggregate `MouseMotion` when the cursor
/// moved at all.
pub open spec fn spec_motion_events(delta_x: i64, delta_y: i64) -> Seq<Event> {
    let x_part: Seq<Event> = if delta_x != 0 {
        seq![
            Event::DeviceEvent {
                device_id: DeviceId(0),
                event: DeviceEvent::Motion { axis: 0, value: delta_x },
            },
        ]
    } else {
        Seq::<Event>::empty()
    };
    let y_part: Seq<Event> = if delta_y != 0 {
        seq![
            Event::DeviceEvent {
                device_id: DeviceId(0),
                event: DeviceEvent::Motion { axis: 1, value: delta_y },
            },
        ]
    } else {
        Seq::<Event>::empty()
    };
    let both: Seq<Event> = if delta_x != 0 || delta_y != 0 {
        seq![
            Event::DeviceEvent {
                device_id: DeviceId(0),
                event: DeviceEvent::MouseMotion { delta: (delta_x, delta_y) },
            },
        ]
    } else {
        Seq::<Event>::empty()
    };
    x_part + y_part + both
}

/// The full, ordered fan-out of one native event: every canonical event it
/// produces, first the one returned directly, then those queued.
///
/// A native event that references a window not known to the registry
/// produces nothing; so does any event kind the translator does not know.
pub open spec fn spec_translate_events(
    m: Modifiers,
    windows: Seq<WindowEntry>,
    ev: NativeEvent,
) -> Seq<Event> {
    match ev.kind {
        NativeEventKind::KeyUp => Seq::<Event>::empty(),
        NativeEventKind::KeyDown => {
            if ev.modifiers.logo && ev.key_code == 47 && spec_window_known_opt(
                windows,
                ev.window,
            ) {
                spec_opt_window_event(
                    WindowId(ev.window->0),
                    spec_modifier_event(ev, ModifierKey::Logo, false),
                )
            } else {
                Seq::<Event>::empty()
            }
        },
        NativeEventKind::FlagsChanged => {
            if spec_window_known_opt(windows, ev.window) {
                spec_flags_events(m, ev, WindowId(ev.window->0))
            } else {
                Seq::<Event>::empty()
            }
        },
        NativeEventKind::MouseEntered { x, y } => {
            match spec_resolve_window(windows, ev.window) {
                Some(wid) => seq![
                    Event::WindowEvent {
                        window_id: WindowId(wid),
                        event: WindowEvent::CursorEntered { device_id: DeviceId(0) },
                    },
                    Event::WindowEvent {
                        window_id: WindowId(wid),
                        event: WindowEvent::CursorMoved {
                            device_id: DeviceId(0),
                            position: crate::dpi::LogicalPosition { x, y },
                            modifiers: ev.modifiers,
                        },
                    },
                ],
                None => Seq::<Event>::empty(),
            }
        },
        NativeEventKind::MouseExited => {
            if spec_window_known_opt(windows, ev.window) {
                seq![
                    Event::WindowEvent {
                        window_id: WindowId(ev.window->0),
                        event: WindowEvent::CursorLeft { device_id: DeviceId(0) },
                    },
                ]
            } else {
                Seq::<Event>::empty()
            }
        },
        NativeEventKind::MouseMoved { x, y, delta_x, delta_y } => {
            match spec_resolve_window(windows, ev.window) {
                Some(wid) => seq![
                    Event::WindowEvent {
                        window_id: WindowId(wid),
                        event: WindowEvent::CursorMoved {
                            device_id: DeviceId(0),
                            position: crate::dpi::LogicalPosition { x, y },
                            modifiers: ev.modifiers,
                        },
                    },
                ] + spec_motion_events(delta_x, delta_y),
                None => Seq::<Event>::empty(),
            }
        },
        NativeEventKind::ScrollWheel { delta_x, delta_y, precise, phase } => {
            if spec_window_known_opt(windows, ev.window) {
                seq![
                    Event::WindowEvent {
                        window_id: WindowId(ev.window->0),
                        event: WindowEvent::MouseWheel {
                            device_id: DeviceId(0),
                            delta: spec_scroll_delta(delta_x, delta_y, precise),
                            phase,
                            modifiers: ev.modifiers,
                        },
                    },
                    Event::DeviceEvent {
                        device_id: DeviceId(0),
                        event: DeviceEvent::MouseWheel {
                            delta: spec_scroll_delta(delta_x, delta_y, precise),
                        },
                    },
                ]
            } else {
                Seq::<Event>::empty()
            }
        },
        NativeEventKind::Pressure { pressure, stage } => {
            if spec_window_known_opt(windows, ev.window) {
                seq![
                    Event::WindowEvent {
                        window_id: WindowId(ev.window->0),
                        event: WindowEvent::TouchpadPressure {
                            device_id: DeviceId(0),
                            pressure,
                            stage,
                        },
                    },
                ]
            } else {
                Seq::<Event>::empty()
            }
        },
        NativeEventKind::AppDefined { activated } => {
            if activated {
                seq![Event::Awakened]
            } else {
                Seq::<Event>::empty()
            }
        },
        NativeEventKind::Other => Seq::<Event>::empty(),
    }
}

/// The translator's modifier state after one native event: a flag-change
/// snapshot replaces the tracked set wholesale (the diff against the old
/// set decides which events were synthesized); every other event leaves it
/// untouched.
pub open spec fn spec_step_modifiers(m: Modifiers, ev: NativeEvent) -> Modifiers {
    match ev.kind {
        NativeEventKind::FlagsChanged => Modifiers {
            shift_pressed: ev.modifiers.shift,
            ctrl_pressed: ev.modifiers.ctrl,
            win_pressed: ev.modifiers.logo,
            alt_pressed: ev.modifiers.alt,
        },
        _ => m,
    }
}


/// A flag-change native event carrying the snapshot `flags`.
pub open spec fn spec_flags_change(flags: ModifiersState) -> NativeEvent {
    NativeEvent {
        kind: NativeEventKind::FlagsChanged,
        window: None,
        modifiers: flags,
        key_code: 0,
    }
}

/// How many presses of `key` the translator synthesizes over a stream of
/// modifier-flag snapshots, starting from tracked state `m`.
pub open spec fn spec_pressed_count(
    m: Modifiers,
    snaps: Seq<ModifiersState>,
    key: ModifierKey,
) -> int
    decreases snaps.len(),
{
    if snaps.len() == 0 {
        0
    } else {
        let ev = spec_flags_change(snaps[0]);
        let synth = spec_modifier_event(ev, key, spec_held(m, key));
        let here: int = if synth matches Some(WindowEvent::KeyboardInput { device_id, input })
            && input.state is Pressed {
            1
        } else {
            0
        };
        here + spec_pressed_count(spec_step_modifiers(m, ev), snaps.drop_first(), key)
    }
}

/// How many releases of `key` the translator synthesizes over a stream of
/// modifier-flag snapshots, starting from tracked state `m`.
pub open spec fn spec_released_count(
    m: Modifiers,
    snaps: Seq<ModifiersState>,
    key: ModifierKey,
) -> int
    decreases snaps.len(),
{
    if snaps.len() == 0 {
        0
    } else {
        let ev = spec_flags_change(snaps[0]);
        let synth = spec_modifier_event(ev, key, spec_held(m, key));
        let here: int = if synth matches Some(WindowEvent::KeyboardInput { device_id, input })
            && input.state is Released {
            1
        } else {
            0
        };
        here + spec_released_count(spec_step_modifiers(m, ev), snaps.drop_first(), key)
    }
}

/// The tracked modifier state after a stream of flag snapshots.
pub open spec fn spec_after_snapshots(m: Modifiers, snaps: Seq<ModifiersState>) -> Modifiers
    decreases snaps.len(),
{
    if snaps.len() == 0 {
        m
    } else {
        spec_after_snapshots(
            spec_step_modifiers(m, spec_flags_change(snaps[0])),
            snaps.drop_first(),
        )
    }
}

/// Modifier-flag diffing neither misses nor double-counts transitions:
/// over any stream of flag snapshots, the number of presses the translator
/// synthesizes for a modifier, minus the number of releases, equals the
/// net change of that modifier's held state across the stream; and after
/// any non-empty stream the tracked state agrees with the last snapshot.
pub proof fn lemma_modifier_net_change(m: Modifiers, snaps: Seq<ModifiersState>, key: ModifierKey)
    ensures
        spec_pressed_count(m, snaps, key) - spec_released_count(m, snaps, key) == (if spec_held(
            spec_after_snapshots(m, snaps),
            key,
        ) {
            1int
        } else {
            0int
        }) - (if spec_held(m, key) {
            1int
        } else {
            0int
        }),
        snaps.len() > 0 ==> spec_held(spec_after_snapshots(m, snaps), key) == spec_flag_of(
            snaps.last(),
            key,
        ),
    decreases snaps.len(),
{
    if snaps.len() == 0 {
    } else {
        let ev = spec_flags_change(snaps[0]);
        let m1 = spec_step_modifiers(m, ev);
        assert(spec_held(m1, key) == spec_flag_of(snaps[0], key));
        lemma_modifier_net_change(m1, snaps.drop_first(), key);
        if snaps.len() > 1 {
            assert(snaps.drop_first().last() == snaps.last());
        }
    }
}

/// A native event that references no live window synthesizes nothing,
/// unless it is the wakeup event, which references no window at all.
pub proof fn lemma_unknown_window_suppressed(
    m: Modifiers,
    windows: Seq<WindowEntry>,
    ev: NativeEvent,
)
    requires
        !spec_window_known_opt(windows, ev.window),
        spec_key_window(windows) is None,
        !(ev.kind matches NativeEventKind::AppDefined { activated: true }),
    ensures
        spec_translate_events(m, windows, ev) == Seq::<Event>::empty(),
{
}

} // verus!
