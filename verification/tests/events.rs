use winit::dpi::LogicalPosition;
use winit::event::{
    DeviceEvent, ElementState, Event, ModifiersState, MouseScrollDelta, TouchPhase, VirtualKeyCode,
    WindowEvent,
};
use winit::events_loop::{ControlFlow, EventsLoop};
use winit::keyboard::{check_additional_virtual_key_codes, to_virtual_key_code, Modifiers};
use winit::native::{wakeup_event, NativeEvent, NativeEventKind};
use winit::window::Id;
use winit::{DeviceId, Window, WindowId};

fn plain(kind: NativeEventKind, window: Option<Id>) -> NativeEvent {
    NativeEvent { kind, window, modifiers: ModifiersState::empty(), key_code: 0 }
}

#[test]
fn key_code_table() {
    assert_eq!(to_virtual_key_code(0x00), Some(VirtualKeyCode::A));
    assert_eq!(to_virtual_key_code(0x0a), Some(VirtualKeyCode::Caret));
    assert_eq!(to_virtual_key_code(0x24), Some(VirtualKeyCode::Return));
    assert_eq!(to_virtual_key_code(0x2f), Some(VirtualKeyCode::Period));
    assert_eq!(to_virtual_key_code(0x7e), Some(VirtualKeyCode::Up));
    assert_eq!(to_virtual_key_code(0x34), None);
    assert_eq!(to_virtual_key_code(0x7f), None);
    assert_eq!(to_virtual_key_code(0x200), None);
}

#[test]
fn additional_key_codes() {
    assert_eq!(
        check_additional_virtual_key_codes(&Some("\u{f718}".to_string())),
        Some(VirtualKeyCode::F21)
    );
    assert_eq!(
        check_additional_virtual_key_codes(&Some("\u{f71b}".to_string())),
        Some(VirtualKeyCode::F24)
    );
    assert_eq!(check_additional_virtual_key_codes(&Some("a".to_string())), None);
    assert_eq!(check_additional_virtual_key_codes(&Some(String::new())), None);
    assert_eq!(check_additional_virtual_key_codes(&None), None);
}

#[test]
fn unknown_window_yields_nothing() {
    // an event referencing a window identifier not present in the registry
    // yields no canonical event
    let mut el = EventsLoop::new();
    Window::new(&mut el, Id(1));
    let ev = plain(
        NativeEventKind::ScrollWheel { delta_x: 1, delta_y: 2, precise: true, phase: TouchPhase::Moved },
        Some(Id(99)),
    );
    assert_eq!(el.ns_event_to_event(&ev), None);
    assert_eq!(el.pending_events.len(), 0);

    // a mouse move with neither a live window nor a key window is dropped too
    let mv = plain(
        NativeEventKind::MouseMoved { x: 1, y: 1, delta_x: 1, delta_y: 1 },
        None,
    );
    assert_eq!(el.ns_event_to_event(&mv), None);
    assert_eq!(el.pending_events.len(), 0);
}

#[test]
fn mouse_move_fan_out() {
    // a mouse move with non-zero delta on both axes, with one registered
    // key window, produces CursorMoved, axis-0 Motion, axis-1 Motion and
    // the aggregate MouseMotion: the first returned directly, the other
    // three drained from the pending queue on the next dispatch turns
    let mut el = EventsLoop::new();
    Window::new(&mut el, Id(7));
    el.set_key_window(Id(7));
    let ev = plain(
        NativeEventKind::MouseMoved { x: 10, y: 20, delta_x: 3, delta_y: -2 },
        None,
    );
    let first = el.ns_event_to_event(&ev);
    assert_eq!(
        first,
        Some(Event::WindowEvent {
            window_id: WindowId(Id(7)),
            event: WindowEvent::CursorMoved {
                device_id: DeviceId(0),
                position: LogicalPosition { x: 10, y: 20 },
                modifiers: ModifiersState::empty(),
            },
        })
    );
    assert_eq!(el.pending_events.len(), 3);
    assert_eq!(
        el.pending_events[0],
        Event::DeviceEvent { device_id: DeviceId(0), event: DeviceEvent::Motion { axis: 0, value: 3 } }
    );
    assert_eq!(
        el.pending_events[1],
        Event::DeviceEvent { device_id: DeviceId(0), event: DeviceEvent::Motion { axis: 1, value: -2 } }
    );
    assert_eq!(
        el.pending_events[2],
        Event::DeviceEvent { device_id: DeviceId(0), event: DeviceEvent::MouseMotion { delta: (3, -2) } }
    );
    let drained = el.poll_events(&vec![]);
    assert_eq!(drained.len(), 3);
    assert_eq!(el.pending_events.len(), 0);
}

#[test]
fn mouse_move_single_axis() {
    let mut el = EventsLoop::new();
    Window::new(&mut el, Id(7));
    el.set_key_window(Id(7));
    let ev = plain(
        NativeEventKind::MouseMoved { x: 0, y: 0, delta_x: 5, delta_y: 0 },
        Some(Id(7)),
    );
    let delivered = el.poll_events(&vec![ev]);
    // CursorMoved, axis-0 Motion, aggregate MouseMotion; no axis-1 Motion
    assert_eq!(delivered.len(), 3);
    assert_eq!(
        delivered[1],
        Event::DeviceEvent { device_id: DeviceId(0), event: DeviceEvent::Motion { axis: 0, value: 5 } }
    );
    assert_eq!(
        delivered[2],
        Event::DeviceEvent { device_id: DeviceId(0), event: DeviceEvent::MouseMotion { delta: (5, 0) } }
    );
}

#[test]
fn modifier_diffing() {
    // flag snapshots synthesize one keyboard event per changed modifier,
    // in the fixed order shift, ctrl, logo, alt
    let mut el = EventsLoop::new();
    Window::new(&mut el, Id(3));
    let mut ev = plain(NativeEventKind::FlagsChanged, Some(Id(3)));
    ev.modifiers = ModifiersState { shift: true, ctrl: true, alt: false, logo: false };
    ev.key_code = 0x38;
    let first = el.ns_event_to_event(&ev);
    match first {
        Some(Event::WindowEvent { window_id, event: WindowEvent::KeyboardInput { input, .. } }) => {
            assert_eq!(window_id, WindowId(Id(3)));
            assert_eq!(input.state, ElementState::Pressed);
            assert_eq!(input.scancode, 0x38);
            assert_eq!(input.virtual_keycode, Some(VirtualKeyCode::LShift));
        },
        other => panic!("expected a shift press, got {:?}", other),
    }
    // the ctrl press was queued
    assert_eq!(el.pending_events.len(), 1);
    // the tracked set now matches the snapshot
    assert_eq!(
        el.modifiers,
        Modifiers { shift_pressed: true, ctrl_pressed: true, win_pressed: false, alt_pressed: false }
    );

    // releasing both synthesizes two released events
    el.pending_events.clear();
    let mut up = plain(NativeEventKind::FlagsChanged, Some(Id(3)));
    up.modifiers = ModifiersState::empty();
    let delivered = el.poll_events(&vec![up]);
    assert_eq!(delivered.len(), 2);
    for d in &delivered {
        match d {
            Event::WindowEvent { event: WindowEvent::KeyboardInput { input, .. }, .. } => {
                assert_eq!(input.state, ElementState::Released);
            },
            other => panic!("expected a release, got {:?}", other),
        }
    }
    assert_eq!(
        el.modifiers,
        Modifiers { shift_pressed: false, ctrl_pressed: false, win_pressed: false, alt_pressed: false }
    );
}

#[test]
fn modifier_tracking_without_window() {
    // a flag change referencing no known window emits nothing, but the
    // tracked set still follows the platform's snapshot
    let mut el = EventsLoop::new();
    let mut ev = plain(NativeEventKind::FlagsChanged, None);
    ev.modifiers = ModifiersState { shift: false, ctrl: false, alt: true, logo: true };
    assert_eq!(el.ns_event_to_event(&ev), None);
    assert_eq!(el.pending_events.len(), 0);
    assert_eq!(
        el.modifiers,
        Modifiers { shift_pressed: false, ctrl_pressed: false, win_pressed: true, alt_pressed: true }
    );
}

#[test]
fn key_down_logo_period() {
    // the one key-down the translator synthesizes for: logo held and the
    // period key, which the platform otherwise swallows
    let mut el = EventsLoop::new();
    Window::new(&mut el, Id(4));
    let mut ev = plain(NativeEventKind::KeyDown, Some(Id(4)));
    ev.modifiers = ModifiersState { shift: false, ctrl: false, alt: false, logo: true };
    ev.key_code = 47;
    let first = el.ns_event_to_event(&ev);
    match first {
        Some(Event::WindowEvent { event: WindowEvent::KeyboardInput { input, .. }, .. }) => {
            assert_eq!(input.state, ElementState::Pressed);
            assert_eq!(input.scancode, 47);
            assert_eq!(input.virtual_keycode, Some(VirtualKeyCode::Period));
        },
        other => panic!("expected a key press, got {:?}", other),
    }
    // an ordinary key down yields nothing
    let mut other = plain(NativeEventKind::KeyDown, Some(Id(4)));
    other.key_code = 0x00;
    assert_eq!(el.ns_event_to_event(&other), None);
    // a key up yields nothing
    assert_eq!(el.ns_event_to_event(&plain(NativeEventKind::KeyUp, Some(Id(4)))), None);
}

#[test]
fn scroll_wheel_fan_out() {
    let mut el = EventsLoop::new();
    Window::new(&mut el, Id(5));
    let ev = plain(
        NativeEventKind::ScrollWheel { delta_x: 4, delta_y: -6, precise: true, phase: TouchPhase::Started },
        Some(Id(5)),
    );
    let delivered = el.poll_events(&vec![ev]);
    assert_eq!(delivered.len(), 2);
    assert_eq!(
        delivered[0],
        Event::WindowEvent {
            window_id: WindowId(Id(5)),
            event: WindowEvent::MouseWheel {
                device_id: DeviceId(0),
                delta: MouseScrollDelta::PixelDelta(4, -6),
                phase: TouchPhase::Started,
                modifiers: ModifiersState::empty(),
            },
        }
    );
    assert_eq!(
        delivered[1],
        Event::DeviceEvent {
            device_id: DeviceId(0),
            event: DeviceEvent::MouseWheel { delta: MouseScrollDelta::PixelDelta(4, -6) },
        }
    );

    // a line-based device reports line deltas
    let ev = plain(
        NativeEventKind::ScrollWheel { delta_x: 1, delta_y: 2, precise: false, phase: TouchPhase::Moved },
        Some(Id(5)),
    );
    let delivered = el.poll_events(&vec![ev]);
    match &delivered[0] {
        Event::WindowEvent { event: WindowEvent::MouseWheel { delta, .. }, .. } => {
            assert_eq!(*delta, MouseScrollDelta::LineDelta(1, 2));
        },
        other => panic!("expected a wheel event, got {:?}", other),
    }
}

#[test]
fn cursor_enter_and_leave() {
    let mut el = EventsLoop::new();
    Window::new(&mut el, Id(6));
    let entered = plain(NativeEventKind::MouseEntered { x: 2, y: 3 }, Some(Id(6)));
    let first = el.ns_event_to_event(&entered);
    assert_eq!(
        first,
        Some(Event::WindowEvent {
            window_id: WindowId(Id(6)),
            event: WindowEvent::CursorEntered { device_id: DeviceId(0) },
        })
    );
    assert_eq!(
        el.pending_events[0],
        Event::WindowEvent {
            window_id: WindowId(Id(6)),
            event: WindowEvent::CursorMoved {
                device_id: DeviceId(0),
                position: LogicalPosition { x: 2, y: 3 },
                modifiers: ModifiersState::empty(),
            },
        }
    );
    el.pending_events.clear();
    let left = el.ns_event_to_event(&plain(NativeEventKind::MouseExited, Some(Id(6))));
    assert_eq!(
        left,
        Some(Event::WindowEvent {
            window_id: WindowId(Id(6)),
            event: WindowEvent::CursorLeft { device_id: DeviceId(0) },
        })
    );
}

#[test]
fn touchpad_pressure() {
    let mut el = EventsLoop::new();
    Window::new(&mut el, Id(8));
    let ev = plain(NativeEventKind::Pressure { pressure: 55, stage: 1 }, Some(Id(8)));
    assert_eq!(
        el.ns_event_to_event(&ev),
        Some(Event::WindowEvent {
            window_id: WindowId(Id(8)),
            event: WindowEvent::TouchpadPressure { device_id: DeviceId(0), pressure: 55, stage: 1 },
        })
    );
}

#[test]
fn unknown_native_events_are_dropped() {
    let mut el = EventsLoop::new();
    Window::new(&mut el, Id(9));
    assert_eq!(el.ns_event_to_event(&plain(NativeEventKind::Other, Some(Id(9)))), None);
    assert_eq!(
        el.ns_event_to_event(&plain(NativeEventKind::AppDefined { activated: false }, None)),
        None
    );
    assert_eq!(el.pending_events.len(), 0);
}

#[test]
fn wakeup_translates_to_awakened() {
    // K wakeups posted while the loop is away produce exactly K Awakened
    // events: at least one, never more than were posted
    let mut el = EventsLoop::new();
    let natives = vec![wakeup_event(), wakeup_event(), wakeup_event()];
    let delivered = el.poll_events(&natives);
    assert_eq!(delivered, vec![Event::Awakened, Event::Awakened, Event::Awakened]);
}

#[test]
fn proxy_wakeup_errors_after_close() {
    let el = EventsLoop::new();
    let proxy = el.create_proxy();
    assert!(proxy.wakeup().is_ok());
    let dead = winit::events_loop::EventsLoopProxy {
        events_loop_proxy: winit::events_loop::Proxy { closed: true },
    };
    assert_eq!(dead.wakeup(), Err(winit::events_loop::EventsLoopClosed));
    assert_eq!(
        winit::events_loop::EventsLoopClosed.description(),
        "Tried to wake up a closed `EventsLoop`"
    );
    assert_eq!(
        winit::event_loop::EventLoopClosed.description(),
        "Tried to wake up a closed `EventLoop`"
    );
}

#[test]
fn poll_with_nothing_pending_returns_immediately() {
    // a poll with no pending native events invokes the callback zero times
    let mut el = EventsLoop::new();
    Window::new(&mut el, Id(1));
    let delivered = el.poll_events(&vec![]);
    assert_eq!(delivered.len(), 0);
}

#[test]
fn registry_removal() {
    // close notification for one of three windows leaves exactly the
    // other two, in order
    let mut el = EventsLoop::new();
    Window::new(&mut el, Id(1));
    Window::new(&mut el, Id(2));
    Window::new(&mut el, Id(3));
    el.find_and_remove_window(Id(2));
    assert_eq!(el.windows.len(), 2);
    assert_eq!(el.windows[0].id, Id(1));
    assert_eq!(el.windows[1].id, Id(3));
    // events for the removed window no longer resolve
    let ev = plain(NativeEventKind::MouseExited, Some(Id(2)));
    assert_eq!(el.ns_event_to_event(&ev), None);
}

#[test]
fn close_then_break_stops_blocking_loop() {
    // after the last window's close notification, the callback answers
    // the queued close request with Break and the blocking loop stops,
    // discarding everything not yet delivered
    let mut el = EventsLoop::new();
    Window::new(&mut el, Id(1));
    el.find_and_remove_window(Id(1));
    let stored = el.call_user_callback_with_event_or_store_in_pending(Event::WindowEvent {
        window_id: WindowId(Id(1)),
        event: WindowEvent::CloseRequested,
    });
    assert_eq!(stored, None);
    let natives = vec![wakeup_event(), wakeup_event()];
    let delivered = el.run_forever(&natives, &vec![ControlFlow::Break]);
    assert_eq!(
        delivered,
        vec![Event::WindowEvent { window_id: WindowId(Id(1)), event: WindowEvent::CloseRequested }]
    );
    assert_eq!(el.pending_events.len(), 0);
}

#[test]
fn break_mid_fan_out() {
    // Break observed inside a fan-out: the events after the break point
    // are never delivered, those before it are delivered exactly once
    let mut el = EventsLoop::new();
    Window::new(&mut el, Id(7));
    el.set_key_window(Id(7));
    let mv = plain(
        NativeEventKind::MouseMoved { x: 1, y: 1, delta_x: 2, delta_y: 3 },
        Some(Id(7)),
    );
    let decisions = vec![ControlFlow::Continue, ControlFlow::Break];
    let delivered = el.run_forever(&vec![mv, wakeup_event()], &decisions);
    assert_eq!(delivered.len(), 2);
    assert!(matches!(
        delivered[0],
        Event::WindowEvent { event: WindowEvent::CursorMoved { .. }, .. }
    ));
    assert!(matches!(
        delivered[1],
        Event::DeviceEvent { event: DeviceEvent::Motion { axis: 0, value: 2 }, .. }
    ));
    assert_eq!(el.pending_events.len(), 0);
}

#[test]
fn break_on_queued_event_consumes_no_native_events() {
    // a Break answered to a queued event stops the session before any
    // native event is looked at: the tracked modifiers stay as they were
    let mut el = EventsLoop::new();
    Window::new(&mut el, Id(1));
    let stored = el.call_user_callback_with_event_or_store_in_pending(Event::Awakened);
    assert_eq!(stored, None);
    let mut flags = plain(NativeEventKind::FlagsChanged, Some(Id(1)));
    flags.modifiers = ModifiersState { shift: true, ctrl: false, alt: false, logo: false };
    let delivered = el.run_forever(&vec![flags], &vec![ControlFlow::Break]);
    assert_eq!(delivered, vec![Event::Awakened]);
    assert_eq!(
        el.modifiers,
        Modifiers { shift_pressed: false, ctrl_pressed: false, win_pressed: false, alt_pressed: false }
    );
}

#[test]
fn sessions_carry_no_leftover_queue() {
    // every session ends with an empty queue, whether it broke or drained
    let mut el = EventsLoop::new();
    Window::new(&mut el, Id(7));
    el.set_key_window(Id(7));
    let mv = plain(NativeEventKind::MouseMoved { x: 0, y: 0, delta_x: 1, delta_y: 1 }, None);
    let delivered = el.run_forever(&vec![mv], &vec![ControlFlow::Break]);
    assert_eq!(delivered.len(), 1);
    assert_eq!(el.pending_events.len(), 0);
    // the next poll starts clean
    assert_eq!(el.poll_events(&vec![]).len(), 0);
}

#[test]
fn run_forever_without_break_drains_script() {
    let mut el = EventsLoop::new();
    let natives = vec![wakeup_event(), wakeup_event()];
    let delivered = el.run_forever(&natives, &vec![]);
    assert_eq!(delivered, vec![Event::Awakened, Event::Awakened]);
}

#[test]
fn reentrant_event_is_delivered_next_session() {
    // a native callback firing outside any dispatch session queues its
    // event; the next session delivers it first
    let mut el = EventsLoop::new();
    Window::new(&mut el, Id(2));
    let resize_like = Event::WindowEvent {
        window_id: WindowId(Id(2)),
        event: WindowEvent::CursorEntered { device_id: DeviceId(0) },
    };
    assert_eq!(el.call_user_callback_with_event_or_store_in_pending(resize_like), None);
    let delivered = el.poll_events(&vec![wakeup_event()]);
    assert_eq!(delivered, vec![resize_like, Event::Awakened]);

    // inside a session the event goes straight to the callback
    el.callback_installed = true;
    assert_eq!(
        el.call_user_callback_with_event_or_store_in_pending(resize_like),
        Some(resize_like)
    );
    assert_eq!(el.pending_events.len(), 0);
}

#[test]
fn event_loop_shell_matches_core() {
    let mut el = winit::event_loop::EventLoop::new();
    let proxy = el.create_proxy();
    assert!(proxy.wakeup().is_ok());
    let delivered = el.poll_events(&vec![wakeup_event()]);
    assert_eq!(delivered, vec![Event::Awakened]);
    let delivered = el.run_forever(
        &vec![wakeup_event(), wakeup_event()],
        &vec![winit::event_loop::ControlFlow::Break],
    );
    assert_eq!(delivered, vec![Event::Awakened]);
}
