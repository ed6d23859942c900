//! The dispatch context: the window registry, the pending-event queue, the
//! modifier tracker, and the poll / run-until-break entry points.
//!
//! The platform layer owns the blocking primitive that yields raw native
//! events; it hands them in as plain values and performs the caller's
//! callback with each canonical event this context decides to deliver.

use vstd::prelude::*;
use crate::event::Event;
use crate::keyboard::{modifier_event, Modifiers, ModifierKey};
use crate::monitor::{
    clone_monitor_list, lemma_first_primary_char, spec_first_primary, spec_has_primary,
    AvailableMonitorsIter, MonitorHandle,
};
use crate::native::{NativeEvent, NativeEventKind};
use crate::dispatch::{
    lemma_first_break_char, lemma_natives_consumed_at, lemma_session_append,
    lemma_session_prefix_len, lemma_session_singleton, spec_delivered_events,
    spec_first_break_from, spec_is_break, spec_natives_consumed, spec_session_events,
    spec_session_modifiers,
};
use crate::translate::{
    spec_flags_events, spec_key_window, spec_motion_events, spec_resolve_window,
    spec_step_modifiers, spec_translate_events, spec_window_known, spec_window_known_opt,
    WindowEntry,
};
use crate::window::Id;
use crate::{DeviceId, WindowId};
use crate::event::{DeviceEvent, MouseScrollDelta, WindowEvent};
use crate::dpi::LogicalPosition;

verus! {

/// Returned by the caller's callback after each event in blocking mode:
/// whether the loop should keep running or stop.
#[derive(Debug, Copy, Clone, PartialEq, Eq, Hash, Structural)]
pub enum ControlFlow {
    /// Continue looping and waiting for events.
    Continue,
    /// Break from the event loop.
    Break,
}

/// The error returned when a wakeup proxy's dispatch context no longer
/// exists.
#[derive(Debug, Copy, Clone, PartialEq, Eq, Hash, Structural)]
pub struct EventsLoopClosed;

impl EventsLoopClosed {
    /// The text of this error.
    pub fn description(&self) -> (r: String)
        ensures
            r@ == "Tried to wake up a closed `EventsLoop`"@,
    {
        ("Tried to wake up a closed `EventsLoop`").to_owned()
    }
}

/// The platform half of a wakeup proxy: it decides whether the context is
/// still there; the caller then posts the synthetic wakeup event into the
/// native queue the loop blocks on.
#[derive(Debug, Copy, Clone, PartialEq, Eq, Structural)]
pub struct Proxy {
    /// Whether the dispatch context this proxy points at has been torn
    /// down.
    pub closed: bool,
}

impl Proxy {
    /// Decides a wakeup: succeeds exactly while the dispatch context still
    /// exists. On success the caller posts [`crate::native::wakeup_event`]
    /// into the native queue, which the translator turns into `Awakened`.
    pub fn wakeup(&self) -> (r: Result<(), EventsLoopClosed>)
        ensures
            r is Ok <==> !self.closed,
            r is Err ==> r->Err_0 == EventsLoopClosed,
    {
        if self.closed {
            Err(EventsLoopClosed)
        } else {
            Ok(())
        }
    }
}

/// Wakes an [`EventsLoop`] from another thread; cloneable and shareable.
#[derive(Debug, Copy, Clone, PartialEq, Eq, Structural)]
pub struct EventsLoopProxy {
    pub events_loop_proxy: Proxy,
}

impl EventsLoopProxy {
    /// Wakes up the `EventsLoop` this proxy was created from, making it
    /// emit an `Awakened` event; fails when that loop no longer exists.
    pub fn wakeup(&self) -> (r: Result<(), EventsLoopClosed>)
        ensures
            r is Ok <==> !self.events_loop_proxy.closed,
            r is Err ==> r->Err_0 == EventsLoopClosed,
    {
        self.events_loop_proxy.wakeup()
    }
}

/// A dispatch context: retrieves events from the system and from the
/// registered windows, and delivers them in canonical form.
pub struct EventsLoop {
    /// The registry of windows events can be routed to. Entries are
    /// non-owning; an entry is removed by the close notification, and a
    /// dead entry stops resolving before that.
    pub windows: Vec<WindowEntry>,
    /// Canonical events produced but not yet delivered, in delivery order.
    pub pending_events: Vec<Event>,
    /// The tracked set of held modifier keys.
    pub modifiers: Modifiers,
    /// Whether a dispatch session is running, with the caller's callback
    /// installed: a native callback firing now reaches the caller at once;
    /// otherwise its event is queued for the next session.
    pub callback_installed: bool,
    /// The cached monitor list; filled on first query, dropped wholesale
    /// on a configuration change.
    pub monitors: Option<Vec<MonitorHandle>>,
}

impl EventsLoop {
    /// Builds a new events loop: no windows, nothing pending, no modifier
    /// held, no session running.
    pub fn new() -> (r: EventsLoop)
        ensures
            r.windows@.len() == 0,
            r.pending_events@.len() == 0,
            r.modifiers == (Modifiers {
                shift_pressed: false,
                ctrl_pressed: false,
                win_pressed: false,
                alt_pressed: false,
            }),
            r.callback_installed == false,
            r.monitors is None,
    {
        EventsLoop {
            windows: Vec::new(),
            pending_events: Vec::new(),
            modifiers: Modifiers::new(),
            callback_installed: false,
            monitors: None,
        }
    }

    /// Creates a proxy that can wake this loop up from another thread.
    pub fn create_proxy(&self) -> (r: EventsLoopProxy)
        ensures
            r.events_loop_proxy.closed == false,
    {
        EventsLoopProxy { events_loop_proxy: Proxy { closed: false } }
    }

    /// Adds a window to the registry.
    pub fn register_window(&mut self, entry: WindowEntry)
        ensures
            final(self).windows@ == old(self).windows@.push(entry),
            final(self).pending_events@ == old(self).pending_events@,
            final(self).modifiers == old(self).modifiers,
            final(self).callback_installed == old(self).callback_installed,
            final(self).monitors == old(self).monitors,
    {
        self.windows.push(entry);
    }

    /// Marks exactly the window `id` as the key (focused) window.
    pub fn set_key_window(&mut self, id: Id)
        ensures
            final(self).windows@.len() == old(self).windows@.len(),
            forall|k: int|
                0 <= k < old(self).windows@.len() ==> final(self).windows@[k] == (WindowEntry {
                    is_key: old(self).windows@[k].id == id,
                    ..old(self).windows@[k]
                }),
            final(self).pending_events@ == old(self).pending_events@,
            final(self).modifiers == old(self).modifiers,
            final(self).callback_installed == old(self).callback_installed,
            final(self).monitors == old(self).monitors,
    {
        let ghost orig = self.windows@;
        let n = self.windows.len();
        let mut i: usize = 0;
        while i < n
            invariant
                i <= n,
                n == self.windows@.len(),
                orig.len() == n,
                forall|k: int|
                    0 <= k < i ==> self.windows@[k] == (WindowEntry {
                        is_key: orig[k].id == id,
                        ..orig[k]
                    }),
                forall|k: int| i <= k < n ==> self.windows@[k] == orig[k],
                self.pending_events@ == old(self).pending_events@,
                self.modifiers == old(self).modifiers,
                self.callback_installed == old(self).callback_installed,
                self.monitors == old(self).monitors,
            decreases n - i,
        {
            let entry = self.windows[i];
            let updated = WindowEntry { is_key: entry.id == id, ..entry };
            self.windows.set(i, updated);
            i += 1;
        }
    }

    /// Removes the window `id` from the registry, in response to the
    /// native close notification; entries whose owner is gone are dropped
    /// along the way.
    pub fn find_and_remove_window(&mut self, id: Id)
        ensures
            final(self).windows@ == old(self).windows@.filter(
                |w: WindowEntry| w.alive && w.id != id,
            ),
            final(self).pending_events@ == old(self).pending_events@,
            final(self).modifiers == old(self).modifiers,
            final(self).callback_installed == old(self).callback_installed,
            final(self).monitors == old(self).monitors,
    {
        let ghost orig = self.windows@;
        let mut kept: Vec<WindowEntry> = Vec::new();
        let mut i: usize = 0;
        while i < self.windows.len()
            invariant
                i <= self.windows@.len(),
                self.windows@ == orig,
                kept@ == orig.take(i as int).filter(|w: WindowEntry| w.alive && w.id != id),
            decreases self.windows@.len() - i,
        {
            let entry = self.windows[i];
            proof {
                assert(orig.take(i + 1).drop_last() =~= orig.take(i as int));
                reveal_with_fuel(Seq::filter, 2);
                assert(orig.take(i + 1).filter(|w: WindowEntry| w.alive && w.id != id)
                    == if entry.alive && entry.id != id {
                        orig.take(i as int).filter(|w: WindowEntry| w.alive && w.id != id).push(
                            entry,
                        )
                    } else {
                        orig.take(i as int).filter(|w: WindowEntry| w.alive && w.id != id)
                    });
            }
            if entry.alive && entry.id != id {
                kept.push(entry);
            }
            i += 1;
        }
        proof {
            assert(orig.take(orig.len() as int) =~= orig);
        }
        self.windows = kept;
    }

    /// Whether `target` resolves to a live window in the registry.
    fn window_known(&self, target: Id) -> (r: bool)
        ensures
            r == spec_window_known(self.windows@, target),
    {
        let mut i: usize = 0;
        let n = self.windows.len();
        while i < n
            invariant
                i <= n,
                n == self.windows@.len(),
                forall|k: int|
                    0 <= k < i ==> !((#[trigger] self.windows@[k]).alive && self.windows@[k].id
                        == target),
            decreases n - i,
        {
            let entry = self.windows[i];
            if entry.alive && entry.id == target {
                return true;
            }
            i += 1;
        }
        false
    }

    /// The first live key window, if any.
    fn key_window(&self) -> (r: Option<Id>)
        ensures
            r == spec_key_window(self.windows@),
    {
        let mut i: usize = 0;
        let n = self.windows.len();
        proof {
            assert(self.windows@.skip(0) =~= self.windows@);
        }
        while i < n
            invariant
                i <= n,
                n == self.windows@.len(),
                spec_key_window(self.windows@) == spec_key_window(self.windows@.skip(i as int)),
            decreases n - i,
        {
            let entry = self.windows[i];
            proof {
                assert(self.windows@.skip(i as int).drop_first() =~= self.windows@.skip(i + 1));
                assert(self.windows@.skip(i as int)[0] == self.windows@[i as int]);
            }
            if entry.alive && entry.is_key {
                return Some(entry.id);
            }
            i += 1;
        }
        proof {
            assert(self.windows@.skip(n as int) =~= Seq::<WindowEntry>::empty());
        }
        None
    }

    /// Resolves a native event's window reference for pointer events: the
    /// referenced window when it is live, otherwise the key window.
    fn resolve_window(&self, target: &Option<Id>) -> (r: Option<Id>)
        ensures
            r == spec_resolve_window(self.windows@, *target),
    {
        match target {
            Some(id) => {
                if self.window_known(*id) {
                    Some(*id)
                } else {
                    self.key_window()
                }
            },
            None => self.key_window(),
        }
    }

    /// Whether the native event's window reference resolves directly.
    fn window_known_opt(&self, target: &Option<Id>) -> (r: bool)
        ensures
            r == spec_window_known_opt(self.windows@, *target),
    {
        match target {
            Some(id) => self.window_known(*id),
            None => false,
        }
    }

    /// The full fan-out of one native event, in delivery order.
    #[verifier::rlimit(100)]
    fn translate_fanout(&self, ns_event: &NativeEvent) -> (events: Vec<Event>)
        ensures
            events@ == spec_translate_events(self.modifiers, self.windows@, *ns_event),
    {
        let ghost m0 = self.modifiers;
        let ghost w0 = self.windows@;
        let ghost evs = spec_translate_events(m0, w0, *ns_event);
        let mut events: Vec<Event> = Vec::new();
        match &ns_event.kind {
            NativeEventKind::KeyUp => {
                proof {
                    assert(events@ =~= evs);
                }
            },
            NativeEventKind::KeyDown => {
                if ns_event.modifiers.logo && ns_event.key_code == 47 && self.window_known_opt(
                    &ns_event.window,
                ) {
                    if let Some(we) = modifier_event(ns_event, ModifierKey::Logo, false) {
                        let wid = match &ns_event.window {
                            Some(id) => *id,
                            None => Id(0),
                        };
                        events.push(Event::WindowEvent { window_id: WindowId(wid), event: we });
                    }
                }
                proof {
                    assert(events@ =~= evs);
                }
            },
            NativeEventKind::FlagsChanged => {
                if self.window_known_opt(&ns_event.window) {
                    let wid = match &ns_event.window {
                        Some(id) => *id,
                        None => Id(0),
                    };
                    if let Some(we) = modifier_event(
                        ns_event,
                        ModifierKey::Shift,
                        self.modifiers.shift_pressed,
                    ) {
                        events.push(Event::WindowEvent { window_id: WindowId(wid), event: we });
                    }
                    if let Some(we) = modifier_event(
                        ns_event,
                        ModifierKey::Ctrl,
                        self.modifiers.ctrl_pressed,
                    ) {
                        events.push(Event::WindowEvent { window_id: WindowId(wid), event: we });
                    }
                    if let Some(we) = modifier_event(
                        ns_event,
                        ModifierKey::Logo,
                        self.modifiers.win_pressed,
                    ) {
                        events.push(Event::WindowEvent { window_id: WindowId(wid), event: we });
                    }
                    if let Some(we) = modifier_event(
                        ns_event,
                        ModifierKey::Alt,
                        self.modifiers.alt_pressed,
                    ) {
                        events.push(Event::WindowEvent { window_id: WindowId(wid), event: we });
                    }
                    proof {
                        assert(events@ =~= spec_flags_events(m0, *ns_event, WindowId(wid)));
                    }
                }
                proof {
                    assert(events@ =~= evs);
                }
            },
            NativeEventKind::MouseEntered { x, y } => {
                if let Some(wid) = self.resolve_window(&ns_event.window) {
                    events.push(
                        Event::WindowEvent {
                            window_id: WindowId(wid),
                            event: WindowEvent::CursorEntered { device_id: DeviceId(0) },
                        },
                    );
                    events.push(
                        Event::WindowEvent {
                            window_id: WindowId(wid),
                            event: WindowEvent::CursorMoved {
                                device_id: DeviceId(0),
                                position: LogicalPosition { x: *x, y: *y },
                                modifiers: ns_event.modifiers,
                            },
                        },
                    );
                }
                proof {
                    assert(events@ =~= evs);
                }
            },
            NativeEventKind::MouseExited => {
                if self.window_known_opt(&ns_event.window) {
                    let wid = match &ns_event.window {
                        Some(id) => *id,
                        None => Id(0),
                    };
                    events.push(
                        Event::WindowEvent {
                            window_id: WindowId(wid),
                            event: WindowEvent::CursorLeft { device_id: DeviceId(0) },
                        },
                    );
                }
                proof {
                    assert(events@ =~= evs);
                }
            },
            NativeEventKind::MouseMoved { x, y, delta_x, delta_y } => {
                if let Some(wid) = self.resolve_window(&ns_event.window) {
                    events.push(
                        Event::WindowEvent {
                            window_id: WindowId(wid),
                            event: WindowEvent::CursorMoved {
                                device_id: DeviceId(0),
                                position: LogicalPosition { x: *x, y: *y },
                                modifiers: ns_event.modifiers,
                            },
                        },
                    );
                    if *delta_x != 0 {
                        events.push(
                            Event::DeviceEvent {
                                device_id: DeviceId(0),
                                event: DeviceEvent::Motion { axis: 0, value: *delta_x },
                            },
                        );
                    }
                    if *delta_y != 0 {
                        events.push(
                            Event::DeviceEvent {
                                device_id: DeviceId(0),
                                event: DeviceEvent::Motion { axis: 1, value: *delta_y },
                            },
                        );
                    }
                    if *delta_x != 0 || *delta_y != 0 {
                        events.push(
                            Event::DeviceEvent {
                                device_id: DeviceId(0),
                                event: DeviceEvent::MouseMotion { delta: (*delta_x, *delta_y) },
                            },
                        );
                    }
                }
                proof {
                    assert(events@ =~= evs);
                }
            },
            NativeEventKind::ScrollWheel { delta_x, delta_y, precise, phase } => {
                if self.window_known_opt(&ns_event.window) {
                    let wid = match &ns_event.window {
                        Some(id) => *id,
                        None => Id(0),
                    };
                    let delta = if *precise {
                        MouseScrollDelta::PixelDelta(*delta_x, *delta_y)
                    } else {
                        #[verifier::truncate]
                        let lx = *delta_x as i32;
                        #[verifier::truncate]
                        let ly = *delta_y as i32;
                        MouseScrollDelta::LineDelta(lx, ly)
                    };
                    events.push(
                        Event::WindowEvent {
                            window_id: WindowId(wid),
                            event: WindowEvent::MouseWheel {
                                device_id: DeviceId(0),
                                delta,
                                phase: *phase,
                                modifiers: ns_event.modifiers,
                            },
                        },
                    );
                    events.push(
                        Event::DeviceEvent {
                            device_id: DeviceId(0),
                            event: DeviceEvent::MouseWheel { delta },
                        },
                    );
                }
                proof {
                    assert(events@ =~= evs);
                }
            },
            NativeEventKind::Pressure { pressure, stage } => {
                if self.window_known_opt(&ns_event.window) {
                    let wid = match &ns_event.window {
                        Some(id) => *id,
                        None => Id(0),
                    };
                    events.push(
                        Event::WindowEvent {
                            window_id: WindowId(wid),
                            event: WindowEvent::TouchpadPressure {
                                device_id: DeviceId(0),
                                pressure: *pressure,
                                stage: *stage,
                            },
                        },
                    );
                }
                proof {
                    assert(events@ =~= evs);
                }
            },
            NativeEventKind::AppDefined { activated } => {
                if *activated {
                    events.push(Event::Awakened);
                }
                proof {
                    assert(events@ =~= evs);
                }
            },
            NativeEventKind::Other => {
                proof {
                    assert(events@ =~= evs);
                }
            },
        }
        events
    }

    /// Translates one raw native event.
    ///
    /// The first canonical event of the fan-out is returned; the rest are
    /// appended to the pending queue, in order. A flag-change event
    /// replaces the tracked modifier set even when its events are
    /// suppressed, so the tracked set always matches the platform's.
    pub fn ns_event_to_event(&mut self, ns_event: &NativeEvent) -> (r: Option<Event>)
        ensures
            final(self).windows@ == old(self).windows@,
            final(self).callback_installed == old(self).callback_installed,
            final(self).monitors == old(self).monitors,
            final(self).modifiers == spec_step_modifiers(old(self).modifiers, *ns_event),
            ({
                let evs = spec_translate_events(
                    old(self).modifiers,
                    old(self).windows@,
                    *ns_event,
                );
                if evs.len() == 0 {
                    r is None && final(self).pending_events@ == old(self).pending_events@
                } else {
                    r == Some(evs[0]) && final(self).pending_events@ == old(self).pending_events@ + evs.drop_first()
                }
            }),
    {
        let ghost evs = spec_translate_events(self.modifiers, self.windows@, *ns_event);
        let mut events = self.translate_fanout(ns_event);
        if let NativeEventKind::FlagsChanged = &ns_event.kind {
            self.modifiers = Modifiers {
                shift_pressed: ns_event.modifiers.shift,
                ctrl_pressed: ns_event.modifiers.ctrl,
                win_pressed: ns_event.modifiers.logo,
                alt_pressed: ns_event.modifiers.alt,
            };
        }
        if events.len() == 0 {
            None
        } else {
            let first = events.remove(0);
            proof {
                assert(events@ =~= evs.drop_first());
            }
            self.pending_events.append(&mut events);
            Some(first)
        }
    }

    /// Delivers an event to the caller, or queues it.
    ///
    /// A native callback can fire while a dispatch session is running —
    /// the event is handed to the caller's callback at once — or outside
    /// any session, in which case it is queued and delivered at the start
    /// of the next session; it is never dropped.
    pub fn call_user_callback_with_event_or_store_in_pending(&mut self, event: Event) -> (r:
        Option<Event>)
        ensures
            final(self).windows@ == old(self).windows@,
            final(self).modifiers == old(self).modifiers,
            final(self).callback_installed == old(self).callback_installed,
            final(self).monitors == old(self).monitors,
            old(self).callback_installed ==> r == Some(event) && final(self).pending_events@ == old(self).pending_events@,
            !old(self).callback_installed ==> r is None && final(self).pending_events@ == old(self).pending_events@.push(event),
    {
        if self.callback_installed {
            Some(event)
        } else {
            self.pending_events.push(event);
            None
        }
    }

    /// Hands the queued events over one at a time, stopping at the first
    /// one the caller answers with `Break`.
    fn drain_pending(&mut self, delivered: &mut Vec<Event>, decisions: &Vec<ControlFlow>) -> (broke:
        bool)
        ensures
            final(self).windows@ == old(self).windows@,
            final(self).modifiers == old(self).modifiers,
            final(self).callback_installed == old(self).callback_installed,
            final(self).monitors == old(self).monitors,
            final(delivered)@.len() >= old(delivered)@.len(),
            !broke ==> final(delivered)@ == old(delivered)@ + old(self).pending_events@ && final(self).pending_events@.len() == 0 && (forall|t: int|
                old(delivered)@.len() <= t < final(delivered)@.len() ==> !spec_is_break(
                    decisions@,
                    t,
                )),
            broke ==> ({
                let c = final(delivered)@.len() - old(delivered)@.len();
                &&& 1 <= c <= old(self).pending_events@.len()
                &&& final(delivered)@ == old(delivered)@ + old(self).pending_events@.take(c)
                &&& final(self).pending_events@ == old(self).pending_events@.skip(c)
                &&& spec_is_break(decisions@, final(delivered)@.len() - 1)
                &&& forall|t: int|
                    old(delivered)@.len() <= t < final(delivered)@.len() - 1 ==> !spec_is_break(
                        decisions@,
                        t,
                    )
            }),
    {
        let ghost p0 = self.pending_events@;
        let ghost d0 = delivered@;
        while self.pending_events.len() > 0
            invariant
                d0 == old(delivered)@,
                p0 == old(self).pending_events@,
                self.windows@ == old(self).windows@,
                self.modifiers == old(self).modifiers,
                self.callback_installed == old(self).callback_installed,
                self.monitors == old(self).monitors,
                d0.len() <= delivered@.len(),
                delivered@.len() - d0.len() <= p0.len(),
                delivered@ == d0 + p0.take(delivered@.len() - d0.len()),
                self.pending_events@ == p0.skip(delivered@.len() - d0.len()),
                forall|t: int| d0.len() <= t < delivered@.len() ==> !spec_is_break(decisions@, t),
            decreases self.pending_events@.len(),
        {
            let ghost c = delivered@.len() - d0.len();
            let e = self.pending_events.remove(0);
            proof {
                assert(e == p0[c]);
                assert(self.pending_events@ =~= p0.skip(c + 1));
            }
            delivered.push(e);
            proof {
                assert(delivered@ =~= d0 + p0.take(c + 1));
            }
            let idx = delivered.len() - 1;
            if idx < decisions.len() {
                if let ControlFlow::Break = decisions[idx] {
                    return true;
                }
            }
            proof {
                assert(!spec_is_break(decisions@, idx as int));
            }
        }
        proof {
            assert(delivered@.len() - d0.len() == p0.len());
            assert(p0.take(p0.len() as int) =~= p0);
        }
        false
    }

    /// Fetches all the events that are pending, hands each to the
    /// caller's callback in order, and returns when no more are pending.
    ///
    /// The native events the platform had queued are passed in as plain
    /// values; the returned vector holds every canonical event to hand to
    /// the callback, in delivery order: first the queue left over from
    /// earlier sessions, then the fan-out of each native event.
    pub fn poll_events(&mut self, native: &Vec<NativeEvent>) -> (delivered: Vec<Event>)
        ensures
            delivered@ == old(self).pending_events@ + spec_session_events(
                old(self).modifiers,
                old(self).windows@,
                native@,
            ),
            final(self).pending_events@.len() == 0,
            final(self).modifiers == spec_session_modifiers(old(self).modifiers, native@),
            final(self).windows@ == old(self).windows@,
            final(self).callback_installed == false,
            final(self).monitors == old(self).monitors,
    {
        let ghost m0 = self.modifiers;
        let ghost w = self.windows@;
        let ghost p0 = self.pending_events@;
        self.callback_installed = true;
        let mut delivered: Vec<Event> = Vec::new();
        delivered.append(&mut self.pending_events);
        proof {
            assert(native@.take(0) =~= Seq::<NativeEvent>::empty());
            assert(delivered@ =~= p0 + spec_session_events(m0, w, native@.take(0)));
        }
        let mut i: usize = 0;
        while i < native.len()
            invariant
                i <= native@.len(),
                self.windows@ == w,
                self.monitors == old(self).monitors,
                self.callback_installed == true,
                self.pending_events@.len() == 0,
                self.modifiers == spec_session_modifiers(m0, native@.take(i as int)),
                delivered@ == p0 + spec_session_events(m0, w, native@.take(i as int)),
            decreases native@.len() - i,
        {
            let ghost mods_i = self.modifiers;
            let ghost evs = spec_translate_events(mods_i, w, native@[i as int]);
            let first = self.ns_event_to_event(&native[i]);
            if let Some(e) = first {
                delivered.push(e);
            }
            delivered.append(&mut self.pending_events);
            proof {
                lemma_session_append(m0, w, native@.take(i as int), seq![native@[i as int]]);
                assert(native@.take(i as int) + seq![native@[i as int]] =~= native@.take(i + 1));
                lemma_session_singleton(mods_i, w, native@[i as int]);
                if evs.len() == 0 {
                    assert(delivered@ =~= p0 + spec_session_events(m0, w, native@.take(i + 1)));
                } else {
                    assert(delivered@ =~= p0 + spec_session_events(m0, w, native@.take(i + 1)));
                }
            }
            i += 1;
        }
        proof {
            assert(native@.take(native@.len() as int) =~= native@);
        }
        self.callback_installed = false;
        delivered
    }

    /// Hands every event to the caller's callback, blocking between native
    /// events, until the callback answers `Break`; undelivered events are
    /// discarded with the session.
    ///
    /// The native events the platform yields, and the callback's answer to
    /// each delivered event, are passed in as plain values; the returned
    /// vector holds the events delivered, in order: the full stream cut at
    /// the first event answered with `Break`, inclusively.
    pub fn run_forever(&mut self, native: &Vec<NativeEvent>, decisions: &Vec<ControlFlow>) -> (delivered:
        Vec<Event>)
        ensures
            final(self).pending_events@.len() == 0,
            final(self).callback_installed == false,
            final(self).windows@ == old(self).windows@,
            final(self).monitors == old(self).monitors,
            ({
                let full = old(self).pending_events@ + spec_session_events(
                    old(self).modifiers,
                    old(self).windows@,
                    native@,
                );
                let fb = spec_first_break_from(decisions@, 0, full.len() as int);
                &&& delivered@ == spec_delivered_events(full, decisions@)
                &&& fb < 0 ==> final(self).modifiers == spec_session_modifiers(
                    old(self).modifiers,
                    native@,
                )
                &&& fb >= 0 ==> final(self).modifiers == spec_session_modifiers(
                    old(self).modifiers,
                    native@.take(
                        spec_natives_consumed(
                            old(self).modifiers,
                            old(self).windows@,
                            native@,
                            fb + 1 - old(self).pending_events@.len(),
                        ),
                    ),
                )
            }),
    {
        let ghost m0 = self.modifiers;
        let ghost w = self.windows@;
        let ghost p0 = self.pending_events@;
        let ghost full = p0 + spec_session_events(m0, w, native@);
        self.callback_installed = true;
        let mut delivered: Vec<Event> = Vec::new();
        let mut broke = self.drain_pending(&mut delivered, decisions);
        proof {
            assert(native@.take(0) =~= Seq::<NativeEvent>::empty());
            if !broke {
                assert(delivered@ =~= p0);
                assert(delivered@ =~= full.take(delivered@.len() as int));
            } else {
                let c = delivered@.len() as int;
                assert(delivered@ =~= p0.take(c));
                assert(delivered@ =~= full.take(c));
                assert(delivered@.len() <= p0.len() + spec_session_events(
                    m0,
                    w,
                    native@.take(0),
                ).len());
            }
        }
        let mut i: usize = 0;
        while !broke && i < native.len()
            invariant
                i <= native@.len(),
                self.windows@ == w,
                self.monitors == old(self).monitors,
                self.callback_installed == true,
                full == p0 + spec_session_events(m0, w, native@),
                self.modifiers == spec_session_modifiers(m0, native@.take(i as int)),
                delivered@.len() <= full.len(),
                delivered@ == full.take(delivered@.len() as int),
                !broke ==> self.pending_events@.len() == 0 && delivered@.len() == p0.len()
                    + spec_session_events(m0, w, native@.take(i as int)).len() && (forall|t: int|
                    0 <= t < delivered@.len() ==> !spec_is_break(decisions@, t)),
                broke ==> delivered@.len() >= 1 && spec_is_break(decisions@, delivered@.len() - 1)
                    && (forall|t: int|
                    0 <= t < delivered@.len() - 1 ==> !spec_is_break(decisions@, t)),
                broke ==> delivered@.len() <= p0.len() + spec_session_events(
                    m0,
                    w,
                    native@.take(i as int),
                ).len(),
                broke ==> forall|k: int|
                    0 <= k < i ==> p0.len() + spec_session_events(
                        m0,
                        w,
                        #[trigger] native@.take(k),
                    ).len() < delivered@.len(),
            decreases native@.len() - i,
        {
            let ghost mods_i = self.modifiers;
            let ghost li = delivered@.len() as int;
            let ghost evs = spec_translate_events(mods_i, w, native@[i as int]);
            let first = self.ns_event_to_event(&native[i]);
            proof {
                lemma_session_append(m0, w, native@.take(i as int), seq![native@[i as int]]);
                assert(native@.take(i as int) + seq![native@[i as int]] =~= native@.take(i + 1));
                lemma_session_singleton(mods_i, w, native@[i as int]);
                lemma_session_append(m0, w, native@.take(i as int), native@.skip(i as int));
                assert(native@.take(i as int) + native@.skip(i as int) =~= native@);
                assert(native@.skip(i as int)[0] == native@[i as int]);
                assert(native@.skip(i as int).drop_first() =~= native@.skip(i + 1));
                assert(spec_session_events(mods_i, w, native@.skip(i as int)) =~= evs
                    + spec_session_events(
                    spec_step_modifiers(mods_i, native@[i as int]),
                    w,
                    native@.skip(i + 1),
                ));
                assert(full =~= (p0 + spec_session_events(m0, w, native@.take(i as int))) + (evs
                    + spec_session_events(
                    spec_step_modifiers(mods_i, native@[i as int]),
                    w,
                    native@.skip(i + 1),
                )));
            }
            if let Some(e) = first {
                proof {
                    assert(full[li] == evs[0]);
                }
                delivered.push(e);
                proof {
                    assert(delivered@ =~= full.take(li + 1));
                }
                let idx = delivered.len() - 1;
                let mut brk = false;
                if idx < decisions.len() {
                    if let ControlFlow::Break = decisions[idx] {
                        brk = true;
                    }
                }
                if brk {
                    broke = true;
                    proof {
                        assert(p0.len() + spec_session_events(m0, w, native@.take(i + 1)).len()
                            == li + evs.len());
                        assert forall|k: int|
                            0 <= k < i + 1 implies p0.len() + spec_session_events(
                            m0,
                            w,
                            #[trigger] native@.take(k),
                        ).len() < delivered@.len() by {
                            lemma_session_prefix_len(m0, w, native@, k, i as int);
                        }
                    }
                } else {
                    proof {
                        assert(!spec_is_break(decisions@, li));
                    }
                    let ghost pend = self.pending_events@;
                    broke = self.drain_pending(&mut delivered, decisions);
                    proof {
                        assert(pend =~= evs.drop_first());
                        assert(full.take(li + 1) + evs.drop_first() =~= full.take(li + evs.len()));
                        if !broke {
                            assert(delivered@ =~= full.take(li + evs.len()));
                            assert(delivered@.len() == p0.len() + spec_session_events(
                                m0,
                                w,
                                native@.take(i + 1),
                            ).len());
                        } else {
                            let c = delivered@.len() - (li + 1);
                            assert(delivered@ =~= full.take(li + 1) + evs.drop_first().take(c));
                            assert(delivered@ =~= full.take(delivered@.len() as int));
                            assert(p0.len() + spec_session_events(
                                m0,
                                w,
                                native@.take(i + 1),
                            ).len() == li + evs.len());
                            assert(delivered@.len() <= li + evs.len());
                            assert forall|k: int|
                                0 <= k < i + 1 implies p0.len() + spec_session_events(
                                m0,
                                w,
                                #[trigger] native@.take(k),
                            ).len() < delivered@.len() by {
                                lemma_session_prefix_len(m0, w, native@, k, i as int);
                            }
                        }
                    }
                }
            } else {
                proof {
                    assert(evs.len() == 0);
                    assert(delivered@.len() == p0.len() + spec_session_events(
                        m0,
                        w,
                        native@.take(i + 1),
                    ).len());
                }
            }
            i += 1;
        }
        let ghost i_final = i as int;
        self.pending_events.clear();
        self.callback_installed = false;
        proof {
            lemma_first_break_char(decisions@, 0, full.len() as int);
            let fb = spec_first_break_from(decisions@, 0, full.len() as int);
            if broke {
                let d = delivered@.len() as int;
                assert(spec_is_break(decisions@, d - 1));
                assert(d <= full.len());
                assert(fb == d - 1);
                assert(delivered@ == spec_delivered_events(full, decisions@));
                let needed = d - p0.len();
                assert forall|k: int|
                    0 <= k < i_final implies spec_session_events(
                    m0,
                    w,
                    #[trigger] native@.take(k),
                ).len() < needed by {}
                assert(spec_session_events(m0, w, native@.take(i_final)).len() >= needed);
                lemma_natives_consumed_at(m0, w, native@, needed, i_final);
                assert(spec_natives_consumed(m0, w, native@, needed) == i_final);
            } else {
                assert(i_final == native@.len());
                assert(native@.take(i_final) =~= native@);
                assert(delivered@.len() == full.len());
                assert(delivered@ =~= full.take(full.len() as int));
                assert(delivered@ =~= full);
                assert(fb < 0);
                assert(delivered@ == spec_delivered_events(full, decisions@));
            }
            assert(self.modifiers == spec_session_modifiers(m0, native@.take(i_final)));
        }
        delivered
    }

    /// The list of all monitors available on the system.
    ///
    /// The descriptors the platform enumerated are passed in as plain
    /// values and cached; later calls serve the cache until it is
    /// invalidated, so `queried` is then ignored.
    pub fn get_available_monitors(&mut self, queried: Vec<MonitorHandle>) -> (r:
        AvailableMonitorsIter)
        ensures
            final(self).windows@ == old(self).windows@,
            final(self).pending_events@ == old(self).pending_events@,
            final(self).modifiers == old(self).modifiers,
            final(self).callback_installed == old(self).callback_installed,
            final(self).monitors is Some,
            old(self).monitors is Some ==> final(self).monitors == old(self).monitors,
            old(self).monitors is None ==> final(self).monitors->0.deep_view()
                == queried.deep_view(),
            r.data.deep_view() == final(self).monitors->0.deep_view(),
    {
        if self.monitors.is_none() {
            self.monitors = Some(queried);
        }
        let data = match &self.monitors {
            Some(list) => clone_monitor_list(list),
            None => Vec::new(),
        };
        AvailableMonitorsIter { data }
    }

    /// The primary monitor of the system: the first descriptor marked
    /// primary in the cached list, caching `queried` first when the cache
    /// is empty.
    pub fn get_primary_monitor(&mut self, queried: Vec<MonitorHandle>) -> (r: MonitorHandle)
        requires
            old(self).monitors is Some ==> spec_has_primary(old(self).monitors->0.deep_view()),
            old(self).monitors is None ==> spec_has_primary(queried.deep_view()),
        ensures
            final(self).windows@ == old(self).windows@,
            final(self).pending_events@ == old(self).pending_events@,
            final(self).modifiers == old(self).modifiers,
            final(self).callback_installed == old(self).callback_installed,
            final(self).monitors is Some,
            old(self).monitors is Some ==> final(self).monitors == old(self).monitors,
            old(self).monitors is None ==> final(self).monitors->0.deep_view()
                == queried.deep_view(),
            r@ == final(self).monitors->0.deep_view()[spec_first_primary(
                final(self).monitors->0.deep_view(),
            )],
    {
        if self.monitors.is_none() {
            self.monitors = Some(queried);
        }
        let list = match &self.monitors {
            Some(list) => clone_monitor_list(list),
            None => Vec::new(),
        };
        let ghost dv = list.deep_view();
        proof {
            lemma_first_primary_char(dv);
        }
        let mut i: usize = 0;
        while i < list.len()
            invariant
                self.windows@ == old(self).windows@,
                self.pending_events@ == old(self).pending_events@,
                self.modifiers == old(self).modifiers,
                self.callback_installed == old(self).callback_installed,
                self.monitors is Some,
                old(self).monitors is Some ==> self.monitors == old(self).monitors,
                old(self).monitors is None ==> self.monitors->0.deep_view()
                    == queried.deep_view(),
                dv == self.monitors->0.deep_view(),
                dv == list.deep_view(),
                i <= list@.len(),
                spec_has_primary(dv),
                0 <= spec_first_primary(dv) < dv.len(),
                dv[spec_first_primary(dv)].primary,
                forall|k: int| 0 <= k < spec_first_primary(dv) ==> !dv[k].primary,
                forall|k: int| 0 <= k < i ==> !dv[k].primary,
            decreases list@.len() - i,
        {
            if list[i].primary {
                proof {
                    assert(dv[i as int].primary);
                    assert(spec_first_primary(dv) == i as int);
                }
                return list[i].clone();
            }
            i += 1;
        }
        proof {
            assert(false);
        }
        MonitorHandle::from_repr(0, String::new(), 1000, Vec::new(), (0, 0), (0, 0), false)
    }

    /// Drops the cached monitor list, returning what was cached; the next
    /// query rebuilds it. The cache is replaced whole, never edited in
    /// place.
    pub fn invalidate_cached_monitor_list(&mut self) -> (r: Option<Vec<MonitorHandle>>)
        ensures
            r == old(self).monitors,
            final(self).monitors is None,
            final(self).windows@ == old(self).windows@,
            final(self).pending_events@ == old(self).pending_events@,
            final(self).modifiers == old(self).modifiers,
            final(self).callback_installed == old(self).callback_installed,
    {
        self.monitors.take()
    }

}

} // verus!
