//! The `EventLoop` struct and assorted supporting types, including
//! `ControlFlow`: a thin shell over the dispatch context in
//! [`crate::events_loop`], with its own control-flow vocabulary.

use vstd::prelude::*;
use crate::dispatch::{
    spec_delivered_events, spec_first_break_from, spec_natives_consumed, spec_session_events,
    spec_session_modifiers,
};
use crate::event::Event;
use crate::events_loop::EventsLoop;
use crate::events_loop;
use crate::monitor::{spec_first_primary, spec_has_primary, AvailableMonitorsIter, MonitorHandle};
use crate::native::NativeEvent;

verus! {

/// Returned by the caller's callback given to [`EventLoop::run_forever`]:
/// whether that loop should continue or complete.
#[derive(Debug, Copy, Clone, PartialEq, Eq, Hash, Structural)]
pub enum ControlFlow {
    /// Continue looping and waiting for events.
    Continue,
    /// Break from the event loop.
    Break,
}

/// The dispatch context's own control-flow word for `c`.
pub open spec fn spec_to_core_flow(c: ControlFlow) -> events_loop::ControlFlow {
    match c {
        ControlFlow::Continue => events_loop::ControlFlow::Continue,
        ControlFlow::Break => events_loop::ControlFlow::Break,
    }
}

/// The error returned when a wakeup proxy's event loop no longer exists.
#[derive(Debug, Copy, Clone, PartialEq, Eq, Hash, Structural)]
pub struct EventLoopClosed;

impl EventLoopClosed {
    /// The text of this error.
    pub fn description(&self) -> (r: String)
        ensures
            r@ == "Tried to wake up a closed `EventLoop`"@,
    {
        ("Tried to wake up a closed `EventLoop`").to_owned()
    }
}

/// Wakes an [`EventLoop`] from another thread; cloneable and shareable.
#[derive(Debug, Copy, Clone, PartialEq, Eq, Structural)]
pub struct EventLoopProxy {
    pub event_loop_proxy: events_loop::Proxy,
}

impl EventLoopProxy {
    /// Wakes up the `EventLoop` this proxy was created from, making it
    /// emit an `Awakened` event; fails when that loop no longer exists.
    pub fn wakeup(&self) -> (r: Result<(), EventLoopClosed>)
        ensures
            r is Ok <==> !self.event_loop_proxy.closed,
            r is Err ==> r->Err_0 == EventLoopClosed,
    {
        match self.event_loop_proxy.wakeup() {
            Ok(()) => Ok(()),
            Err(_) => Err(EventLoopClosed),
        }
    }
}

/// A dispatch context under the newer name: a shell over
/// [`events_loop::EventsLoop`] that speaks this module's `ControlFlow`.
pub struct EventLoop {
    pub event_loop: EventsLoop,
}

impl EventLoop {
    /// Builds a new event loop.
    pub fn new() -> (r: EventLoop)
        ensures
            r.event_loop.windows@.len() == 0,
            r.event_loop.pending_events@.len() == 0,
            r.event_loop.callback_installed == false,
            r.event_loop.monitors is None,
    {
        EventLoop { event_loop: EventsLoop::new() }
    }

    /// The list of all monitors available on the system; see
    /// [`EventsLoop::get_available_monitors`].
    pub fn get_available_monitors(&mut self, queried: Vec<MonitorHandle>) -> (r:
        AvailableMonitorsIter)
        ensures
            final(self).event_loop.windows@ == old(self).event_loop.windows@,
            final(self).event_loop.pending_events@ == old(self).event_loop.pending_events@,
            final(self).event_loop.modifiers == old(self).event_loop.modifiers,
            final(self).event_loop.callback_installed == old(self).event_loop.callback_installed,
            final(self).event_loop.monitors is Some,
            old(self).event_loop.monitors is Some ==> final(self).event_loop.monitors == old(self).event_loop.monitors,
            old(self).event_loop.monitors is None ==> final(self).event_loop.monitors->0.deep_view() == queried.deep_view(),
            r.data.deep_view() == final(self).event_loop.monitors->0.deep_view(),
    {
        self.event_loop.get_available_monitors(queried)
    }

    /// The primary monitor of the system; see
    /// [`EventsLoop::get_primary_monitor`].
    pub fn get_primary_monitor(&mut self, queried: Vec<MonitorHandle>) -> (r: MonitorHandle)
        requires
            old(self).event_loop.monitors is Some ==> spec_has_primary(
                old(self).event_loop.monitors->0.deep_view(),
            ),
            old(self).event_loop.monitors is None ==> spec_has_primary(queried.deep_view()),
        ensures
            final(self).event_loop.windows@ == old(self).event_loop.windows@,
            final(self).event_loop.pending_events@ == old(self).event_loop.pending_events@,
            final(self).event_loop.modifiers == old(self).event_loop.modifiers,
            final(self).event_loop.callback_installed == old(self).event_loop.callback_installed,
            final(self).event_loop.monitors is Some,
            old(self).event_loop.monitors is Some ==> final(self).event_loop.monitors == old(self).event_loop.monitors,
            old(self).event_loop.monitors is None ==> final(self).event_loop.monitors->0.deep_view() == queried.deep_view(),
            r@ == final(self).event_loop.monitors->0.deep_view()[spec_first_primary(
                final(self).event_loop.monitors->0.deep_view(),
            )],
    {
        self.event_loop.get_primary_monitor(queried)
    }

    /// Fetches all the events that are pending and returns them in
    /// delivery order; see [`EventsLoop::poll_events`].
    pub fn poll_events(&mut self, native: &Vec<NativeEvent>) -> (delivered: Vec<Event>)
        ensures
            delivered@ == old(self).event_loop.pending_events@ + spec_session_events(
                old(self).event_loop.modifiers,
                old(self).event_loop.windows@,
                native@,
            ),
            final(self).event_loop.pending_events@.len() == 0,
            final(self).event_loop.modifiers == spec_session_modifiers(
                old(self).event_loop.modifiers,
                native@,
            ),
            final(self).event_loop.windows@ == old(self).event_loop.windows@,
            final(self).event_loop.callback_installed == false,
            final(self).event_loop.monitors == old(self).event_loop.monitors,
    {
        self.event_loop.poll_events(native)
    }

    /// Delivers events until the callback answers `Break`; see
    /// [`EventsLoop::run_forever`]. The callback's answers are passed in
    /// as plain values, one per delivered event.
    pub fn run_forever(&mut self, native: &Vec<NativeEvent>, decisions: &Vec<ControlFlow>) -> (delivered:
        Vec<Event>)
        ensures
            final(self).event_loop.pending_events@.len() == 0,
            final(self).event_loop.callback_installed == false,
            final(self).event_loop.windows@ == old(self).event_loop.windows@,
            final(self).event_loop.monitors == old(self).event_loop.monitors,
            ({
                let full = old(self).event_loop.pending_events@ + spec_session_events(
                    old(self).event_loop.modifiers,
                    old(self).event_loop.windows@,
                    native@,
                );
                let core = decisions@.map_values(|c: ControlFlow| spec_to_core_flow(c));
                let fb = spec_first_break_from(core, 0, full.len() as int);
                &&& delivered@ == spec_delivered_events(full, core)
                &&& fb < 0 ==> final(self).event_loop.modifiers == spec_session_modifiers(
                    old(self).event_loop.modifiers,
                    native@,
                )
                &&& fb >= 0 ==> final(self).event_loop.modifiers == spec_session_modifiers(
                    old(self).event_loop.modifiers,
                    native@.take(
                        spec_natives_consumed(
                            old(self).event_loop.modifiers,
                            old(self).event_loop.windows@,
                            native@,
                            fb + 1 - old(self).event_loop.pending_events@.len(),
                        ),
                    ),
                )
            }),
    {
        let mut core_decisions: Vec<events_loop::ControlFlow> = Vec::new();
        let mut i: usize = 0;
        while i < decisions.len()
            invariant
                i <= decisions@.len(),
                core_decisions@.len() == i,
                forall|k: int|
                    0 <= k < i ==> core_decisions@[k] == spec_to_core_flow(decisions@[k]),
            decreases decisions@.len() - i,
        {
            let c = match decisions[i] {
                ControlFlow::Continue => events_loop::ControlFlow::Continue,
                ControlFlow::Break => events_loop::ControlFlow::Break,
            };
            core_decisions.push(c);
            i += 1;
        }
        proof {
            assert(core_decisions@ =~= decisions@.map_values(
                |c: ControlFlow| spec_to_core_flow(c),
            ));
        }
        self.event_loop.run_forever(native, &core_decisions)
    }

    /// Creates a proxy that can wake this loop up from another thread.
    pub fn create_proxy(&self) -> (r: EventLoopProxy)
        ensures
            r.event_loop_proxy.closed == false,
    {
        EventLoopProxy { event_loop_proxy: events_loop::Proxy { closed: false } }
    }
}

} // verus!
