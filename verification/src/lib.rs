//! A windowing event core: a canonical event vocabulary, a native-event
//! translator with modifier-flag diffing, a dispatch loop with a pending-event
//! queue, a cross-thread wakeup proxy, and a window/monitor registry.
//!
//! Native windowing systems deliver raw events through platform interfaces;
//! this crate holds the platform-independent logic: every raw event, modelled
//! as plain values, is translated into zero or more canonical events, which
//! are delivered to the caller in a strictly defined order.

use vstd::prelude::*;

pub mod dispatch;
pub mod dpi;
pub mod event;
pub mod event_loop;
pub mod events_loop;
pub mod keyboard;
pub mod monitor;
pub mod native;
pub mod translate;
pub mod util;
pub mod window;

pub use crate::event::{
    DeviceEvent, ElementState, Event, KeyboardInput, ModifiersState, MouseScrollDelta, TouchPhase,
    VirtualKeyCode, WindowEvent,
};
pub use crate::monitor::{AvailableMonitorsIter, MonitorHandle};

use crate::dpi::LogicalSize;
use crate::window::{Id, PlatformSpecificWindowBuilderAttributes};

verus! {

/// Identifier of a window, unique for each live window.
///
/// Every event specific to a window carries a `WindowId`, which can be
/// compared to the identifiers of the application's own windows.
#[derive(Debug, Copy, Clone, PartialEq, Eq, PartialOrd, Ord, Hash, Structural)]
pub struct WindowId(pub Id);

impl WindowId {
    /// A placeholder window identifier, useful for unit testing: always
    /// equal to itself and to every other value this function returns. It
    /// may coincide with the identifier of a real window.
    pub fn dummy() -> (r: Self)
        ensures
            r == WindowId(Id(0)),
    {
        WindowId(Id(0))
    }
}

/// Identifier of an input device.
///
/// Platforms that cannot tell devices apart report a constant placeholder.
#[derive(Debug, Copy, Clone, PartialEq, Eq, PartialOrd, Ord, Hash, Structural)]
pub struct DeviceId(pub u32);

impl DeviceId {
    /// A placeholder device identifier, useful for unit testing: always
    /// equal to itself and to every other value this function returns. It
    /// may coincide with the identifier of a real device.
    pub fn dummy() -> (r: Self)
        ensures
            r == DeviceId(0),
    {
        DeviceId(0)
    }
}

/// A window known to a dispatch context.
///
/// The dispatch machinery itself holds only a non-owning registry entry; the
/// application owns this value, and the window lives exactly as long as it.
#[derive(Debug, Copy, Clone, PartialEq, Eq, Structural)]
pub struct Window {
    pub id: WindowId,
}

impl Window {
    /// Creates a window with the given native identity and registers it
    /// with the dispatch context, so that events referencing it are
    /// routed; the returned value is the application's owning reference.
    pub fn new(events_loop: &mut crate::events_loop::EventsLoop, id: Id) -> (r: Window)
        ensures
            final(events_loop).windows@ == old(events_loop).windows@.push(
                crate::translate::WindowEntry { id, alive: true, is_key: false },
            ),
            final(events_loop).pending_events@ == old(events_loop).pending_events@,
            final(events_loop).modifiers == old(events_loop).modifiers,
            final(events_loop).callback_installed == old(events_loop).callback_installed,
            final(events_loop).monitors == old(events_loop).monitors,
            r.id == WindowId(id),
    {
        events_loop.register_window(
            crate::translate::WindowEntry { id, alive: true, is_key: false },
        );
        Window { id: WindowId(id) }
    }

    /// The identifier of this window.
    pub fn id(&self) -> (r: WindowId)
        ensures
            r == self.id,
    {
        self.id
    }
}

/// An RGBA icon, carried through to the platform untouched.
#[derive(Debug, Clone)]
pub struct Icon {
    pub rgba: Vec<u8>,
    pub width: u32,
    pub height: u32,
}

/// An error from creating a window.
#[derive(Debug, Clone)]
pub enum CreationError {
    /// The platform rejected the window, with its own message.
    OsError(String),
    NotSupported,
}

impl CreationError {
    /// The text of this error.
    pub fn to_string(&self) -> (r: String)
        ensures
            r@ == self.spec_text(),
    {
        match self {
            CreationError::OsError(text) => text.clone(),
            CreationError::NotSupported => (
                "Some of the requested attributes are not supported"
            ).to_owned(),
        }
    }

    /// The text of this error, mathematically.
    pub open spec fn spec_text(&self) -> Seq<char> {
        match self {
            CreationError::OsError(text) => text@,
            CreationError::NotSupported => "Some of the requested attributes are not supported"@,
        }
    }
}

/// The appearance of the mouse cursor.
#[derive(Debug, Copy, Clone, PartialEq, Eq, Hash, Structural)]
pub enum MouseCursor {
    /// The platform-dependent default cursor.
    Default,
    /// A simple crosshair.
    Crosshair,
    /// A hand, often used to indicate a link.
    Hand,
    Arrow,
    /// Indicates something is to be moved.
    Move,
    /// Indicates text that may be selected or edited.
    Text,
    /// Program busy indicator.
    Wait,
    /// Help indicator.
    Help,
    /// Progress indicator, still interactive.
    Progress,
    /// Something cannot be done.
    NotAllowed,
    ContextMenu,
    Cell,
    VerticalText,
    Alias,
    Copy,
    NoDrop,
    Grab,
    Grabbing,
    AllScroll,
    ZoomIn,
    ZoomOut,
    /// An edge is to be moved, named for the corner or side the movement
    /// starts from.
    EResize,
    NResize,
    NeResize,
    NwResize,
    SResize,
    SeResize,
    SwResize,
    WResize,
    EwResize,
    NsResize,
    NeswResize,
    NwseResize,
    ColResize,
    RowResize,
}

impl Default for MouseCursor {
    fn default() -> (r: Self)
        ensures
            r == MouseCursor::Default,
    {
        MouseCursor::Default
    }
}

/// Attributes to use when creating a window.
#[derive(Debug, Clone)]
pub struct WindowAttributes {
    /// The dimensions of the window; platform-chosen when `None`.
    pub dimensions: Option<LogicalSize>,
    /// The smallest the window can be; unconstrained when `None`.
    pub min_dimensions: Option<LogicalSize>,
    /// The largest the window can be; unconstrained when `None`.
    pub max_dimensions: Option<LogicalSize>,
    /// Whether the window can be resized.
    pub resizable: bool,
    /// The monitor to go fullscreen on upon creation.
    pub fullscreen: Option<crate::monitor::MonitorHandle>,
    /// The title in the title bar.
    pub title: String,
    /// Whether the window starts maximized.
    pub maximized: bool,
    /// Whether the window is immediately visible.
    pub visible: bool,
    /// Whether alpha values below one produce a transparent window.
    pub transparent: bool,
    /// Whether the window has borders and bars.
    pub decorations: bool,
    /// Whether the window stays above all other windows.
    pub always_on_top: bool,
    /// The window icon.
    pub window_icon: Option<Icon>,
    /// Whether multitouch is enabled.
    pub multitouch: bool,
}

impl Default for WindowAttributes {
    fn default() -> (r: Self)
        ensures
            r.dimensions is None,
            r.min_dimensions is None,
            r.max_dimensions is None,
            r.resizable == true,
            r.fullscreen is None,
            r.title@ == "winit window"@,
            r.maximized == false,
            r.visible == true,
            r.transparent == false,
            r.decorations == true,
            r.always_on_top == false,
            r.window_icon is None,
            r.multitouch == false,
    {
        WindowAttributes {
            dimensions: None,
            min_dimensions: None,
            max_dimensions: None,
            resizable: true,
            fullscreen: None,
            title: ("winit window").to_owned(),
            maximized: false,
            visible: true,
            transparent: false,
            decorations: true,
            always_on_top: false,
            window_icon: None,
            multitouch: false,
        }
    }
}

/// Builds windows: the attributes are filled in before the window is
/// created from them.
#[derive(Debug, Clone)]
pub struct WindowBuilder {
    /// The attributes to use to create the window.
    pub window: WindowAttributes,
    /// Switches that only some platforms understand.
    pub platform_specific: PlatformSpecificWindowBuilderAttributes,
}

impl WindowBuilder {
    /// A builder with every attribute at its default.
    pub fn new() -> (r: WindowBuilder)
        ensures
            r.window.dimensions is None,
            r.window.resizable == true,
            r.window.title@ == "winit window"@,
            r.platform_specific.resize_increments is None,
    {
        WindowBuilder {
            window: WindowAttributes::default(),
            platform_specific: PlatformSpecificWindowBuilderAttributes::default(),
        }
    }
}

} // verus!
