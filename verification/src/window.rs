//! Per-window state kept by the dispatch machinery, and the native window
//! identity.

use vstd::prelude::*;
use crate::monitor::MonitorHandle;
use crate::dpi::LogicalSize;
use crate::{MouseCursor, WindowAttributes};

verus! {

/// The identity of a native window object: the numeric value of the handle
/// the platform returned, stable for the window's lifetime.
#[derive(Debug, Copy, Clone, PartialEq, Eq, PartialOrd, Ord, Hash, Structural)]
pub struct Id(pub usize);

/// How the application presents itself to the platform when its first
/// window is created.
#[derive(Debug, Copy, Clone, PartialEq, Eq, Structural)]
pub enum ActivationPolicy {
    /// An ordinary application with a dock presence.
    Regular,
    /// A background application without a dock presence.
    Accessory,
    /// An application that never runs in the foreground.
    Prohibited,
}

impl Default for ActivationPolicy {
    fn default() -> (r: Self)
        ensures
            r == ActivationPolicy::Regular,
    {
        ActivationPolicy::Regular
    }
}

/// Window-builder switches that only some platforms understand.
#[derive(Debug, Clone)]
pub struct PlatformSpecificWindowBuilderAttributes {
    pub activation_policy: ActivationPolicy,
    pub movable_by_window_background: bool,
    pub titlebar_transparent: bool,
    pub title_hidden: bool,
    pub titlebar_hidden: bool,
    pub titlebar_buttons_hidden: bool,
    pub fullsize_content_view: bool,
    pub resize_increments: Option<LogicalSize>,
}

impl Default for PlatformSpecificWindowBuilderAttributes {
    fn default() -> (r: Self)
        ensures
            r.activation_policy == ActivationPolicy::Regular,
            r.movable_by_window_background == false,
            r.titlebar_transparent == false,
            r.title_hidden == false,
            r.titlebar_hidden == false,
            r.titlebar_buttons_hidden == false,
            r.fullsize_content_view == false,
            r.resize_increments is None,
    {
        PlatformSpecificWindowBuilderAttributes {
            activation_policy: ActivationPolicy::Regular,
            movable_by_window_background: false,
            titlebar_transparent: false,
            title_hidden: false,
            titlebar_hidden: false,
            titlebar_buttons_hidden: false,
            fullsize_content_view: false,
            resize_increments: None,
        }
    }
}

/// The mutable state the dispatch machinery shares with one window.
pub struct SharedState {
    pub resizable: bool,
    pub fullscreen: Option<MonitorHandle>,
    pub maximized: bool,
}

impl From<WindowAttributes> for SharedState {
    fn from(attribs: WindowAttributes) -> (r: Self)
        ensures
            r.resizable == attribs.resizable,
            r.fullscreen == attribs.fullscreen,
            r.maximized == attribs.maximized,
    {
        SharedState {
            resizable: attribs.resizable,
            fullscreen: attribs.fullscreen,
            maximized: attribs.maximized,
        }
    }
}

impl vstd::std_specs::convert::FromSpecImpl<WindowAttributes> for SharedState {
    open spec fn obeys_from_spec() -> bool {
        true
    }

    open spec fn from_spec(attribs: WindowAttributes) -> Self {
        SharedState {
            resizable: attribs.resizable,
            fullscreen: attribs.fullscreen,
            maximized: attribs.maximized,
        }
    }
}

/// The native cursor name each canonical cursor maps to.
pub open spec fn spec_cursor_native_name(cursor: MouseCursor) -> Seq<char> {
    match cursor {
        MouseCursor::Arrow | MouseCursor::Default => "arrowCursor"@,
        MouseCursor::Hand => "pointingHandCursor"@,
        MouseCursor::Grabbing | MouseCursor::Grab => "closedHandCursor"@,
        MouseCursor::Text => "IBeamCursor"@,
        MouseCursor::VerticalText => "IBeamCursorForVerticalLayout"@,
        MouseCursor::Copy => "dragCopyCursor"@,
        MouseCursor::Alias => "dragLinkCursor"@,
        MouseCursor::NotAllowed | MouseCursor::NoDrop => "operationNotAllowedCursor"@,
        MouseCursor::ContextMenu => "contextualMenuCursor"@,
        MouseCursor::Crosshair => "crosshairCursor"@,
        MouseCursor::EResize => "resizeRightCursor"@,
        MouseCursor::NResize => "resizeUpCursor"@,
        MouseCursor::WResize => "resizeLeftCursor"@,
        MouseCursor::SResize => "resizeDownCursor"@,
        MouseCursor::EwResize | MouseCursor::ColResize => "resizeLeftRightCursor"@,
        MouseCursor::NsResize | MouseCursor::RowResize => "resizeUpDownCursor"@,
        _ => "arrowCursor"@,
    }
}

/// The name of the native cursor object to select for `cursor`.
///
/// Cursors the platform has no direct counterpart for fall back to the
/// arrow cursor.
pub fn cursor_native_name(cursor: MouseCursor) -> (r: String)
    ensures
        r@ == spec_cursor_native_name(cursor),
{
    let name: &str = match cursor {
        MouseCursor::Arrow | MouseCursor::Default => "arrowCursor",
        MouseCursor::Hand => "pointingHandCursor",
        MouseCursor::Grabbing | MouseCursor::Grab => "closedHandCursor",
        MouseCursor::Text => "IBeamCursor",
        MouseCursor::VerticalText => "IBeamCursorForVerticalLayout",
        MouseCursor::Copy => "dragCopyCursor",
        MouseCursor::Alias => "dragLinkCursor",
        MouseCursor::NotAllowed | MouseCursor::NoDrop => "operationNotAllowedCursor",
        MouseCursor::ContextMenu => "contextualMenuCursor",
        MouseCursor::Crosshair => "crosshairCursor",
        MouseCursor::EResize => "resizeRightCursor",
        MouseCursor::NResize => "resizeUpCursor",
        MouseCursor::WResize => "resizeLeftCursor",
        MouseCursor::SResize => "resizeDownCursor",
        MouseCursor::EwResize | MouseCursor::ColResize => "resizeLeftRightCursor",
        MouseCursor::NsResize | MouseCursor::RowResize => "resizeUpDownCursor",
        _ => "arrowCursor",
    };
    name.to_owned()
}

} // verus!
