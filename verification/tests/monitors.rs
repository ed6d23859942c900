use winit::dpi::{PhysicalPosition, PhysicalSize};
use winit::events_loop::EventsLoop;
use winit::monitor::{
    finalize_monitor_list, get_monitor_for_window, version_is_at_least, MonitorHandle, VideoMode,
};
use winit::util::AaRect;
use winit::window::cursor_native_name;
use winit::window::SharedState;
use winit::{CreationError, MouseCursor, WindowAttributes, WindowBuilder};

fn monitor(id: u32, name: &str, pos: (i32, i32), dims: (u32, u32), primary: bool) -> MonitorHandle {
    MonitorHandle::from_repr(id, name.to_string(), 1000, Vec::new(), dims, pos, primary)
}

#[test]
fn rect_overlap_area() {
    let a = AaRect::new((0, 0), (100, 50));
    let b = AaRect::new((50, 25), (100, 50));
    assert_eq!(a.get_overlapping_area(&b), 50 * 25);
    // disjoint rectangles share nothing
    let c = AaRect::new((200, 200), (10, 10));
    assert_eq!(a.get_overlapping_area(&c), 0);
    // a rectangle overlaps itself entirely
    assert_eq!(a.get_overlapping_area(&a), 100 * 50);
}

#[test]
fn overlap_area_at_extreme_coordinates() {
    // the largest rectangle a platform can report still has an exact area
    let r = AaRect::new((i32::MIN, i32::MIN), (u32::MAX, u32::MAX));
    let side = u128::from(u32::MAX);
    assert_eq!(r.get_overlapping_area(&r), side * side);
}

#[test]
fn primary_fallback() {
    // no monitor reported primary: the first becomes primary
    let list = vec![monitor(1, "a", (0, 0), (100, 100), false), monitor(2, "b", (100, 0), (100, 100), false)];
    let fixed = finalize_monitor_list(list);
    assert!(fixed[0].primary);
    assert!(!fixed[1].primary);

    // a reported primary is kept as it is
    let list = vec![monitor(1, "a", (0, 0), (100, 100), false), monitor(2, "b", (100, 0), (100, 100), true)];
    let fixed = finalize_monitor_list(list);
    assert!(!fixed[0].primary);
    assert!(fixed[1].primary);
}

#[test]
fn monitor_for_window_prefers_largest_overlap() {
    let monitors = vec![
        monitor(1, "left", (0, 0), (100, 100), true),
        monitor(2, "right", (100, 0), (100, 100), false),
    ];
    // a window mostly on the right monitor
    let rect = AaRect::new((80, 10), (60, 30));
    let m = get_monitor_for_window(&monitors, Some(rect));
    assert_eq!(m.id, 2);
    // no rectangle: the first monitor
    let m = get_monitor_for_window(&monitors, None);
    assert_eq!(m.id, 1);
    // no overlap anywhere: the first monitor
    let rect = AaRect::new((500, 500), (10, 10));
    let m = get_monitor_for_window(&monitors, Some(rect));
    assert_eq!(m.id, 1);
    // an exact tie keeps the earlier monitor
    let rect = AaRect::new((90, 0), (20, 100));
    let m = get_monitor_for_window(&monitors, Some(rect));
    assert_eq!(m.id, 1);
}

#[test]
fn monitor_cache_and_invalidation() {
    let mut el = EventsLoop::new();
    let mut iter = el.get_available_monitors(vec![monitor(1, "a", (0, 0), (10, 10), true)]);
    assert_eq!(iter.size_hint(), 1);
    let first = iter.next().unwrap();
    assert_eq!(first.native_identifier(), 1);
    assert!(iter.next().is_none());

    // the cache answers later queries: the new list is ignored
    let mut iter = el.get_available_monitors(vec![monitor(2, "b", (0, 0), (10, 10), true)]);
    assert_eq!(iter.next().unwrap().native_identifier(), 1);

    // invalidation hands back the cached list and empties the cache
    let cached = el.invalidate_cached_monitor_list();
    assert_eq!(cached.unwrap()[0].id, 1);
    let mut iter = el.get_available_monitors(vec![monitor(2, "b", (0, 0), (10, 10), true)]);
    assert_eq!(iter.next().unwrap().native_identifier(), 2);
}

#[test]
fn primary_monitor_lookup() {
    let mut el = EventsLoop::new();
    let queried = vec![
        monitor(1, "a", (0, 0), (10, 10), false),
        monitor(2, "b", (10, 0), (10, 10), true),
        monitor(3, "c", (20, 0), (10, 10), true),
    ];
    let primary = el.get_primary_monitor(queried);
    assert_eq!(primary.native_identifier(), 2);
}

#[test]
fn monitor_descriptor_accessors() {
    let m = MonitorHandle::from_repr(
        7,
        "display".to_string(),
        1500,
        vec![VideoMode { width: 1920, height: 1080, bit_depth: 24, refresh_rate: 60 }],
        (1920, 1080),
        (-10, 20),
        true,
    );
    assert_eq!(m.name(), Some("display".to_string()));
    assert_eq!(m.get_name(), Some("display".to_string()));
    assert_eq!(m.size(), PhysicalSize { width: 1920, height: 1080 });
    assert_eq!(m.get_dimensions(), PhysicalSize { width: 1920, height: 1080 });
    assert_eq!(m.position(), PhysicalPosition { x: -10, y: 20 });
    assert_eq!(m.get_position(), PhysicalPosition { x: -10, y: 20 });
    assert_eq!(m.hidpi_factor(), 1500);
    assert_eq!(m.get_hidpi_factor(), 1500);
    assert_eq!(m.video_modes().len(), 1);
    assert_eq!(m.rect, AaRect { left: -10, top: 20, right: 1910, bottom: 1100 });
    let copy = m.clone();
    assert_eq!(copy.id, 7);
    assert_eq!(copy.name, "display");
}

#[test]
fn xrandr_version_comparison() {
    assert!(version_is_at_least((1, 5), 1, 3));
    assert!(version_is_at_least((1, 3), 1, 3));
    assert!(!version_is_at_least((1, 2), 1, 3));
    assert!(version_is_at_least((2, 0), 1, 5));
    assert!(!version_is_at_least((0, 9), 1, 0));
}

#[test]
fn creation_error_text() {
    assert_eq!(
        CreationError::OsError("window refused".to_string()).to_string(),
        "window refused"
    );
    assert_eq!(
        CreationError::NotSupported.to_string(),
        "Some of the requested attributes are not supported"
    );
}

#[test]
fn cursor_names() {
    assert_eq!(cursor_native_name(MouseCursor::Default), "arrowCursor");
    assert_eq!(cursor_native_name(MouseCursor::Arrow), "arrowCursor");
    assert_eq!(cursor_native_name(MouseCursor::Hand), "pointingHandCursor");
    assert_eq!(cursor_native_name(MouseCursor::VerticalText), "IBeamCursorForVerticalLayout");
    assert_eq!(cursor_native_name(MouseCursor::RowResize), "resizeUpDownCursor");
    // cursors without a native counterpart fall back to the arrow
    assert_eq!(cursor_native_name(MouseCursor::ZoomIn), "arrowCursor");
    assert_eq!(MouseCursor::default(), MouseCursor::Default);
}

#[test]
fn default_window_attributes() {
    let attribs = WindowAttributes::default();
    assert_eq!(attribs.title, "winit window");
    assert!(attribs.resizable);
    assert!(attribs.visible);
    assert!(attribs.decorations);
    assert!(!attribs.maximized);
    assert!(!attribs.transparent);
    assert!(!attribs.always_on_top);
    assert!(!attribs.multitouch);
    assert!(attribs.dimensions.is_none());
    assert!(attribs.min_dimensions.is_none());
    assert!(attribs.max_dimensions.is_none());
    assert!(attribs.fullscreen.is_none());
    assert!(attribs.window_icon.is_none());

    let builder = WindowBuilder::new();
    assert_eq!(builder.window.title, "winit window");
    assert!(builder.platform_specific.resize_increments.is_none());
}

#[test]
fn shared_state_from_attributes() {
    let mut attribs = WindowAttributes::default();
    attribs.resizable = false;
    attribs.maximized = true;
    let state = SharedState::from(attribs);
    assert!(!state.resizable);
    assert!(state.maximized);
    assert!(state.fullscreen.is_none());
}
