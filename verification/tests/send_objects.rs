use winit::event_loop::EventLoopProxy;
use winit::{DeviceId, MonitorHandle, Window, WindowId};

fn needs_send<T: Send>() {}

#[test]
fn event_loop_proxy_send() {
    // ensures that `winit::event_loop::EventLoopProxy` implements `Send`
    needs_send::<EventLoopProxy>();
}

#[test]
fn window_send() {
    // ensures that `winit::Window` implements `Send`
    needs_send::<Window>();
}

#[test]
fn dummy_ids_are_stable() {
    assert_eq!(WindowId::dummy(), WindowId::dummy());
    assert_eq!(DeviceId::dummy(), DeviceId::dummy());
}

#[test]
fn ids_send() {
    // ensures that the various `..Id` types implement `Send`
    needs_send::<WindowId>();
    needs_send::<DeviceId>();
    needs_send::<MonitorHandle>();
}
