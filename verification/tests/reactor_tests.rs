use gameframe::device::{DeviceInitError, RenderContext};
use gameframe::errors::{DeviceOpenError, GraphicsInitError, PresentError};
use gameframe::geometry::Size;
use gameframe::input::QUIT_KEYSYM;
use gameframe::output::Mode;
use gameframe::reactor::{Action, Compositor, Event, LoopDecision};

fn hd_mode() -> Mode {
    Mode { size: Size { w: 1920, h: 1080 }, refresh_mhz: 60_000 }
}

/// A compositor with one initialized device, one 1920x1080 output, and the
/// seat that comes with it.
fn compositor_with_output() -> Compositor {
    let mut core = Compositor::new(Some(b"/dev/dri/card0".to_vec()));
    core.device_initialized(1, b"/dev/dri/card0".to_vec(), RenderContext {
        allocator: 100,
        gpu_context: 200,
    });
    let (index, _initial_plan) = core.register_output(hd_mode(), 300);
    assert_eq!(index, 0);
    core
}

#[test]
fn primary_gpu_hotplug_initializes_the_device() {
    let mut core = Compositor::new(Some(b"/dev/dri/card0".to_vec()));
    let act = core.dispatch(&Event::GpuAdded { id: 1, path: b"/dev/dri/card0".to_vec() });
    assert!(matches!(act, Action::InitializeDevice));
}

#[test]
fn secondary_gpu_hotplug_is_ignored() {
    let mut core = Compositor::new(Some(b"/dev/dri/card0".to_vec()));
    let act = core.dispatch(&Event::GpuAdded { id: 2, path: b"/dev/dri/card1".to_vec() });
    assert!(matches!(act, Action::Idle));
    let act = core.dispatch(&Event::GpuRemoved { id: 2 });
    assert!(matches!(act, Action::Idle));
}

#[test]
fn without_primary_path_no_device_comes_up() {
    let mut core = Compositor::new(None);
    let act = core.dispatch(&Event::GpuAdded { id: 1, path: b"/dev/dri/card0".to_vec() });
    assert!(matches!(act, Action::Idle));
}

#[test]
fn failed_device_init_keeps_the_reactor_running() {
    let mut core = Compositor::new(Some(b"/dev/dri/card0".to_vec()));
    for error in [
        DeviceInitError::Open(DeviceOpenError::AccessDenied),
        DeviceInitError::Graphics(GraphicsInitError::ContextNegotiation),
    ] {
        let act = core.dispatch(&Event::DeviceInitFailed { error });
        assert!(matches!(act, Action::Idle));
    }
    assert!(core.running);
    assert_eq!(core.devices.devices.len(), 0);
    assert_eq!(core.outputs.outputs.len(), 0);
}

#[test]
fn registered_output_comes_with_pipeline_and_seat() {
    let core = compositor_with_output();
    assert_eq!(core.outputs.outputs.len(), 1);
    assert_eq!(core.outputs.outputs[0].mode, hd_mode());
    assert_eq!(core.pipelines.len(), 1);
    assert_eq!(core.pipelines[0].surface, 300);
    assert_eq!(core.pipelines[0].tracker.size, Size { w: 1920, h: 1080 });
    assert_eq!(core.seats.len(), 1);
    assert!(core.seats[0].keyboard);
    assert!(core.seats[0].pointer);
    assert_eq!(core.seats[0].focus, None);
}

#[test]
fn pointer_delta_clamps_to_output_edge() {
    // Pointer delta (+5000, 0) from the origin on a 1920x1080 output clamps
    // the location to x = 1920.
    let mut core = compositor_with_output();
    let act = core.dispatch(&Event::PointerMotion { dx: 5000, dy: 0, time_msec: 10 });
    assert_eq!(core.pointer.x, 1920);
    assert_eq!(core.pointer.y, 0);
    // Nothing is mapped, so the motion empties the focus.
    assert!(matches!(act, Action::ClearFocus { time_msec: 10 }));
    assert_eq!(core.seats[0].focus, None);
}

#[test]
fn motion_over_window_delivers_translated_coordinates() {
    let mut core = compositor_with_output();
    let resize = core.new_toplevel(42, Size { w: 640, h: 480 });
    assert_eq!(resize, Some(Size { w: 1920, h: 1080 }));
    let act = core.dispatch(&Event::PointerMotion { dx: 100, dy: 80, time_msec: 5 });
    match act {
        Action::DeliverMotion { surface, relative, time_msec } => {
            assert_eq!(surface, 42);
            assert_eq!(relative.x, 100);
            assert_eq!(relative.y, 80);
            assert_eq!(time_msec, 5);
        },
        other => panic!("expected a motion delivery, got {:?}", other),
    }
    assert_eq!(core.seats[0].focus, Some(42));
}

#[test]
fn stationary_pointer_keeps_the_same_focus() {
    let mut core = compositor_with_output();
    core.new_toplevel(42, Size { w: 640, h: 480 });
    core.dispatch(&Event::PointerMotion { dx: 100, dy: 80, time_msec: 5 });
    let focus_before = core.seats[0].focus;
    let act = core.dispatch(&Event::PointerMotion { dx: 0, dy: 0, time_msec: 6 });
    assert!(matches!(act, Action::DeliverMotion { surface: 42, .. }));
    assert_eq!(core.seats[0].focus, focus_before);
}

#[test]
fn new_toplevel_is_asked_to_fill_the_output() {
    let mut core = compositor_with_output();
    let resize = core.new_toplevel(7, Size { w: 320, h: 200 });
    assert_eq!(resize, Some(Size { w: 1920, h: 1080 }));
    assert_eq!(core.space.windows.len(), 1);
    assert_eq!(core.space.windows[0].rect.size, Size { w: 1920, h: 1080 });
}

#[test]
fn toplevel_without_output_keeps_its_size() {
    let mut core = Compositor::new(None);
    let resize = core.new_toplevel(7, Size { w: 320, h: 200 });
    assert_eq!(resize, None);
    assert_eq!(core.space.windows[0].rect.size, Size { w: 320, h: 200 });
}

#[test]
fn x11_window_takes_the_same_mapping_path() {
    let mut core = compositor_with_output();
    let resize = core.new_x11_window(13, Size { w: 400, h: 300 });
    assert_eq!(resize, Some(Size { w: 1920, h: 1080 }));
    assert_eq!(core.space.windows[0].surface, 13);
}

#[test]
fn vblank_renders_the_primary_letterboxed() {
    let mut core = compositor_with_output();
    core.new_toplevel(42, Size { w: 640, h: 480 });
    // The auto-maximize policy sized the window to the output; shrink it
    // back to the client's size to exercise the scaled path.
    core.space.windows[0].rect.size = Size { w: 640, h: 480 };
    let act = core.dispatch(&Event::OutputReady { index: 0, time_msec: 16 });
    match act {
        Action::RenderFrame { index, plan } => {
            assert_eq!(index, 0);
            let primary = plan.primary.unwrap();
            assert_eq!(primary.surface, 42);
            assert_eq!(primary.placement.scale, 2);
            assert_eq!(plan.callbacks, vec![42]);
        },
        other => panic!("expected a frame, got {:?}", other),
    }
}

#[test]
fn dropped_frame_never_stops_the_loop() {
    let mut core = compositor_with_output();
    let act = core.dispatch(&Event::FrameQueued {
        index: 0,
        result: Err(PresentError::QueueFailed),
    });
    assert!(matches!(act, Action::Idle));
    assert!(core.running);
    assert_eq!(core.iteration_boundary(), LoopDecision::KeepRunning);
}

#[test]
fn shutdown_chord_stops_the_loop_at_the_iteration_boundary() {
    // The reserved chord is pressed while running == true: running flips to
    // false, the rest of the dispatch turn still completes, and the next
    // iteration boundary ends the loop.
    let mut core = compositor_with_output();
    assert!(core.running);
    let act = core.dispatch(&Event::Keyboard {
        ctrl: true,
        keysym: QUIT_KEYSYM,
        pressed: true,
        time_msec: 1,
    });
    assert!(matches!(act, Action::InterceptKey));
    assert!(!core.running);
    // A key already queued in the same turn is still dispatched normally.
    let act = core.dispatch(&Event::Keyboard {
        ctrl: false,
        keysym: 0x61,
        pressed: true,
        time_msec: 2,
    });
    assert!(matches!(act, Action::ForwardKey { time_msec: 2 }));
    assert!(!core.running);
    assert_eq!(core.iteration_boundary(), LoopDecision::Stop);
}

#[test]
fn ordinary_keys_reach_the_client() {
    let mut core = compositor_with_output();
    let act = core.dispatch(&Event::Keyboard {
        ctrl: true,
        keysym: 0x63,
        pressed: true,
        time_msec: 9,
    });
    assert!(matches!(act, Action::ForwardKey { time_msec: 9 }));
    assert!(core.running);
    assert_eq!(core.iteration_boundary(), LoopDecision::KeepRunning);
}

#[test]
fn input_device_hotplug_is_logged_only() {
    let mut core = compositor_with_output();
    assert!(matches!(core.dispatch(&Event::InputDeviceAdded), Action::Idle));
    assert!(matches!(core.dispatch(&Event::InputDeviceRemoved), Action::Idle));
    assert!(core.running);
}
