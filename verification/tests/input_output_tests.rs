use gameframe::errors::{BufferImportError, SurfaceCreateError};
use gameframe::geometry::{Point, Size};
use gameframe::input::{apply_motion, filter_key, KeyFilter, PointerLocation, QUIT_KEYSYM};
use gameframe::output::{
    choose_connector_mode, select_connector, select_mode, Connector, ConnectorStatus,
    DamageTracker, Mode, OutputManager,
};
use gameframe::render::{plan_frame, retain_imported, DirectPlacement};
use gameframe::space::{Space, WindowKind};

fn mode(w: i32, h: i32) -> Mode {
    Mode { size: Size { w, h }, refresh_mhz: 60_000 }
}

#[test]
fn pointer_clamps_to_output_bounds() {
    let start = PointerLocation::origin();
    let bounds = Some(Size { w: 1920, h: 1080 });
    let moved = apply_motion(start, 5000, 0, bounds);
    assert_eq!(moved.x, 1920);
    assert_eq!(moved.y, 0);
    let moved = apply_motion(moved, -10_000, -3, bounds);
    assert_eq!(moved.x, 0);
    assert_eq!(moved.y, 0);
}

#[test]
fn pointer_end_of_range_is_inclusive() {
    let loc = PointerLocation { x: 1919, y: 1079 };
    let moved = apply_motion(loc, 1, 1, Some(Size { w: 1920, h: 1080 }));
    assert_eq!(moved.x, 1920);
    assert_eq!(moved.y, 1080);
}

#[test]
fn pointer_accumulates_without_output() {
    let moved = apply_motion(PointerLocation { x: -50, y: 70 }, -30, 9000, None);
    assert_eq!(moved.x, -80);
    assert_eq!(moved.y, 9070);
}

#[test]
fn reserved_chord_press_requests_shutdown() {
    let mut running = true;
    let r = filter_key(&mut running, true, QUIT_KEYSYM, true);
    assert_eq!(r, KeyFilter::Intercept);
    assert!(!running);
}

#[test]
fn reserved_chord_release_is_intercepted_but_keeps_running() {
    let mut running = true;
    let r = filter_key(&mut running, true, QUIT_KEYSYM, false);
    assert_eq!(r, KeyFilter::Intercept);
    assert!(running);
}

#[test]
fn other_keys_are_forwarded_unmodified() {
    let mut running = true;
    assert_eq!(filter_key(&mut running, false, QUIT_KEYSYM, true), KeyFilter::Forward);
    assert_eq!(filter_key(&mut running, true, 0x61, true), KeyFilter::Forward);
    assert!(running);
}

#[test]
fn first_connected_connector_wins() {
    let connectors = vec![
        Connector { status: ConnectorStatus::Disconnected, modes: vec![mode(800, 600)] },
        Connector { status: ConnectorStatus::Connected, modes: vec![mode(1920, 1080), mode(800, 600)] },
        Connector { status: ConnectorStatus::Connected, modes: vec![mode(640, 480)] },
    ];
    assert_eq!(select_connector(&connectors), Ok(1));
    let (i, m) = choose_connector_mode(&connectors).unwrap();
    assert_eq!(i, 1);
    assert_eq!(m, mode(1920, 1080));
}

#[test]
fn no_connected_connector_is_an_error() {
    let connectors = vec![
        Connector { status: ConnectorStatus::Disconnected, modes: vec![mode(800, 600)] },
        Connector { status: ConnectorStatus::Unknown, modes: vec![] },
    ];
    assert_eq!(select_connector(&connectors), Err(SurfaceCreateError::NoConnectedConnector));
    assert_eq!(
        choose_connector_mode(&connectors),
        Err(SurfaceCreateError::NoConnectedConnector)
    );
}

#[test]
fn connected_connector_without_modes_is_an_error() {
    let bare = Connector { status: ConnectorStatus::Connected, modes: vec![] };
    assert_eq!(select_mode(&bare), Err(SurfaceCreateError::NoMode));
    let connectors = vec![bare];
    assert_eq!(choose_connector_mode(&connectors), Err(SurfaceCreateError::NoMode));
}

#[test]
fn outputs_line_up_left_to_right() {
    let mut manager = OutputManager::new();
    assert_eq!(manager.first_bounds(), None);
    let first = manager.add_output(mode(1920, 1080));
    assert_eq!(first, 0);
    assert_eq!(manager.outputs[0].position, Point { x: 0, y: 0 });
    let second = manager.add_output(mode(1280, 1024));
    assert_eq!(second, 1);
    assert_eq!(manager.outputs[1].position, Point { x: 1920, y: 0 });
    assert_eq!(manager.first_bounds(), Some(Size { w: 1920, h: 1080 }));
}

#[test]
fn frame_plan_scales_primary_and_keeps_the_rest() {
    let mut space = Space::new();
    space.map_toplevel(9, WindowKind::Native, Size { w: 300, h: 200 }, None);
    space.map_toplevel(8, WindowKind::Native, Size { w: 640, h: 480 }, None);
    // Window 8 is now primary; window 9 sits behind it.
    let plan = plan_frame(&space, Size { w: 1920, h: 1080 });
    let primary = plan.primary.unwrap();
    assert_eq!(primary.surface, 8);
    assert_eq!(primary.placement.scale, 2);
    assert_eq!(primary.placement.rect.pos, Point { x: 320, y: 60 });
    assert_eq!(plan.direct.len(), 1);
    assert_eq!(plan.direct[0].surface, 9);
    assert_eq!(plan.direct[0].pos, Point { x: 0, y: 0 });
    assert_eq!(plan.callbacks, vec![8, 9]);
}

#[test]
fn frame_plan_for_empty_space_draws_nothing() {
    let space = Space::new();
    let plan = plan_frame(&space, Size { w: 1920, h: 1080 });
    assert!(plan.primary.is_none());
    assert!(plan.direct.is_empty());
    assert!(plan.callbacks.is_empty());
}

#[test]
fn failed_import_skips_only_that_window() {
    let direct = vec![
        DirectPlacement { surface: 1, pos: Point { x: 0, y: 0 } },
        DirectPlacement { surface: 2, pos: Point { x: 10, y: 0 } },
        DirectPlacement { surface: 3, pos: Point { x: 20, y: 0 } },
    ];
    let imports: Vec<Result<(), BufferImportError>> =
        vec![Ok(()), Err(BufferImportError::ImportFailed), Ok(())];
    let kept = retain_imported(&direct, &imports);
    assert_eq!(kept.len(), 2);
    assert_eq!(kept[0].surface, 1);
    assert_eq!(kept[1].surface, 3);
}

#[test]
fn damage_tracker_reports_the_full_frame() {
    let tracker = DamageTracker::from_mode(mode(1920, 1080));
    let damage = tracker.frame_damage();
    assert_eq!(damage.pos, Point { x: 0, y: 0 });
    assert_eq!(damage.size, Size { w: 1920, h: 1080 });
}
