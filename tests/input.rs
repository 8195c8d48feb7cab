use orbit_camera::camera::{Camera, CameraPosition};
use orbit_camera::fixed::Point3;
use orbit_camera::input::{Action, Cursor, InputEvent, Interaction, Key, DRAG_BUTTON};

fn orbiting() -> Camera {
    Camera::new(CameraPosition::SphericalAbout { origin: Point3::zero(), radius: 3_000_000, theta: 0, phi: 0 })
}

fn press() -> InputEvent {
    InputEvent::MouseButton { button: DRAG_BUTTON, action: Action::Press }
}

fn release() -> InputEvent {
    InputEvent::MouseButton { button: DRAG_BUTTON, action: Action::Release }
}

#[test]
fn drag_scenario_turns_azimuth() {
    let mut s = Interaction::new();
    let mut c = orbiting();
    s.handle(&mut c, InputEvent::CursorMove { x: 100, y: 100 });
    assert_eq!(s.drag_origin, Cursor { x: 100, y: 100 });
    assert!(!s.dragging);
    s.handle(&mut c, press());
    assert!(s.dragging);
    s.handle(&mut c, InputEvent::CursorMove { x: 150, y: 100 });
    assert_eq!(s.last_cursor, Cursor { x: 150, y: 100 });
    assert_eq!(s.drag_origin, Cursor { x: 100, y: 100 });
    match c.position() {
        CameraPosition::SphericalAbout { theta, phi, .. } => {
            assert!(theta > 0);
            assert_eq!(theta, 100);
            assert_eq!(phi, 0);
        }
        _ => panic!("expected an orbiting camera"),
    }
}

#[test]
fn idle_cursor_moves_leave_camera_alone() {
    let mut s = Interaction::new();
    let mut c = orbiting();
    let before = c.position();
    s.handle(&mut c, InputEvent::CursorMove { x: 5, y: 6 });
    s.handle(&mut c, InputEvent::CursorMove { x: 50, y: 60 });
    assert_eq!(c.position(), before);
    assert_eq!(s, Interaction { dragging: false, last_cursor: Cursor { x: 50, y: 60 }, drag_origin: Cursor { x: 50, y: 60 } });
}

#[test]
fn reference_is_the_drag_so_far() {
    let mut s = Interaction::new();
    let mut c = orbiting();
    s.handle(&mut c, InputEvent::CursorMove { x: 0, y: 0 });
    s.handle(&mut c, press());
    s.handle(&mut c, InputEvent::CursorMove { x: 0, y: 100 });
    s.handle(&mut c, InputEvent::CursorMove { x: 10, y: 100 });
    // the drag so far is (10, 100): still vertical, so only phi moves, by the last dy of 0
    match c.position() {
        CameraPosition::SphericalAbout { theta, phi, .. } => {
            assert_eq!(theta, 0);
            assert_eq!(phi, 800);
        }
        _ => panic!("expected an orbiting camera"),
    }
}

#[test]
fn release_ends_the_drag() {
    let mut s = Interaction::new();
    let mut c = orbiting();
    s.handle(&mut c, press());
    s.handle(&mut c, release());
    assert!(!s.dragging);
    let before = c.position();
    s.handle(&mut c, InputEvent::CursorMove { x: 500, y: 0 });
    assert_eq!(c.position(), before);
}

#[test]
fn other_buttons_are_ignored() {
    let mut s = Interaction::new();
    let mut c = orbiting();
    s.handle(&mut c, InputEvent::MouseButton { button: 0, action: Action::Press });
    assert!(!s.dragging);
    s.handle(&mut c, InputEvent::Key { key: Key::Other, action: Action::Press });
    assert_eq!(s, Interaction::new());
}

#[test]
fn second_press_keeps_the_drag_origin() {
    let mut s = Interaction::new();
    let mut c = orbiting();
    s.handle(&mut c, InputEvent::CursorMove { x: 1, y: 2 });
    s.handle(&mut c, press());
    s.handle(&mut c, InputEvent::CursorMove { x: 3, y: 4 });
    s.handle(&mut c, press());
    assert_eq!(s.drag_origin, Cursor { x: 1, y: 2 });
    assert!(s.dragging);
}

#[test]
fn scroll_zooms_in_any_state() {
    let mut s = Interaction::new();
    let mut c = orbiting();
    s.handle(&mut c, InputEvent::Scroll { amount: 1_000 });
    s.handle(&mut c, press());
    s.handle(&mut c, InputEvent::Scroll { amount: 1_000 });
    match c.position() {
        CameraPosition::SphericalAbout { radius, .. } => assert_eq!(radius, 2_800_000),
        _ => panic!("expected an orbiting camera"),
    }
}

#[test]
fn drag_pans_a_free_camera() {
    let mut s = Interaction::new();
    let mut c = Camera::new(CameraPosition::Absolute { position: Point3::new(0, 0, 1_000_000), look_at: Point3::zero() });
    s.handle(&mut c, InputEvent::CursorMove { x: 1_000, y: 1_000 });
    s.handle(&mut c, press());
    s.handle(&mut c, InputEvent::CursorMove { x: 2_000, y: 500 });
    assert_eq!(
        c.position(),
        CameraPosition::Absolute { position: Point3::new(-2_000, -1_000, 1_000_000), look_at: Point3::new(-2_000, -1_000, 0) }
    );
}
