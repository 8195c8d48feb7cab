//! The input dispatcher: a two-state machine (idle or dragging) that turns
//! raw input events into camera operations.
use vstd::prelude::*;
use crate::camera::{orbit_result, pan_result, phi_in_range, zoom_result, Camera, CameraPosition};
use crate::fixed::{sat, sub_sat};

verus! {

/// The mouse button that drags the camera: the middle button, counting the
/// primary button as `0`.
pub const DRAG_BUTTON: u8 = 2;

/// What happened to a button or key.
#[derive(Clone, Copy, Debug, PartialEq, Eq, Structural)]
pub enum Action {
    Press,
    Release,
    Repeat,
}

/// The keys the viewer tells apart.
#[derive(Clone, Copy, Debug, PartialEq, Eq, Structural)]
pub enum Key {
    Escape,
    Other,
}

/// One input event, in the viewer's fixed-point units.
#[derive(Clone, Copy, Debug, PartialEq, Eq, Structural)]
pub enum InputEvent {
    /// The framebuffer now has this size in pixels.
    Resize { width: i32, height: i32 },
    /// The cursor is now at `(x, y)`, in thousandths of a screen unit.
    CursorMove { x: i64, y: i64 },
    /// A mouse button, counting the primary button as `0`.
    MouseButton { button: u8, action: Action },
    /// Vertical scroll, in thousandths of a wheel step.
    Scroll { amount: i64 },
    Key { key: Key, action: Action },
    /// The window was asked to close.
    Close,
}

/// A cursor position, in thousandths of a screen unit.
#[derive(Clone, Copy, Debug, PartialEq, Eq, Structural)]
pub struct Cursor {
    pub x: i64,
    pub y: i64,
}

/// The short-lived state of a drag.
#[derive(Clone, Copy, Debug, PartialEq, Eq, Structural)]
pub struct Interaction {
    /// Whether the drag button is held.
    pub dragging: bool,
    /// Where the cursor was last seen.
    pub last_cursor: Cursor,
    /// Where the current drag began; while idle, the last cursor position.
    pub drag_origin: Cursor,
}

/// The interaction state and camera after `e`.
pub open spec fn dispatch(s: Interaction, cam: CameraPosition, e: InputEvent) -> (Interaction, CameraPosition) {
    match e {
        InputEvent::CursorMove { x, y } =>
            if s.dragging {
                let dx = sat(x - s.last_cursor.x);
                let dy = sat(y - s.last_cursor.y);
                let panned = pan_result(cam, dx, dy);
                let turned = orbit_result(panned, dx, dy, sat(x - s.drag_origin.x), sat(y - s.drag_origin.y));
                (Interaction { last_cursor: Cursor { x, y }, ..s }, turned)
            } else {
                (Interaction { dragging: false, last_cursor: Cursor { x, y }, drag_origin: Cursor { x, y } }, cam)
            },
        InputEvent::MouseButton { button, action } =>
            if button != DRAG_BUTTON {
                (s, cam)
            } else if action is Press && !s.dragging {
                (Interaction { dragging: true, drag_origin: s.last_cursor, ..s }, cam)
            } else if action is Release {
                (Interaction { dragging: false, ..s }, cam)
            } else {
                (s, cam)
            },
        InputEvent::Scroll { amount } => (s, zoom_result(cam, amount as int)),
        _ => (s, cam),
    }
}

/// The interaction state and camera after each event of `events`, in order.
pub open spec fn dispatch_all(s: Interaction, cam: CameraPosition, events: Seq<InputEvent>) -> (Interaction, CameraPosition)
    decreases events.len(),
{
    if events.len() == 0 {
        (s, cam)
    } else {
        let next = dispatch(s, cam, events[0]);
        dispatch_all(next.0, next.1, events.drop_first())
    }
}

/// Whatever events arrive, an orbiting camera's elevation stays within a
/// quarter turn of the horizon.
pub proof fn lemma_events_keep_elevation(s: Interaction, cam: CameraPosition, events: Seq<InputEvent>)
    requires
        phi_in_range(cam),
    ensures
        phi_in_range(dispatch_all(s, cam, events).1),
    decreases events.len(),
{
    if events.len() > 0 {
        let next = dispatch(s, cam, events[0]);
        lemma_events_keep_elevation(next.0, next.1, events.drop_first());
    }
}

impl Interaction {
    /// Idle, with the cursor at the origin.
    pub open spec fn new_spec() -> Interaction {
        Interaction { dragging: false, last_cursor: Cursor { x: 0, y: 0 }, drag_origin: Cursor { x: 0, y: 0 } }
    }

    /// Idle, with the cursor at the origin.
    pub fn new() -> (r: Interaction)
        ensures
            r == Interaction::new_spec(),
    {
        Interaction { dragging: false, last_cursor: Cursor { x: 0, y: 0 }, drag_origin: Cursor { x: 0, y: 0 } }
    }

    /// Applies `event` to the drag state and to `camera`. Resizes, keys and
    /// close requests are left to the caller.
    pub fn handle(&mut self, camera: &mut Camera, event: InputEvent)
        ensures
            (*final(self), final(camera)@) == dispatch(*old(self), old(camera)@, event),
    {
        match event {
            InputEvent::CursorMove { x, y } => {
                if self.dragging {
                    let dx = sub_sat(x, self.last_cursor.x);
                    let dy = sub_sat(y, self.last_cursor.y);
                    let reference = (sub_sat(x, self.drag_origin.x), sub_sat(y, self.drag_origin.y));
                    camera.pan(dx, dy);
                    camera.orbit(dx, dy, reference);
                } else {
                    self.drag_origin = Cursor { x, y };
                }
                self.last_cursor = Cursor { x, y };
            },
            InputEvent::MouseButton { button, action } => {
                if button == DRAG_BUTTON {
                    match action {
                        Action::Press => {
                            if !self.dragging {
                                self.dragging = true;
                                self.drag_origin = self.last_cursor;
                            }
                        },
                        Action::Release => {
                            self.dragging = false;
                        },
                        Action::Repeat => {},
                    }
                }
            },
            InputEvent::Scroll { amount } => {
                camera.zoom(amount);
            },
            _ => {},
        }
    }
}

} // verus!
