//! The frame driver's state: camera, drag state and viewport, and the
//! decisions taken on each event and each frame. The host performs them.
use vstd::prelude::*;
use crate::camera::{normalized, Camera, CameraPosition, HALF_PI};
use crate::fixed::Point3;
use crate::input::{dispatch, Action, InputEvent, Interaction, Key};

verus! {

/// The vertical field of view before it is divided by the aspect ratio, in
/// degrees.
pub const FOVY_BASE_DEGREES: u64 = 90;

/// Initial orbit radius, in micro-units.
pub const INITIAL_RADIUS: i64 = 3_000_000;

/// A non-negative rational number `num / den`.
#[derive(Clone, Copy, Debug, PartialEq, Eq, Structural)]
pub struct Ratio {
    pub num: u64,
    pub den: u64,
}

/// The parameters of the perspective projection.
#[derive(Clone, Copy, Debug, PartialEq, Eq, Structural)]
pub struct Perspective {
    /// Width over height.
    pub aspect: Ratio,
    /// The vertical field of view in degrees: the base field of view divided
    /// by the aspect ratio.
    pub fovy_degrees: Ratio,
    pub near: Ratio,
    pub far: Ratio,
}

/// The pixel rectangle the image is drawn into.
#[derive(Clone, Copy, Debug, PartialEq, Eq, Structural)]
pub struct Viewport {
    pub width: i32,
    pub height: i32,
}

/// The projection for a `width` by `height` viewport.
pub open spec fn perspective_of(width: int, height: int) -> Perspective {
    Perspective {
        aspect: Ratio { num: width as u64, den: height as u64 },
        fovy_degrees: Ratio { num: (FOVY_BASE_DEGREES * height) as u64, den: width as u64 },
        near: Ratio { num: 1, den: 10 },
        far: Ratio { num: 1000, den: 1 },
    }
}

impl Viewport {
    /// The projection for this viewport, or `None` when it has no area.
    pub fn perspective(&self) -> (r: Option<Perspective>)
        ensures
            r == (if self.width > 0 && self.height > 0 {
                Some(perspective_of(self.width as int, self.height as int))
            } else {
                None
            }),
    {
        if self.width > 0 && self.height > 0 {
            let w = self.width as u64;
            let h = self.height as u64;
            Some(
                Perspective {
                    aspect: Ratio { num: w, den: h },
                    fovy_degrees: Ratio { num: FOVY_BASE_DEGREES * h, den: w },
                    near: Ratio { num: 1, den: 10 },
                    far: Ratio { num: 1000, den: 1 },
                },
            )
        } else {
            None
        }
    }
}

/// What the host must do after an event.
#[derive(Clone, Copy, Debug, PartialEq, Eq, Structural)]
pub enum Response {
    /// Nothing beyond drawing the next frame.
    Continue,
    /// Apply the new viewport rectangle `(0, 0, width, height)`.
    SetViewport { width: i32, height: i32 },
    /// Stop the frame loop.
    Close,
}

/// What the host must do after `e`.
pub open spec fn response_to(e: InputEvent) -> Response {
    match e {
        InputEvent::Resize { width, height } => Response::SetViewport { width, height },
        InputEvent::Key { key: Key::Escape, action: Action::Press } => Response::Close,
        InputEvent::Close => Response::Close,
        _ => Response::Continue,
    }
}

/// The camera the viewer starts with: orbiting the world origin at three
/// units, on the positive `z` side, level with the horizon.
pub open spec fn initial_position() -> CameraPosition {
    CameraPosition::SphericalAbout {
        origin: Point3 { x: 0, y: 0, z: 0 },
        radius: INITIAL_RADIUS,
        theta: HALF_PI,
        phi: 0,
    }
}

/// Everything the frame driver owns.
#[derive(Debug)]
pub struct Viewer {
    pub camera: Camera,
    pub interaction: Interaction,
    pub viewport: Viewport,
}

impl Viewer {
    /// The starting state for a `width` by `height` framebuffer.
    pub fn new(width: i32, height: i32) -> (r: Viewer)
        ensures
            r.camera@ == initial_position(),
            r.interaction == Interaction::new_spec(),
            r.viewport == (Viewport { width, height }),
    {
        let camera = Camera::new(
            CameraPosition::SphericalAbout { origin: Point3::zero(), radius: INITIAL_RADIUS, theta: HALF_PI, phi: 0 },
        );
        Viewer { camera, interaction: Interaction::new(), viewport: Viewport { width, height } }
    }

    /// Takes one event: resizes update the viewport, the rest go to the
    /// input dispatcher. Says what the host must do.
    pub fn handle_event(&mut self, event: InputEvent) -> (r: Response)
        ensures
            r == response_to(event),
            (final(self).interaction, final(self).camera@) == dispatch(old(self).interaction, old(self).camera@, event),
            final(self).viewport == (match event {
                InputEvent::Resize { width, height } => Viewport { width, height },
                _ => old(self).viewport,
            }),
    {
        self.interaction.handle(&mut self.camera, event);
        match event {
            InputEvent::Resize { width, height } => {
                self.viewport = Viewport { width, height };
                Response::SetViewport { width, height }
            },
            InputEvent::Key { key: Key::Escape, action: Action::Press } => Response::Close,
            InputEvent::Close => Response::Close,
            _ => Response::Continue,
        }
    }

    /// The camera to build the view matrix from, and the projection for the
    /// current viewport (`None` while it has no area).
    pub fn frame(&self) -> (r: (CameraPosition, Option<Perspective>))
        ensures
            r.0 == self.camera@,
            r.1 == (if self.viewport.width > 0 && self.viewport.height > 0 {
                Some(perspective_of(self.viewport.width as int, self.viewport.height as int))
            } else {
                None
            }),
    {
        (self.camera.position(), self.viewport.perspective())
    }
}

} // verus!
