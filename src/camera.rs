//! The camera model: two mutually exclusive representations of the camera,
//! and the operations that move it.
//!
//! Each operation applies to one representation only and leaves the other
//! untouched, so that the input handling can call all of them without first
//! asking which representation is active.
use vstd::prelude::*;
use crate::fixed::{mul_wide, sat, saturate, Point3};

verus! {

/// A quarter turn in microradians: the bound on the elevation angle.
pub const HALF_PI: i64 = 1_570_796;

/// Change of azimuth per unit of horizontal drag (microradians per
/// thousandth of a screen unit).
pub const ORBIT_AZIMUTH_STEP: i64 = 2;

/// Change of elevation per unit of vertical drag.
pub const ORBIT_ELEVATION_STEP: i64 = 8;

/// World-space translation per unit of drag while panning (micro-units per
/// thousandth of a screen unit).
pub const PAN_STEP: i64 = 2;

/// Change of orbit radius per unit of scroll (micro-units per thousandth of
/// a wheel step).
pub const ZOOM_STEP: i64 = 100;

/// Where the camera is and where it looks.
#[derive(Clone, Copy, Debug, PartialEq, Eq, Structural)]
pub enum CameraPosition {
    /// On a sphere of `radius` about `origin`, at azimuth `theta` and
    /// elevation `phi`, facing the centre.
    SphericalAbout { origin: Point3, radius: i64, theta: i64, phi: i64 },
    /// At `position`, looking at `look_at`.
    Absolute { position: Point3, look_at: Point3 },
}

/// `phi` clamped into `[-HALF_PI, HALF_PI]`.
pub open spec fn clamp_phi(phi: int) -> int {
    if phi < -HALF_PI {
        -HALF_PI as int
    } else if phi > HALF_PI {
        HALF_PI as int
    } else {
        phi
    }
}

/// The elevation of an orbiting camera lies within a quarter turn of the
/// horizon; a free camera has no elevation to bound.
pub open spec fn phi_in_range(p: CameraPosition) -> bool {
    match p {
        CameraPosition::SphericalAbout { phi, .. } => -HALF_PI <= phi <= HALF_PI,
        CameraPosition::Absolute { .. } => true,
    }
}

/// `p` with its elevation clamped into range.
pub open spec fn normalized(p: CameraPosition) -> CameraPosition {
    match p {
        CameraPosition::SphericalAbout { origin, radius, theta, phi } =>
            CameraPosition::SphericalAbout { origin, radius, theta, phi: clamp_phi(phi as int) as i64 },
        CameraPosition::Absolute { .. } => p,
    }
}

/// The magnitude of `v`.
pub open spec fn abs(v: int) -> int {
    if v < 0 {
        -v
    } else {
        v
    }
}

/// Orbiting moves one angle only: the azimuth when the drag so far
/// (`ref_x`, `ref_y`) is mostly horizontal, else the elevation, which is then
/// clamped. A free camera is left as it is.
pub open spec fn orbit_result(p: CameraPosition, dx: int, dy: int, ref_x: int, ref_y: int) -> CameraPosition {
    match p {
        CameraPosition::SphericalAbout { origin, radius, theta, phi } =>
            if abs(ref_x) > abs(ref_y) {
                CameraPosition::SphericalAbout {
                    origin,
                    radius,
                    theta: sat(theta + dx * ORBIT_AZIMUTH_STEP) as i64,
                    phi,
                }
            } else {
                CameraPosition::SphericalAbout {
                    origin,
                    radius,
                    theta,
                    phi: clamp_phi(phi + dy * ORBIT_ELEVATION_STEP) as i64,
                }
            },
        CameraPosition::Absolute { .. } => p,
    }
}

/// Zooming shortens the orbit radius by `delta` steps; it does not stop at
/// zero. A free camera is left as it is.
pub open spec fn zoom_result(p: CameraPosition, delta: int) -> CameraPosition {
    match p {
        CameraPosition::SphericalAbout { origin, radius, theta, phi } =>
            CameraPosition::SphericalAbout { origin, radius: sat(radius - delta * ZOOM_STEP) as i64, theta, phi },
        CameraPosition::Absolute { .. } => p,
    }
}

/// `q` moved by `(-dx, dy, 0)` pan steps.
pub open spec fn panned_point(q: Point3, dx: int, dy: int) -> Point3 {
    Point3 { x: sat(q.x - dx * PAN_STEP) as i64, y: sat(q.y + dy * PAN_STEP) as i64, z: q.z }
}

/// Panning moves the eye and the target of a free camera by the same offset.
/// An orbiting camera is left as it is.
pub open spec fn pan_result(p: CameraPosition, dx: int, dy: int) -> CameraPosition {
    match p {
        CameraPosition::SphericalAbout { .. } => p,
        CameraPosition::Absolute { position, look_at } =>
            CameraPosition::Absolute {
                position: panned_point(position, dx, dy),
                look_at: panned_point(look_at, dx, dy),
            },
    }
}

/// A camera whose elevation always stays within range.
#[derive(Debug)]
pub struct Camera {
    pos: CameraPosition,
}

impl View for Camera {
    type V = CameraPosition;

    closed spec fn view(&self) -> CameraPosition {
        self.pos
    }
}

impl Camera {
    #[verifier::type_invariant]
    spec fn elevation_bounded(self) -> bool {
        phi_in_range(self.pos)
    }

    /// A camera at `pos`, with the elevation clamped into range.
    pub fn new(pos: CameraPosition) -> (r: Camera)
        ensures
            r@ == normalized(pos),
    {
        match pos {
            CameraPosition::SphericalAbout { origin, radius, theta, phi } => {
                let phi = if phi < -HALF_PI {
                    -HALF_PI
                } else if phi > HALF_PI {
                    HALF_PI
                } else {
                    phi
                };
                Camera { pos: CameraPosition::SphericalAbout { origin, radius, theta, phi } }
            },
            CameraPosition::Absolute { .. } => Camera { pos },
        }
    }

    /// The current position.
    pub fn position(&self) -> (r: CameraPosition)
        ensures
            r == self@,
            phi_in_range(r),
    {
        proof {
            use_type_invariant(self);
        }
        self.pos
    }

    /// Shortens the orbit radius by `delta` scroll units; ignored by a free
    /// camera.
    pub fn zoom(&mut self, delta: i64)
        ensures
            final(self)@ == zoom_result(old(self)@, delta as int),
    {
        proof {
            use_type_invariant(&*self);
        }
        match self.pos {
            CameraPosition::SphericalAbout { origin, radius, theta, phi } => {
                let radius = saturate(radius as i128 - mul_wide(delta, ZOOM_STEP));
                self.pos = CameraPosition::SphericalAbout { origin, radius, theta, phi };
            },
            CameraPosition::Absolute { .. } => {},
        }
    }

    /// Turns an orbiting camera by a drag of `(dx, dy)`. The drag since it
    /// began, `reference`, picks the one angle that moves; ignored by a free
    /// camera.
    pub fn orbit(&mut self, dx: i64, dy: i64, reference: (i64, i64))
        ensures
            final(self)@ == orbit_result(old(self)@, dx as int, dy as int, reference.0 as int, reference.1 as int),
    {
        proof {
            use_type_invariant(&*self);
        }
        match self.pos {
            CameraPosition::SphericalAbout { origin, radius, theta, phi } => {
                let ref_x = reference.0 as i128;
                let ref_y = reference.1 as i128;
                let abs_x = if ref_x < 0 { -ref_x } else { ref_x };
                let abs_y = if ref_y < 0 { -ref_y } else { ref_y };
                if abs_x > abs_y {
                    let theta = saturate(theta as i128 + mul_wide(dx, ORBIT_AZIMUTH_STEP));
                    self.pos = CameraPosition::SphericalAbout { origin, radius, theta, phi };
                } else {
                    let moved = phi as i128 + mul_wide(dy, ORBIT_ELEVATION_STEP);
                    let phi = if moved < -HALF_PI as i128 {
                        -HALF_PI
                    } else if moved > HALF_PI as i128 {
                        HALF_PI
                    } else {
                        moved as i64
                    };
                    self.pos = CameraPosition::SphericalAbout { origin, radius, theta, phi };
                }
            },
            CameraPosition::Absolute { .. } => {},
        }
    }

    /// Slides a free camera by a drag of `(dx, dy)`, keeping its view
    /// direction; ignored by an orbiting camera.
    pub fn pan(&mut self, dx: i64, dy: i64)
        ensures
            final(self)@ == pan_result(old(self)@, dx as int, dy as int),
    {
        match self.pos {
            CameraPosition::SphericalAbout { .. } => {},
            CameraPosition::Absolute { position, look_at } => {
                let position = pan_point(position, dx, dy);
                let look_at = pan_point(look_at, dx, dy);
                self.pos = CameraPosition::Absolute { position, look_at };
            },
        }
    }
}

/// One orbit step: horizontal and vertical drag, then the drag since it
/// began.
pub struct OrbitStep {
    pub dx: i64,
    pub dy: i64,
    pub reference: (i64, i64),
}

/// `p` after each step of `steps`, in order.
pub open spec fn orbit_all(p: CameraPosition, steps: Seq<OrbitStep>) -> CameraPosition
    decreases steps.len(),
{
    if steps.len() == 0 {
        p
    } else {
        let s = steps[0];
        orbit_all(
            orbit_result(p, s.dx as int, s.dy as int, s.reference.0 as int, s.reference.1 as int),
            steps.drop_first(),
        )
    }
}

/// However many orbit steps are applied, and whatever they are, the
/// elevation stays within a quarter turn of the horizon.
pub proof fn lemma_orbit_keeps_elevation(p: CameraPosition, steps: Seq<OrbitStep>)
    requires
        phi_in_range(p),
    ensures
        phi_in_range(orbit_all(p, steps)),
    decreases steps.len(),
{
    if steps.len() > 0 {
        let s = steps[0];
        lemma_orbit_keeps_elevation(
            orbit_result(p, s.dx as int, s.dy as int, s.reference.0 as int, s.reference.1 as int),
            steps.drop_first(),
        );
    }
}

/// Zooming leaves a free camera exactly as it was.
pub proof fn lemma_zoom_ignores_absolute(p: CameraPosition, delta: int)
    requires
        p is Absolute,
    ensures
        zoom_result(p, delta) == p,
{
}

/// Panning keeps the offset from target to eye of a free camera, as long as
/// no coordinate reaches the bounds of `i64`.
pub proof fn lemma_pan_keeps_direction(position: Point3, look_at: Point3, dx: int, dy: int)
    requires
        i64::MIN <= position.x - dx * PAN_STEP <= i64::MAX,
        i64::MIN <= position.y + dy * PAN_STEP <= i64::MAX,
        i64::MIN <= look_at.x - dx * PAN_STEP <= i64::MAX,
        i64::MIN <= look_at.y + dy * PAN_STEP <= i64::MAX,
    ensures
        ({
            let moved = pan_result(CameraPosition::Absolute { position, look_at }, dx, dy);
            &&& moved is Absolute
            &&& moved->position.x - moved->look_at.x == position.x - look_at.x
            &&& moved->position.y - moved->look_at.y == position.y - look_at.y
            &&& moved->position.z - moved->look_at.z == position.z - look_at.z
        }),
{
}

fn pan_point(q: Point3, dx: i64, dy: i64) -> (r: Point3)
    ensures
        r == panned_point(q, dx as int, dy as int),
{
    Point3 {
        x: saturate(q.x as i128 - mul_wide(dx, PAN_STEP)),
        y: saturate(q.y as i128 + mul_wide(dy, PAN_STEP)),
        z: q.z,
    }
}

} // verus!
