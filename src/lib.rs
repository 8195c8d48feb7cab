//! Camera state and the input pipeline of an interactive 3D viewer.
//!
//! All quantities are fixed-point integers: lengths in micro-units of world
//! space, angles in microradians, cursor positions in thousandths of a
//! screen unit and scroll amounts in thousandths of a wheel step. The host
//! converts them to floating point when it builds the actual matrices.
pub mod fixed;
pub mod camera;
pub mod input;
pub mod viewer;
