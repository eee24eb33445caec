//! Geometry core of an interactive wireframe cube viewer.
//!
//! The library converts a fixed set of cube vertices into an
//! orientation-dependent, perspective-projected image, driven by a 2D
//! cursor that directional input moves over a toroidal screen. It holds
//! the exact, integer-valued parts of that pipeline: the cube model and
//! its edge topology, the wraparound cursor mapper, the camera
//! configuration, and the per-frame derivation of the orientation from
//! the cursor. The host supplies the window, the input events and the
//! trigonometric evaluation of the derived angles.

pub mod camera;
pub mod cube;
pub mod cursor;
pub mod viewer;
