//! Camera configuration for the perspective projector.

use vstd::prelude::*;

verus! {

/// Settings that control the camera's view and position.
///
/// Both values are configured as whole numbers; the host turns them
/// into its scalar type when it evaluates the projection. A field of
/// view strictly between 0 and 180 degrees and a positive camera
/// distance keep the projection away from its degenerate cases.
#[derive(Clone, Copy, PartialEq, Eq, Structural, Debug)]
pub struct CameraSettings {
    /// Field of view angle in degrees.
    pub fov_angle_deg: u16,
    /// Distance of the camera from the target point.
    pub camera_dist: u16,
}

impl CameraSettings {
    /// The settings under which the projection has no degenerate case:
    /// the field of view keeps its half-angle tangent finite and
    /// nonzero, and the camera stands at a positive distance.
    pub open spec fn is_degenerate_free(self) -> bool {
        0 < self.fov_angle_deg < 180 && 0 < self.camera_dist
    }

    /// Builds camera settings from a field of view in degrees and a
    /// camera distance.
    pub fn new(fov_angle_deg: u16, camera_dist: u16) -> (c: CameraSettings)
        ensures
            c.fov_angle_deg == fov_angle_deg,
            c.camera_dist == camera_dist,
    {
        CameraSettings { fov_angle_deg, camera_dist }
    }
}

} // verus!
