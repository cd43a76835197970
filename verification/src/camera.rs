//! Camera viewpoint selection. Camera motion is floating point and lives in
//! the application.
use vstd::prelude::*;

verus! {

/// Camera viewpoint mode.
#[derive(Clone, Copy, Debug, PartialEq, Eq, Structural)]
pub enum CameraMode {
    /// Third-person chase camera, behind and above the vehicle.
    Chase,
    /// First-person bumper-mounted camera looking forward.
    Bumper,
}

} // verus!
