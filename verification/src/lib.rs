//! Verified core of a small interactive 3D viewer for an animated humanoid
//! model: fixed-point rigid-body transforms (per-limb pose, orbiting camera,
//! perspective projection), the input state machine that accumulates camera
//! angles, and the skin-texture reload state machine driven by filesystem
//! watch events.

pub mod camera;
pub mod fixed;
pub mod input;
pub mod mat;
pub mod model;
pub mod pose;
pub mod projection;
pub mod skin;
