//! Fixed-point core of a real-time-strategy style orbit camera.
//!
//! Once per frame the camera turns raw input signals (cursor position near the
//! window edges, pressed keys, scroll ticks, elapsed time) into updated
//! momentum and pose state: a zoom distance, a yaw angle, and three velocities,
//! all subject to acceleration, idle deceleration and configurable clamped
//! ranges.  Every scalar quantity is carried in signed 64-bit fixed point with
//! one million units to 1.0, so the whole update is exact integer arithmetic
//! and is verified.  Turning the resulting yaw, pitch and pan displacement into
//! a world transform is trigonometry on floats and is left to the host.

pub mod fixed;
pub mod keys;
pub mod settings;
pub mod decel;
pub mod camera;
pub mod laws;
