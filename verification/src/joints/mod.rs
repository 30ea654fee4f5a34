//! Joints that hold a body within limits.

pub mod joint_system;
