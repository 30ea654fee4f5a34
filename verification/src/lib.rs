//! A small rigid-body physics core over fixed-point numbers: it moves
//! bodies under gravity and damping, finds contacts between oriented
//! boxes by the separating axis theorem, and resolves them.
//!
//! Every number is a [`fixed::Fixed`], so a run gives the same result
//! on every machine. Each operation is specified over the raw integer
//! values, rounding and clamping included, and the contracts of the
//! engine are stated over those specifications.

pub mod bodies;
pub mod collisions;
pub mod fixed;
pub mod joints;
pub mod matrix;
pub mod prelude;
pub mod quat;
pub mod rays;
pub mod simulation;
pub mod trig;
pub mod unit_length;
pub mod vector;
