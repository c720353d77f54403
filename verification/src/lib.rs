//! Verified 2D spatial primitives: positions, rotations, directions, discrete
//! grids, bounding boxes, kinematics, and a reconciliation protocol that keeps
//! the 2D components consistent with a host engine's 3D transform.
//!
//! Orientations are discretized into tenths of a degree, measured clockwise
//! from north, so that angle arithmetic is exact and wraps losslessly no
//! matter how many full turns are accumulated.

pub mod bounding;
pub mod coordinate;
pub mod discrete;
pub mod kinematics;
pub mod orientation;
pub mod partitioning;
pub mod position;
pub mod scale;
pub mod sync;
