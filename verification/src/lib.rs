//! Deterministic physics core of a launch-and-flight simulation.
//!
//! A body is first held by a launch mechanism and then flies freely over a
//! ground that closes into a ring, until it crosses the ground and lands.
//!
//! - [`fixed`]: positions on an exact fixed-point grid, displacements on a
//!   finer grid, and the floor and remainder that carry whole units from one
//!   to the other.
//! - [`geometry`]: the orientation of three points and the meeting point of
//!   two segments.
//! - [`terrain`]: the ring of surface vertices.
//! - [`collision`]: the crossing of the ground by a proposed move.
//! - [`stats`]: telemetry that only grows.
//! - [`physics`]: the fixed-timestep integrator, driven by events.
//!
//! Everything here is whole-number arithmetic. Velocity, acceleration and
//! rotation belong to the caller, who works out each tick's displacement
//! and hands it over in grains.

pub mod collision;
pub mod fixed;
pub mod geometry;
pub mod physics;
pub mod stats;
pub mod terrain;
