//! Trajectories of the Lorenz attractor, cut into coloured line segments.
//!
//! - [`attractor`]: the Lorenz equations, the explicit Euler step and the
//!   classic parameters;
//! - [`range`]: the linear rescaling that turns coordinates into colour
//!   components;
//! - [`color`]: the palette that gives each position its colour;
//! - [`trail`]: a tick of the simulation, which takes fifty steps and returns
//!   the segments that they have drawn;
//! - [`numeric`]: what the contracts say and assume of the number type.
//!
//! The library is generic over the number type: every function works on any
//! copyable type that has the four arithmetic operators. It draws nothing
//! itself; a front end takes the segments of [`trail::lorenz_system`] and hands
//! them to its renderer.

pub mod attractor;
pub mod color;
pub mod numeric;
pub mod range;
pub mod trail;
