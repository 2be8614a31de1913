//! Particle life: point particles of several species that attract or repel
//! one another and move under a damped, discrete physics.
//!
//! Every quantity is a fixed-point number (see [`fixed`]), so that each tick
//! is exact, the same on every machine, and open to proof: the contracts of
//! this crate say to the last digit what a force, a velocity or a position is.
//!
//! - [`fixed`]: the arithmetic.
//! - [`vec2`]: vectors of the plane.
//! - [`relation`]: the table of coefficients between species.
//! - [`settings`]: the parameters, and the checks that a configuration passes
//!   before it is applied.
//! - [`atom`]: the particle, the force law, and the step of a single particle.
//! - [`random`], [`population`]: scattering a fresh population.
//! - [`model`]: the simulation as a whole: the tick over all particles, and
//!   the rebuild of the population when the configured counts change.
//! - [`palette`]: the colour of each species.

pub mod atom;
pub mod fixed;
pub mod model;
pub mod palette;
pub mod population;
pub mod random;
pub mod relation;
pub mod settings;
pub mod vec2;
