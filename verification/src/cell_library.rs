//! The built-in rule implementations hosted by the engine.
pub mod conway_cell;
pub mod particle_diffusion;
pub mod sandpile;
