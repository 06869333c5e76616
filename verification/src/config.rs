//! The plain configuration values the host hands the engine at
//! construction time. The engine parses nothing itself; the host loads
//! and decodes a configuration file and converts into these types.
use vstd::prelude::*;

verus! {

/// Which rule drives the simulation.
#[derive(Clone, Copy, Debug, PartialEq, Eq, Structural)]
pub enum SystemConfig {
    Conway,
    XYModel,
    Wave,
    Sandpile,
    Schrodinger,
}

/// Which boundary policy the grid is built with.
#[derive(Clone, Copy, Debug, PartialEq, Eq, Structural)]
pub enum BoundaryConfig {
    Periodic,
    Constant,
    Free,
}

/// The host-supplied run configuration.
#[derive(Clone, Copy, Debug, PartialEq, Eq, Structural)]
pub struct Config {
    pub grid_width: u32,
    pub grid_height: u32,
    pub per_frame_updates: u32,
    pub system: SystemConfig,
    pub boundary: BoundaryConfig,
}

impl Default for Config {
    /// A 200 by 200 periodic grid of the planar-spin rule, advanced once
    /// per frame.
    fn default() -> (r: Self)
        ensures
            r == (Config {
                grid_width: 200u32,
                grid_height: 200u32,
                per_frame_updates: 1u32,
                system: SystemConfig::XYModel,
                boundary: BoundaryConfig::Periodic,
            }),
    {
        Self {
            grid_width: 200,
            grid_height: 200,
            per_frame_updates: 1,
            system: SystemConfig::XYModel,
            boundary: BoundaryConfig::Periodic,
        }
    }
}

} // verus!
