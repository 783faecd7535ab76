//! Verified core of a grid-based, GPU-dispatched physical simulation:
//! dispatch geometry, the fixed binary cell layout, double-buffered
//! simulation state, an asynchronously compiled pipeline registry, per-frame
//! bind groups, and the stage orchestrator state machine that advances only
//! when the next stage's pipeline has finished compiling.

pub mod binding;
pub mod cell;
pub mod data;
pub mod geometry;
pub mod orchestrator;
pub mod registry;
pub mod status;

use vstd::prelude::*;

verus! {

/// Width of the simulation grid in cells.
pub const WORLD_WIDTH: u32 = 1024;

/// Height of the simulation grid in cells.
pub const WORLD_HEIGHT: u32 = 1024;

/// Side length of one compute workgroup tile, in cells.
pub const WORKGROUP_SIZE: u32 = 8;

} // verus!
