use vstd::prelude::*;

use crate::map::TilePos;

pub mod blinky;

verus! {

/// What a pursuer is aiming at.
#[derive(Clone, Copy, Debug, PartialEq, Eq, Structural)]
pub struct GhostState {
    /// The tile the pursuer is chasing, taken afresh at every step.
    pub target_tile: TilePos,
}

} // verus!
