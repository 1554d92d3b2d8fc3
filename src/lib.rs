//! Cell occupancy for a bounded 2-D game board: positions, a bounds-checked
//! grid of objects, the collision rule table and snake-style player movement.
use vstd::prelude::*;

pub mod game;
pub mod grid;
pub mod laws;
pub mod position;
pub mod walk;

pub use game::{Game, Player, INITIAL_LENGTH};
pub use grid::{in_bound, AllocationEvent, Grid, Object};
pub use position::{navigate, Direction, Position};
pub use walk::{ByRow, PositionGenerator};

verus! {

} // verus!
