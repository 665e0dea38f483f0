pub mod chain;
pub mod direction;
pub mod food;
pub mod game;
pub mod grid;

pub use chain::Chain;
pub use direction::Direction;
pub use food::{FoodPlacer, PlaceError};
pub use game::{Game, GameOverReason, SimulationState, TickOutcome};
pub use grid::{Grid, Position};
