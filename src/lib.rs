//! Simulation core of a side-scrolling runner: the protagonist's physics and
//! state machine, the obstacles, the collision pipeline, and the session loop.
//! All quantities are fixed-point integers; see `geometry` for the units.
pub mod cactus;
pub mod cloud;
pub mod collision;
pub mod dino;
pub mod effects;
pub mod fly;
pub mod game;
pub mod geometry;
pub mod motion;
pub mod obstacle;
pub mod random;
pub mod rock;

pub use cactus::Cactus;
pub use cloud::Cloud;
pub use dino::{ground_y, DeathCause, Dino, Effect};
pub use fly::Fly;
pub use game::{Game, GameState, Input};
pub use geometry::{Circle, Rect, Viewport, ONE};
pub use obstacle::Obstacle;
pub use rock::Rock;
