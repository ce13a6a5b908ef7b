//! The simulation core of a terminal side-scrolling game: a player jumps or
//! ducks past obstacles that scroll in from the right, and every tick survived
//! adds one point.
//!
//! All lengths are integers in thousandths of a screen unit, and every random
//! draw is an integer roll in parts per million, so that the whole core is
//! exact integer arithmetic.
pub mod pacing;
pub mod player;
pub mod chance;
pub mod obstacle;
pub mod collision;
pub mod autopilot;
pub mod mode;
pub mod game;
pub mod store;

pub use autopilot::autopilot_decide;
pub use collision::collision_check;
pub use game::{App, Command, Effect};
pub use obstacle::{advance_obstacles, Obstacle, SpawnDraw};
pub use pacing::compute_wait;
pub use player::Player;
pub use store::{decode_highscore, encode_highscore, HighscoreError};
