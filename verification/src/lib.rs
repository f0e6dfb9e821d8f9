//! Game rules of a side-scrolling runner: the player's state machine and
//! animation, keyboard input decoding, enemy selection and naming, score
//! keeping, collision effects and the play / game-over flow.
//!
//! Everything that works on positions, velocities and timers is floating
//! point and lives with the game engine; this crate holds the discrete
//! decisions those systems make.

pub mod collisions;
pub mod components;
pub mod enemies;
pub mod game;
pub mod input;
pub mod player;
pub mod score;
pub mod state;
pub mod text;
pub mod utils;
