//! A snake game for a two-colour e-paper badge: a fixed-capacity ring buffer
//! and the game engine built on it. Every function is stated over a
//! mathematical model and proved against it.

pub mod fixed_vec_deque;
pub mod game;
pub mod playfield;
mod random;
pub mod render;
pub mod rules;

pub use crate::game::Food;
pub use crate::game::Game;
pub use crate::game::Snake;
pub use crate::game::Update;
pub use crate::playfield::Direction;
pub use crate::playfield::Point;
