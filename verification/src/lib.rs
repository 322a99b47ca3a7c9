//! A deterministic, tick-driven simulation of the classic Snake game on a
//! bounded rectangular grid.
//!
//! The library tracks one snake's body history, a collection of food items,
//! and advances the world one discrete step at a time in response to buffered
//! directional input. Rendering and input collection are left to the caller;
//! the engine works on plain coordinates and reports, from each tick, whether
//! the game continues.

pub mod direction;
pub mod game;
pub mod snake;

pub use direction::Direction;
pub use game::ConfigGame;
pub use game::Food;
pub use game::Game;
pub use snake::Snake;
