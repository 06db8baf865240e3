//! A tile-based game world with a scrolling viewport over it.
//!
//! The world is a fixed grid of terrain with the monsters that stand on it.
//! The viewport is a window of fixed size that follows a focus point with
//! hysteresis: it is re-centered only once the focus comes close to one of
//! its edges, and it never leaves the grid.
pub mod map;
pub mod mon;
pub mod render;
pub mod utils;
