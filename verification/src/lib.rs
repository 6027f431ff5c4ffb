//! A verified core for a grid-based snake game.
//!
//! The game plays on a `width` x `height` grid whose outermost cells form a
//! solid border. A snake (an ordered sequence of grid positions, head first)
//! moves one cell per frame in its current direction, grows by one segment
//! whenever its head lands on the food cell, and dies when it runs into the
//! border or into its own body. The per-frame update, the direction rules and
//! the food-placement rules live here, fully specified; the terminal front
//! end only samples keys, draws frames and paces the clock.

pub mod food;
pub mod game;
