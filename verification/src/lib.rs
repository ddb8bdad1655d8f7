//! A small arcade simulation: a paddle slides along the bottom of a fixed
//! window, catching falling green balls (which restore lives) and avoiding
//! red balls (which cost lives). This crate holds the simulation itself —
//! paddle movement, ball spawning, falling, collision and culling, lives and
//! the terminal game-over state — with contracts that pin each step down.
//! Windowing and drawing live outside the library.

pub mod game;
