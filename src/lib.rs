//! A terminal animation of wandering pipes: the motion rules, the grid of
//! trails they leave, what is drawn of it, and the settings read from the
//! command line.

pub mod config;
pub mod direction;
pub mod driver;
pub mod grid;
pub mod pipe;
pub mod render;
pub mod simulation;
