//! Core simulation of a falling-block puzzle game: piece geometry,
//! an occupancy grid, movement and collision resolution, line clearing,
//! scoring, levels and the session state machine.

pub mod board;
pub mod consts;
pub mod game;
pub mod input;
pub mod motion;
pub mod piece;
mod rng;
pub mod score;
pub mod shape;
pub mod timer;
