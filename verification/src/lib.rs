//! Deterministic physics and tile-collision core of a side-scrolling platformer.
//!
//! Every quantity is a fixed-point number, so a step gives the same result on
//! every machine, and every contract is stated over mathematical integers.

pub mod bitfont;
pub mod controller;
pub mod entity;
pub mod fixed;
pub mod game;
pub mod gmath;
pub mod keyboard;
pub mod map;
pub mod sprite;
pub mod tiles;
pub mod timer;
