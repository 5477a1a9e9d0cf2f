//! Simulation core of a single-player avoidance game.
//!
//! A player-controlled square moves along the bottom of a fixed playfield and
//! dodges falling squares. Every quantity is an integer in a fixed unit, so
//! that each rule of the game is an exact statement over the integers:
//! lengths and coordinates are counted in sub-pixel units, time in time
//! units, and a speed says how many length units are covered per time unit.
pub mod config;
pub mod digits;
pub mod faller;
pub mod geometry;
pub mod motion;
pub mod pattern;
pub mod player;
pub mod random;
pub mod session;
