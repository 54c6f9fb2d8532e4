//! Core logic of a map guessing game: exact coordinate conversion between a
//! reference image and the screen, multi-line label layout, fuzzy station-name
//! resolution, the round state machine, and the overlay render plan.

pub mod colour;
pub mod coordinate_system;
pub mod game;
pub mod names;
pub mod overlay;
pub mod render;
pub mod resolver;
pub mod searching;
pub mod stations;
