//! Keeps each monitor's wallpaper in step with its focused workspace and
//! rotates the wallpapers of each workspace on a timer.
//!
//! `config` resolves the configuration tree, `state` holds what the engine
//! owns, `engine` decides what each event changes and applies, `timer` says
//! when rotations are due, and `laws` states what holds over whole runs.
pub mod config;
pub mod state;
pub mod engine;
pub mod timer;
pub mod laws;
