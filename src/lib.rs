//! Core rules of a small arcade game: a player walks around the screen,
//! picks up gold from crates and is hurt by bullets until the game ends.
//!
//! Positions live on an integer grid of world units. The host framework
//! supplies window size, key state and elapsed time as plain values and
//! draws what [`world::GameWorld`] holds.
pub mod state;
pub mod components;
pub mod entity;
pub mod world;
pub mod movement;
pub mod spawner;
pub mod collision;
pub mod resolution;
pub mod animation;
pub mod control;
pub mod schedule;
