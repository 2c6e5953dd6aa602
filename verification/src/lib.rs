//! Core of a two-player, turn-based grid game: board representation,
//! coordinate validation, move application, and terminal-state detection.
//!
//! The state machine is persistent: every accepted move produces a fresh
//! `Board` value, so historical boards can coexist and reasoning stays
//! purely functional. All console interaction lives outside this crate.

pub mod game;
pub mod squares;
