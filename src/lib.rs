//! A command-line controller for networked smart lights: the verified core.
//!
//! The library composes sparse light state changes, resolves light
//! identifiers, decides the pairing and session lifecycle, and paces the
//! reassertion loop that keeps a light in a given state.

pub mod args;
pub mod state_change;
pub mod error;
pub mod session;
pub mod environment;
pub mod resolver;
pub mod stay_on;
pub mod config;
