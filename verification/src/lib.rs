//! Core logic of a Discord music bot: configuration defaults, log-level
//! selection, error messages, track and menu presentation, command decisions
//! and permission checks. Discord, Lavalink, Postgres and the process
//! environment are reached from the application crate, which hands this
//! library plain values.

pub mod checks;
pub mod config;
pub mod error;
pub mod events;
pub mod music;
pub mod text;
