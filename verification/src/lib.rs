//! Event stream monitor for a running game session's journal.
//!
//! The library consumes a live, timestamp-ordered sequence of structured
//! events, maintains a small piece of session state (the active-mission
//! counter), and decides when an event is worth an outbound alert. All
//! decision logic is verified; reading the journal and delivering alerts
//! are left to the surrounding application.

pub mod alerts;
pub mod classifier;
pub mod config;
pub mod events;
pub mod laws;
pub mod monitor;
