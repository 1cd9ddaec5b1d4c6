//! Tracks what the launcher is doing, idle or playing a version, and decides when
//! and what to report to a rich-presence client.

pub mod app_state;
pub mod discord;
pub mod error;
pub mod guarantees;
pub mod version;
