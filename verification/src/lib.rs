//! Unattended audio playout node library.
//!
//! The crate models a time-indexed playlist (working hours, music date
//! ranges, advertisement windows, hourly time announcements), merges a
//! default document with a per-node override, answers time-of-day queries
//! against the merged playlist, and drives a playback device through a
//! tick-driven dispatch state machine whose collaborators (clock, playlist
//! store, media enumerator, playback port, random source) are injected.

pub mod config;
pub mod datetime;
pub mod password;
pub mod player;
pub mod playlist;
pub mod ports;
pub mod server_api;
pub mod server_config;
pub mod strutil;
