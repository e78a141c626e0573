//! Verified core of an MQTT client for machine-vision production cells.
//!
//! The crate covers the pieces of such a client that carry real invariants:
//! wildcard topic patterns and their structural matching, the ordered
//! subscription registry with first-match dispatch, the state-gated action
//! authorization table, and the shaping of outbound command messages as JSON.
//! Network I/O and widget handling live outside the library and consume these
//! functions with plain values.

pub mod actions;
pub mod authorization;
pub mod config;
pub mod pattern;
pub mod records;
pub mod registry;
pub mod text;
