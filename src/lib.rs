//! Session and exclusive-access control for a single hardware filter device.
//!
//! The device is driven through a small state machine ([`state`]), guarded by a
//! non-blocking arbiter ([`guard`]), filled with validated settings
//! ([`config`], [`remote`]) and drained by a bounded capture loop ([`capture`]).
//! The driver itself is not called from here: each controller hands out the next
//! [`command::Command`] and takes back the [`command::Event`] that it produced.
pub mod state;
pub mod error;
pub mod config;
pub mod guard;
pub mod command;
pub mod capture;
pub mod remote;
