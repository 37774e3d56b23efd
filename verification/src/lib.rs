//! Native backend core of the SoloStack application shell.
//!
//! Two subsystems live here: a secure credential store abstraction over the
//! operating system's protected storage, keyed by a normalized sync-provider
//! identifier, and a one-time startup migration that copies a legacy
//! installation's database into the current data directory and records a
//! durable marker so the copy never repeats.  File and platform I/O is driven
//! by the surrounding shell; every decision the two subsystems make is
//! verified here.

pub mod text;
pub mod paths;
pub mod marker;
pub mod report;
pub mod credentials;
pub mod bridge;
pub mod migration;
