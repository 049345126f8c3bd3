//! A fault-tolerant tree-copy engine.
//!
//! The library decides how a directory tree on an unreliable removable volume
//! is copied to a destination on a different filesystem: how destination
//! paths are derived and sanitized, how transient transport faults are
//! classified and recovered from by remounting, and which source paths are
//! permanently abandoned within a run.  All filesystem, subprocess and timing
//! work is performed by an unverified driver that feeds its observations back
//! into the verified state machine in [`engine`].

pub mod engine;
pub mod errors;
pub mod mapping;
pub mod registry;
pub mod sanitize;
