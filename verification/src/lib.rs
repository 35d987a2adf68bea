//! Core logic of a small interactive process monitor: classification of
//! processes into trust tiers, snapshot construction, and the state machine
//! driven by keyboard, tick and sampler events.
//!
//! Everything that decides or computes lives here, verified; terminal I/O,
//! the OS process enumeration and the termination call are outside
//! collaborators driven by the binary around this crate.

pub mod app;
pub mod process;
pub mod text;
