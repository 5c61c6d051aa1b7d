//! Client-side protocol logic for a remote agent service.
//!
//! The crate performs no I/O. A transport hands it what it observed (stream
//! signals, HTTP statuses, decoded bodies) and receives decisions and results.

pub mod agent;
pub mod cli;
pub mod commands;
pub mod config;
pub mod state;
pub mod utils;
