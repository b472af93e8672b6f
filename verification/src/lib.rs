//! The control loop of a remote-controlled agent, without its I/O.
//!
//! An agent contacts a coordinating server, learns which files it should
//! upload and which shell commands it should run, does that work and reports
//! back. This crate holds the decisions of that loop as a state machine
//! ([`agent::Agent`]): the caller performs each [`agent::Action`] and hands
//! the outcome back as an [`agent::Event`]. The requests of the four
//! exchanges are built in [`transport`], and what a reply means is decided
//! there as well.

pub mod agent;
pub mod config;
pub mod error;
pub mod executor;
pub mod laws;
pub mod pacing;
pub mod task;
pub mod transport;
