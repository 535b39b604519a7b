//! Launch orchestration for a game launcher.
//!
//! A launch attempt is a strictly sequential, fallible pipeline: resolve the
//! metadata of the requested version against a version store, build an
//! immutable client configuration, prepare a session, spawn the game process
//! and hand it over to the host. Every step is a function from plain values
//! to plain values; the host performs the input and output between the steps
//! and reports what it found.
//!
//! - [`store`] and [`version`]: the version store, and resolving a version
//!   against it.
//! - [`auth`] and [`config`]: the player's identity, and the configuration of
//!   a launch.
//! - [`session`]: sessions, launch parameters and process handles.
//! - [`orchestrator`]: the state machine that runs the steps in their order.
//! - [`error`]: the errors that end an attempt.

pub mod auth;
pub mod config;
pub mod error;
pub mod orchestrator;
pub mod session;
pub mod store;
mod text;
pub mod version;
