//! An interactive command-line shell core: a session state machine over a
//! current location, a bidirectional navigation history, a registry of
//! user-defined custom commands, and a local environment-variable overlay.
//!
//! The session itself never touches the filesystem or spawns processes.
//! Dispatching an input line yields printable output lines together with an
//! optional [`session::Effect`], a request that a thin outer layer performs
//! against the real filesystem or process table.

pub mod env;
pub mod laws;
pub mod model;
pub mod session;
pub mod text;
