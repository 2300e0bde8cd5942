//! Supervisor for a single long-lived media server child process.
//!
//! The crate holds the decision core of a desktop tray application that
//! launches, watches and cleanly terminates one external server process and
//! reports its live status.  Everything that touches the operating system
//! (spawning, killing, reading pipes, HTTP) is performed by the surrounding
//! application, which feeds the outcomes back into the verified state machine
//! defined here.

pub mod config;
pub mod json;
pub mod launcher;
pub mod probe;
pub mod supervisor;
pub mod text;
pub mod tray;
pub mod util;
pub mod watcher;
pub mod web;
