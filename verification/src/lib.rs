//! Startup decisions of a desktop application shell.
//!
//! The shell serves its bundled assets from a loopback content server, attaches
//! a logger in debug builds, and shows or hides its main window depending on a
//! command-line flag. Everything that is decided along the way is decided here,
//! on plain values, so that it holds on every host; performing the decisions is
//! left to the caller.

#![allow(unused_imports)]

pub mod args;
pub mod config;
pub mod plan;
pub mod rehearsal;
pub mod setup;
