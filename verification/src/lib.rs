//! Decision logic of a command-line front end for media processing.
//!
//! The front end hands a job either to a backend over HTTP or to a local
//! `ffmpeg`. This crate decides: which request to send, what a reply means,
//! which command line to run, what to print, how to go on after each
//! outcome. It does not send, run or print anything itself. The
//! [`processor`] module drives an invocation as a state machine whose steps
//! the caller carries out.

pub mod cli;
pub mod client;
pub mod console;
pub mod error;
pub mod executor;
pub mod models;
pub mod presenter;
pub mod processor;
pub mod text;
