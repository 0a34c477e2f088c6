//! Supervision of one local backend server process for a desktop shell.
//!
//! The host application owns the windows, the child process and the files;
//! this crate holds the rules: which program is launched on which platform,
//! when a launch or a termination is due, what a liveness probe means, and
//! which URL the front end should talk to.  Every function here works on
//! plain values, so the host performs an action and reports back what
//! happened.

pub mod config;
pub mod endpoint;
pub mod host;
pub mod json;
pub mod lifecycle;
pub mod platform;
pub mod scanner;
pub mod store;
