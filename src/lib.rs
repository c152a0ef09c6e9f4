//! Driver logic for the HC-12 serial radio module: the values its AT-command
//! protocol speaks of, the grammar of its requests and replies, and the
//! command-mode session that a driver follows step by step.
pub mod rates;
pub mod text;
pub mod protocol;
pub mod session;
pub mod laws;
