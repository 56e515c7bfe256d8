//! Shell sessions: one transport session per host, how its output is kept,
//! and the pool that works on all hosts at once.

/// Failures of a shell session.
pub mod errors;

/// The paths of a session, and file transfers.
pub mod files;

/// What becomes of the output of a remote command.
pub mod io;

/// One transport session to one host.
pub mod client;

/// The session pool and its fan-out.
pub mod pools;

/// Plain output handlers.
pub mod output;
