//! Pseudo-terminal sessions.
//!
//! - `manager`: how the command line of a session is put together, with or
//!   without the sandbox, and what follows from each spawn attempt.
//! - `commands`: the rules behind the requests on sessions, and what the
//!   reader of a session does with each read.

pub mod commands;
pub mod manager;
