//! Terminal-session and repository-status core.
//!
//! The crate holds the rules of a terminal host: how a shell command line and
//! its sandbox are put together, how sessions are registered, read and
//! closed, and how repository status snapshots are cached, aged and
//! invalidated by filesystem events. Every function carries a contract that
//! is checked by Verus.

pub mod error;
pub mod fs;
pub mod git_cache;
pub mod order;
pub mod pty;
pub mod scan;
pub mod state;
pub mod table;
pub mod text;
pub mod trusted;
pub mod watch;
