//! The state that all requests share: the registry of sessions and the
//! status cache.

use crate::git_cache::{CacheModel, GitStatsCache};
use crate::table::Table;
use std::sync::atomic::AtomicBool;
use std::sync::Arc;
use vstd::prelude::*;

verus! {

/// One live terminal. `M`, `C` and `W` are the handles of the
/// pseudo-terminal: its master end, the child process and the writer to the
/// child's input. The session owns all three; nothing else holds them.
pub struct PtySession<M, C, W> {
    /// The master end, which is read and resized.
    pub master: M,
    /// The child process.
    pub child: C,
    /// The writer to the child's input.
    pub writer: W,
    /// Raised when the session is closed; the reader of the session looks at it.
    pub shutdown: Arc<AtomicBool>,
    /// Whether the shell runs inside the sandbox.
    pub sandboxed: bool,
}

/// The registry of sessions, by identifier, and the status cache.
pub struct AppStateData<M, C, W> {
    pub pty_sessions: Table<PtySession<M, C, W>>,
    pub git_cache: GitStatsCache,
}

impl<M, C, W> AppStateData<M, C, W> {
    /// The registry and the cache are well formed.
    pub open spec fn wf(&self) -> bool {
        self.pty_sessions.wf() && self.git_cache.wf()
    }
}

/// The state at the start: no session, and an empty cache with watching
/// switched on.
pub fn create_state<M, C, W>() -> (state: AppStateData<M, C, W>)
    ensures
        state.wf(),
        state.pty_sessions@ == Map::<Seq<char>, PtySession<M, C, W>>::empty(),
        state.git_cache@ == CacheModel::empty(),
{
    AppStateData { pty_sessions: Table::new(), git_cache: GitStatsCache::new() }
}

} // verus!
