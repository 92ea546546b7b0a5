//! The status cache and the table of watchers.
//!
//! A status snapshot is kept for each repository that was asked about, with
//! the time at which it was taken. A snapshot older than the time to live
//! counts as absent. Time is a count of nanoseconds on the cache's own
//! clock; every rule is stated for a time that is given, and the functions
//! that read the clock only hand the reading on.

use crate::error::Failure;
use crate::fs::git::StatusSnapshot;
use crate::table::Table;
use crate::text::texts;
use crate::trusted::{clock_read, clock_start, share};
use crate::watch::{is_relevant, should_invalidate, WatchEventKind};
use std::sync::mpsc::Sender;
use std::sync::Arc;
use std::time::Instant;
use vstd::prelude::*;

verus! {

/// How long a snapshot is served, in seconds.
pub const CACHE_TTL_SECONDS: u64 = 1;

/// How long the cache waits between two sweeps, in seconds.
pub const CLEANUP_INTERVAL_SECONDS: u64 = 60;

/// Nanoseconds in a second.
pub const NANOS_PER_SECOND: u128 = 1_000_000_000;

/// The time to live in nanoseconds.
pub open spec fn ttl_nanos() -> int {
    CACHE_TTL_SECONDS * NANOS_PER_SECOND
}

/// The time between two sweeps in nanoseconds.
pub open spec fn cleanup_interval_nanos() -> int {
    CLEANUP_INTERVAL_SECONDS * NANOS_PER_SECOND
}

/// The time that has passed at `now` since `at`; none where `at` is not in the past.
pub open spec fn age(now: int, at: int) -> int {
    if now >= at {
        now - at
    } else {
        0
    }
}

/// A snapshot and the time at which it was taken.
pub struct EntryModel {
    pub stats: StatusSnapshot,
    pub cached_at: int,
}

impl EntryModel {
    /// Whether the snapshot is still served at `now`.
    pub open spec fn is_fresh(self, now: int) -> bool {
        age(now, self.cached_at) <= ttl_nanos()
    }
}

/// The entries of `entries` that are still served at `now`.
pub open spec fn fresh_entries(entries: Map<Seq<char>, EntryModel>, now: int) -> Map<
    Seq<char>,
    EntryModel,
> {
    Map::new(
        |path: Seq<char>| entries.contains_key(path) && entries[path].is_fresh(now),
        |path: Seq<char>| entries[path],
    )
}

/// What became of a request to watch a repository.
#[derive(Clone, Copy, Debug, PartialEq, Eq, Structural)]
pub enum WatcherSetup {
    /// Watching is switched off; nothing was registered.
    Disabled,
    /// The repository is watched already; nothing was registered.
    AlreadyWatching,
    /// The repository was registered; its watcher is to be started.
    Started,
}

/// The cache as a mathematical value.
pub struct CacheModel {
    /// The snapshot kept for each repository, whether still served or not.
    pub entries: Map<Seq<char>, EntryModel>,
    /// The repositories that have a watcher.
    pub watched: Set<Seq<char>>,
    /// Whether new watchers may be registered.
    pub enabled: bool,
    /// When the cache was last swept, if ever.
    pub last_cleanup: Option<int>,
}

impl CacheModel {
    /// The cache as it is made: empty, with watching switched on.
    pub open spec fn empty() -> CacheModel {
        CacheModel {
            entries: Map::empty(),
            watched: Set::empty(),
            enabled: true,
            last_cleanup: None,
        }
    }

    /// The snapshot that is served for `path` at `now`.
    pub open spec fn get(self, path: Seq<char>, now: int) -> Option<StatusSnapshot> {
        if self.entries.contains_key(path) && self.entries[path].is_fresh(now) {
            Some(self.entries[path].stats)
        } else {
            None
        }
    }

    /// The cache with `stats` kept for `path` as of `now`.
    pub open spec fn insert(self, path: Seq<char>, stats: StatusSnapshot, now: int) -> CacheModel {
        CacheModel {
            entries: self.entries.insert(path, EntryModel { stats, cached_at: now }),
            ..self
        }
    }

    /// Whether a sweep is due at `now`: none was made yet, or the last one is
    /// longer ago than the interval.
    pub open spec fn cleanup_due(self, now: int) -> bool {
        match self.last_cleanup {
            Some(last) => age(now, last) > cleanup_interval_nanos(),
            None => true,
        }
    }

    /// The cache after the upkeep at `now`: where a sweep is due, every entry
    /// that is no longer served is dropped and the sweep is noted.
    pub open spec fn maybe_cleanup(self, now: int) -> CacheModel {
        if self.cleanup_due(now) {
            CacheModel {
                entries: fresh_entries(self.entries, now),
                last_cleanup: Some(now),
                ..self
            }
        } else {
            self
        }
    }

    /// The cache after `stats` was set for `path` at `now`: kept, then upkeep.
    pub open spec fn set(self, path: Seq<char>, stats: StatusSnapshot, now: int) -> CacheModel {
        self.insert(path, stats, now).maybe_cleanup(now)
    }

    /// The cache without the entry of `path`.
    pub open spec fn invalidate(self, path: Seq<char>) -> CacheModel {
        CacheModel { entries: self.entries.remove(path), ..self }
    }

    /// What a request to watch `path` comes to; `is_repository` says whether
    /// the directory holds a repository.
    pub open spec fn setup_outcome(self, path: Seq<char>, is_repository: bool) -> Result<
        WatcherSetup,
        Failure,
    > {
        if !self.enabled {
            Ok(WatcherSetup::Disabled)
        } else if !is_repository {
            Err(Failure::NothingToWatch)
        } else if self.watched.contains(path) {
            Ok(WatcherSetup::AlreadyWatching)
        } else {
            Ok(WatcherSetup::Started)
        }
    }

    /// Whether a request to watch `path` registers a watcher: watching is
    /// switched on, the directory holds a repository and has no watcher yet.
    pub open spec fn registers(self, path: Seq<char>, is_repository: bool) -> bool {
        self.enabled && is_repository && !self.watched.contains(path)
    }

    /// The cache after a request to watch `path`.
    pub open spec fn setup_watcher(self, path: Seq<char>, is_repository: bool) -> CacheModel {
        if self.registers(path, is_repository) {
            CacheModel { watched: self.watched.insert(path), ..self }
        } else {
            self
        }
    }

    /// The cache without the watcher of `path`.
    pub open spec fn stop_watcher(self, path: Seq<char>) -> CacheModel {
        CacheModel { watched: self.watched.remove(path), ..self }
    }

    /// The cache without any watcher.
    pub open spec fn stop_all_watchers(self) -> CacheModel {
        CacheModel { watched: Set::empty(), ..self }
    }

    /// The cache with watching switched on.
    pub open spec fn enable_watchers(self) -> CacheModel {
        CacheModel { enabled: true, ..self }
    }

    /// The cache with watching switched off and every watcher gone.
    pub open spec fn disable_watchers(self) -> CacheModel {
        CacheModel { enabled: false, watched: Set::empty(), ..self }
    }

    /// The cache after the watcher of `path` reported an event; `relevant`
    /// says whether the event is one that changes the status. An event for a
    /// repository that has no watcher changes nothing.
    pub open spec fn handle_event(self, path: Seq<char>, relevant: bool) -> CacheModel {
        if relevant && self.watched.contains(path) {
            self.invalidate(path)
        } else {
            self
        }
    }
}

/// Round trip. A snapshot that is set for a path is served for that path, as
/// it was set, at any time that is no later than the time to live after it
/// was set: the upkeep that follows the setting does not take it away, and
/// nothing has to be collected again.
pub proof fn lemma_set_then_get(
    cache: CacheModel,
    path: Seq<char>,
    stats: StatusSnapshot,
    kept_at: int,
    swept_at: int,
    asked_at: int,
)
    requires
        kept_at <= swept_at <= asked_at,
        asked_at - kept_at <= ttl_nanos(),
    ensures
        cache.insert(path, stats, kept_at).maybe_cleanup(swept_at).get(path, asked_at) == Some(
            stats,
        ),
        cache.set(path, stats, kept_at).get(path, asked_at) == Some(stats),
{
}

/// Expiry. A snapshot that is older than the time to live is not served, so
/// that the status has to be collected; once what was collected is set, it is
/// what is served.
pub proof fn lemma_expired_is_collected_anew(
    cache: CacheModel,
    path: Seq<char>,
    kept_at: int,
    now: int,
    collected: StatusSnapshot,
)
    requires
        cache.entries.contains_key(path),
        cache.entries[path].cached_at == kept_at,
        now - kept_at > ttl_nanos(),
    ensures
        cache.get(path, now) is None,
        cache.set(path, collected, now).get(path, now) == Some(collected),
{
}

/// A snapshot of one path is never served for another, and setting one path
/// does not change what is kept for another that is still served.
pub proof fn lemma_set_leaves_fresh_entries(
    cache: CacheModel,
    path: Seq<char>,
    stats: StatusSnapshot,
    now: int,
    other: Seq<char>,
)
    requires
        other != path,
    ensures
        cache.set(path, stats, now).get(other, now) == cache.get(other, now),
{
}

/// Invalidation by a watcher. After an event that changes the status of a
/// watched repository, no snapshot is served for it at any time, however
/// young the snapshot was: the next request collects the status anew.
pub proof fn lemma_event_forces_collection(cache: CacheModel, path: Seq<char>, now: int)
    requires
        cache.watched.contains(path),
    ensures
        cache.handle_event(path, true).get(path, now) is None,
{
}

/// An event that does not change the status changes nothing.
pub proof fn lemma_irrelevant_event_changes_nothing(cache: CacheModel, path: Seq<char>)
    ensures
        cache.handle_event(path, false) == cache,
{
}

/// Switching watching off. Afterwards no repository has a watcher and none
/// can be registered; an event, whatever it is, changes nothing, so that
/// what is served for a path is what was served before, until it expires.
pub proof fn lemma_disable_stops_every_watcher(
    cache: CacheModel,
    path: Seq<char>,
    relevant: bool,
    is_repository: bool,
    now: int,
)
    ensures
        cache.disable_watchers().watched == Set::<Seq<char>>::empty(),
        cache.disable_watchers().handle_event(path, relevant) == cache.disable_watchers(),
        cache.disable_watchers().handle_event(path, relevant).get(path, now) == cache.get(
            path,
            now,
        ),
        cache.disable_watchers().setup_watcher(path, is_repository) == cache.disable_watchers(),
{
}

/// At most one watcher for each repository: a request to watch a repository
/// that is watched already registers nothing.
pub proof fn lemma_one_watcher_for_each_repository(
    cache: CacheModel,
    path: Seq<char>,
    is_repository: bool,
)
    ensures
        cache.setup_watcher(path, is_repository).setup_watcher(path, is_repository)
            == cache.setup_watcher(path, is_repository),
        !cache.setup_watcher(path, is_repository).registers(path, is_repository),
{
}

/// A snapshot as the cache keeps it: shared, with the time at which it was taken.
pub struct CacheEntry {
    stats: Arc<StatusSnapshot>,
    cached_at: u128,
}

impl CacheEntry {
    /// The entry as a mathematical value.
    pub closed spec fn model(self) -> EntryModel {
        EntryModel { stats: *self.stats, cached_at: self.cached_at as int }
    }
}

/// The status cache with its table of watchers.
pub struct GitStatsCache {
    entries: Table<CacheEntry>,
    watcher_stops: Table<Sender<()>>,
    enabled: bool,
    last_cleanup: Option<u128>,
    origin: Instant,
}

impl View for GitStatsCache {
    type V = CacheModel;

    closed spec fn view(&self) -> CacheModel {
        CacheModel {
            entries: self.entries@.map_values(|e: CacheEntry| e.model()),
            watched: self.watcher_stops@.dom(),
            enabled: self.enabled,
            last_cleanup: match self.last_cleanup {
                Some(t) => Some(t as int),
                None => None,
            },
        }
    }
}

impl GitStatsCache {
    /// Both tables are well formed.
    pub closed spec fn wf(&self) -> bool {
        self.entries.wf() && self.watcher_stops.wf()
    }

    /// An empty cache with watching switched on. Its clock starts now.
    pub fn new() -> (cache: Self)
        ensures
            cache.wf(),
            cache@ == CacheModel::empty(),
    {
        let cache = GitStatsCache {
            entries: Table::new(),
            watcher_stops: Table::new(),
            enabled: true,
            last_cleanup: None,
            origin: clock_start(),
        };
        assert(cache@.entries =~= Map::empty());
        assert(cache@.watched =~= Set::empty());
        cache
    }

    /// The time on the cache's clock, in nanoseconds since the cache was made.
    pub fn now(&self) -> (nanos: u128) {
        clock_read(&self.origin)
    }

    /// The snapshot that is served for `repo_path` at `now`: the one that is
    /// kept, unless it is older than the time to live.
    pub fn get_at(&self, repo_path: &str, now: u128) -> (found: Option<Arc<StatusSnapshot>>)
        requires
            self.wf(),
        ensures
            match found {
                Some(stats) => self@.get(repo_path@, now as int) == Some(*stats),
                None => self@.get(repo_path@, now as int) is None,
            },
    {
        match self.entries.get(repo_path) {
            Some(entry) => {
                let age = if now >= entry.cached_at {
                    now - entry.cached_at
                } else {
                    0
                };
                if age > (CACHE_TTL_SECONDS as u128) * NANOS_PER_SECOND {
                    None
                } else {
                    Some(share(&entry.stats))
                }
            },
            None => None,
        }
    }

    /// The snapshot that is served for `repo_path` at the time of the call,
    /// whatever that time is.
    pub fn get(&self, repo_path: &str) -> (found: Option<Arc<StatusSnapshot>>)
        requires
            self.wf(),
        ensures
            exists|now: int|
                match found {
                    Some(stats) => self@.get(repo_path@, now) == Some(*stats),
                    None => #[trigger] self@.get(repo_path@, now) is None,
                },
    {
        let now = self.now();
        let found = self.get_at(repo_path, now);
        assert(match found {
            Some(stats) => self@.get(repo_path@, now as int) == Some(*stats),
            None => self@.get(repo_path@, now as int) is None,
        });
        found
    }

    /// Keeps `stats` for `repo_path` as of `now`, in place of what was kept
    /// before, and hands back the snapshot as the cache shares it.
    pub fn insert_at(&mut self, repo_path: String, stats: StatusSnapshot, now: u128) -> (shared:
        Arc<StatusSnapshot>)
        requires
            old(self).wf(),
        ensures
            final(self).wf(),
            final(self)@ == old(self)@.insert(repo_path@, stats, now as int),
            *shared == stats,
    {
        let kept = Arc::new(stats);
        let shared = share(&kept);
        let entry = CacheEntry { stats: kept, cached_at: now };
        let _ = self.entries.insert(repo_path, entry);
        assert(self@.entries =~= old(self)@.insert(repo_path@, stats, now as int).entries);
        shared
    }

    /// The upkeep at `now`: where a sweep is due, drops every entry that is no
    /// longer served and notes the sweep.
    pub fn maybe_cleanup_at(&mut self, now: u128)
        requires
            old(self).wf(),
        ensures
            final(self).wf(),
            final(self)@ == old(self)@.maybe_cleanup(now as int),
    {
        let due = match self.last_cleanup {
            Some(last) => {
                let since = if now >= last {
                    now - last
                } else {
                    0
                };
                since > (CLEANUP_INTERVAL_SECONDS as u128) * NANOS_PER_SECOND
            },
            None => true,
        };
        if due {
            self.last_cleanup = Some(now);
            self.sweep(now);
        }
    }

    /// Drops every entry that is no longer served at `now`.
    fn sweep(&mut self, now: u128)
        requires
            old(self).wf(),
        ensures
            final(self).wf(),
            final(self)@.entries == fresh_entries(old(self)@.entries, now as int),
            final(self)@.watched == old(self)@.watched,
            final(self)@.enabled == old(self)@.enabled,
            final(self)@.last_cleanup == old(self)@.last_cleanup,
    {
        let ghost before = self.entries@;
        let ghost t = now as int;
        let mut i: usize = 0;
        while i < self.entries.len()
            invariant
                self.entries.wf(),
                self.watcher_stops == old(self).watcher_stops,
                self.enabled == old(self).enabled,
                self.last_cleanup == old(self).last_cleanup,
                before == old(self).entries@,
                t == now as int,
                i <= self.entries.keys().len(),
                forall|k: Seq<char>| #[trigger]
                    self.entries@.contains_key(k) ==> before.contains_key(k) && self.entries@[k]
                        == before[k],
                forall|k: Seq<char>|
                    before.contains_key(k) && before[k].model().is_fresh(t)
                        ==> #[trigger] self.entries@.contains_key(k),
                forall|j: int|
                    0 <= j < i ==> (#[trigger] self.entries.values()[j]).model().is_fresh(t),
            decreases self.entries.keys().len() - i,
        {
            let entry = self.entries.value_at(i);
            let age = if now >= entry.cached_at {
                now - entry.cached_at
            } else {
                0
            };
            if age > (CACHE_TTL_SECONDS as u128) * NANOS_PER_SECOND {
                proof {
                    self.entries.lemma_view();
                }
                let _ = self.entries.remove_at(i);
            } else {
                i += 1;
            }
        }
        proof {
            self.entries.lemma_view();
            assert(self@.entries =~= fresh_entries(old(self)@.entries, t)) by {
                assert forall|k: Seq<char>| #[trigger]
                    self.entries@.contains_key(k) implies self.entries@[k].model().is_fresh(t) by {
                    let j = self.entries.keys().index_of(k);
                    assert(self.entries.keys()[j] == k);
                    assert(self.entries@[self.entries.keys()[j]] == self.entries.values()[j]);
                }
            }
        }
    }

    /// The upkeep at the time of the call. Whatever the time, no entry
    /// appears or changes, and no watcher is touched.
    pub fn maybe_cleanup(&mut self)
        requires
            old(self).wf(),
        ensures
            final(self).wf(),
            exists|now: int| final(self)@ == old(self)@.maybe_cleanup(now),
    {
        let now = self.now();
        self.maybe_cleanup_at(now);
        assert(self@ == old(self)@.maybe_cleanup(now as int));
    }

    /// Sets `stats` for `repo_path` at `now`: keeps it, then does the upkeep.
    /// The snapshot is handed back as the cache shares it.
    pub fn set_at(&mut self, repo_path: String, stats: StatusSnapshot, now: u128) -> (shared: Arc<
        StatusSnapshot,
    >)
        requires
            old(self).wf(),
        ensures
            final(self).wf(),
            final(self)@ == old(self)@.set(repo_path@, stats, now as int),
            *shared == stats,
    {
        let shared = self.insert_at(repo_path, stats, now);
        self.maybe_cleanup_at(now);
        shared
    }

    /// Sets `stats` for `repo_path` at the time of the call, then does the
    /// upkeep at the time that it then is.
    pub fn set(&mut self, repo_path: String, stats: StatusSnapshot)
        requires
            old(self).wf(),
        ensures
            final(self).wf(),
            exists|kept_at: int, swept_at: int|
                final(self)@ == old(self)@.insert(repo_path@, stats, kept_at).maybe_cleanup(
                    swept_at,
                ),
    {
        let kept_at = self.now();
        let _ = self.insert_at(repo_path, stats, kept_at);
        let swept_at = self.now();
        self.maybe_cleanup_at(swept_at);
        assert(self@ == old(self)@.insert(repo_path@, stats, kept_at as int).maybe_cleanup(
            swept_at as int,
        ));
    }

    /// Drops the entry of `repo_path`, so that the next lookup finds none.
    pub fn invalidate(&mut self, repo_path: &str)
        requires
            old(self).wf(),
        ensures
            final(self).wf(),
            final(self)@ == old(self)@.invalidate(repo_path@),
    {
        let _ = self.entries.remove(repo_path);
        assert(self@.entries =~= old(self)@.invalidate(repo_path@).entries);
    }

    /// Registers a watcher for `repo_path`, unless watching is switched off,
    /// the directory holds no repository or the repository is watched
    /// already. `stop` is the end of the channel whose closing stops the
    /// watcher; it is kept only where the result is `Started`, and let go of
    /// otherwise.
    pub fn setup_watcher(&mut self, repo_path: String, is_repository: bool, stop: Sender<()>) -> (r:
        Result<WatcherSetup, Failure>)
        requires
            old(self).wf(),
        ensures
            final(self).wf(),
            r == old(self)@.setup_outcome(repo_path@, is_repository),
            final(self)@ == old(self)@.setup_watcher(repo_path@, is_repository),
    {
        if !self.enabled {
            return Ok(WatcherSetup::Disabled);
        }
        if !is_repository {
            return Err(Failure::NothingToWatch);
        }
        if self.watcher_stops.contains_key(repo_path.as_str()) {
            return Ok(WatcherSetup::AlreadyWatching);
        }
        let _ = self.watcher_stops.insert(repo_path, stop);
        assert(self@.watched =~= old(self)@.watched.insert(repo_path@));
        Ok(WatcherSetup::Started)
    }

    /// Lets go of the watcher of `repo_path`, which stops it.
    pub fn stop_watcher(&mut self, repo_path: &str)
        requires
            old(self).wf(),
        ensures
            final(self).wf(),
            final(self)@ == old(self)@.stop_watcher(repo_path@),
    {
        let _ = self.watcher_stops.remove(repo_path);
        assert(self@.watched =~= old(self)@.watched.remove(repo_path@));
    }

    /// Lets go of every watcher.
    pub fn stop_all_watchers(&mut self)
        requires
            old(self).wf(),
        ensures
            final(self).wf(),
            final(self)@ == old(self)@.stop_all_watchers(),
    {
        self.watcher_stops.clear();
        assert(self@.watched =~= Set::<Seq<char>>::empty());
    }

    /// Switches watching on. Watchers that were stopped are not brought back.
    pub fn enable_watchers(&mut self)
        requires
            old(self).wf(),
        ensures
            final(self).wf(),
            final(self)@ == old(self)@.enable_watchers(),
    {
        self.enabled = true;
    }

    /// Switches watching off and lets go of every watcher.
    pub fn disable_watchers(&mut self)
        requires
            old(self).wf(),
        ensures
            final(self).wf(),
            final(self)@ == old(self)@.disable_watchers(),
    {
        self.enabled = false;
        self.stop_all_watchers();
    }

    /// Whether watching is switched on.
    pub fn is_enabled(&self) -> (enabled: bool)
        ensures
            enabled == self@.enabled,
    {
        self.enabled
    }

    /// Whether `repo_path` has a watcher.
    pub fn is_watched(&self, repo_path: &str) -> (watched: bool)
        requires
            self.wf(),
        ensures
            watched == self@.watched.contains(repo_path@),
    {
        self.watcher_stops.contains_key(repo_path)
    }

    /// The number of entries that are kept, served or not, and the number of watchers.
    pub fn stats(&self) -> (counts: (usize, usize))
        requires
            self.wf(),
        ensures
            counts.0 == self@.entries.len(),
            counts.1 == self@.watched.len(),
    {
        assert(self@.entries.dom() =~= self.entries@.dom());
        (self.entries.len(), self.watcher_stops.len())
    }

    /// Takes an event that the watcher of `repo_path` reports: `kind` is its
    /// kind and `names` are the file names of the paths it names. Where the
    /// event changes the status, the entry of `repo_path` is dropped, so that
    /// the next lookup finds none. An event for a repository that has no
    /// watcher is passed over. The result says whether the entry was dropped
    /// on account of the event.
    pub fn handle_event(
        &mut self,
        repo_path: &str,
        kind: WatchEventKind,
        names: &Vec<String>,
    ) -> (dropped: bool)
        requires
            old(self).wf(),
        ensures
            final(self).wf(),
            final(self)@ == old(self)@.handle_event(repo_path@, is_relevant(kind, texts(names@))),
            dropped == (is_relevant(kind, texts(names@)) && old(self)@.watched.contains(
                repo_path@,
            )),
    {
        if should_invalidate(kind, names) && self.watcher_stops.contains_key(repo_path) {
            self.invalidate(repo_path);
            true
        } else {
            false
        }
    }
}

} // verus!
