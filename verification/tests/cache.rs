use std::sync::mpsc::{channel, Sender};
use term_core::error::Failure;
use term_core::fs::git::{lookup_status, store_status, GitStats, StatusLookup, StatusSnapshot};
use term_core::git_cache::{
    GitStatsCache, WatcherSetup, CACHE_TTL_SECONDS, CLEANUP_INTERVAL_SECONDS, NANOS_PER_SECOND,
};
use term_core::table::Table;
use term_core::watch::{ChangeKind, EntryKind, WatchEventKind};

const SECOND: u128 = 1_000_000_000;

fn snapshot(files: &[(&str, usize, usize, Option<&str>)]) -> StatusSnapshot {
    let mut t: StatusSnapshot = Table::new();
    for (path, added, deleted, status) in files {
        t.insert(
            path.to_string(),
            GitStats { added: *added, deleted: *deleted, status: status.map(|s| s.to_string()) },
        );
    }
    t
}

fn stop() -> Sender<()> {
    channel::<()>().0
}

fn names(items: &[&str]) -> Vec<String> {
    items.iter().map(|s| s.to_string()).collect()
}

#[test]
fn constants_are_one_second_and_one_minute() {
    assert_eq!(CACHE_TTL_SECONDS, 1);
    assert_eq!(CLEANUP_INTERVAL_SECONDS, 60);
    assert_eq!(NANOS_PER_SECOND, SECOND);
}

#[test]
fn new_cache_is_empty_and_enabled() {
    let cache = GitStatsCache::new();
    assert!(cache.is_enabled());
    assert_eq!(cache.stats(), (0, 0));
    assert!(cache.get("/repo").is_none());
    assert!(cache.get_at("/repo", 0).is_none());
}

#[test]
fn set_then_get_within_ttl_returns_what_was_set() {
    let mut cache = GitStatsCache::new();
    cache.set_at("/repo".to_string(), snapshot(&[("/repo/a", 3, 1, None)]), 5 * SECOND);
    let got = cache.get_at("/repo", 5 * SECOND + 1).expect("served within the time to live");
    assert_eq!(got.len(), 1);
    let a = got.get("/repo/a").expect("the file is in the snapshot");
    assert_eq!((a.added, a.deleted, a.status.clone()), (3, 1, None));
    assert!(cache.get_at("/repo", 6 * SECOND).is_some());
    assert!(cache.get_at("/other", 5 * SECOND).is_none());
}

#[test]
fn entry_expires_just_after_the_ttl() {
    let mut cache = GitStatsCache::new();
    cache.set_at("/repo".to_string(), snapshot(&[]), 10 * SECOND);
    assert!(cache.get_at("/repo", 11 * SECOND).is_some());
    assert!(cache.get_at("/repo", 11 * SECOND + 1).is_none());
    assert!(cache.get_at("/repo", 100 * SECOND).is_none());
    assert_eq!(cache.stats().0, 1);
}

#[test]
fn a_clock_that_runs_backwards_counts_as_no_age() {
    let mut cache = GitStatsCache::new();
    cache.set_at("/repo".to_string(), snapshot(&[]), 10 * SECOND);
    assert!(cache.get_at("/repo", 0).is_some());
}

#[test]
fn set_with_the_clock_is_served_at_once() {
    let mut cache = GitStatsCache::new();
    cache.set("/repo".to_string(), snapshot(&[("/repo/x", 1, 2, Some("deleted"))]));
    let got = cache.get("/repo").expect("just set");
    let x = got.get("/repo/x").expect("the file is in the snapshot");
    assert_eq!((x.added, x.deleted, x.status.clone()), (1, 2, Some("deleted".to_string())));
}

#[test]
fn set_replaces_the_entry() {
    let mut cache = GitStatsCache::new();
    cache.set_at("/repo".to_string(), snapshot(&[("/repo/a", 1, 0, None)]), SECOND);
    cache.set_at("/repo".to_string(), snapshot(&[("/repo/b", 2, 0, None)]), 2 * SECOND);
    let got = cache.get_at("/repo", 2 * SECOND).expect("served");
    assert!(got.get("/repo/a").is_none());
    assert_eq!(got.get("/repo/b").map(|g| g.added), Some(2));
    assert_eq!(cache.stats().0, 1);
}

#[test]
fn first_set_sweeps_and_later_sets_wait_for_the_interval() {
    let mut cache = GitStatsCache::new();
    cache.insert_at("/old".to_string(), snapshot(&[]), 0);
    assert_eq!(cache.stats().0, 1);
    // The first upkeep is always due: the stale entry goes.
    cache.set_at("/a".to_string(), snapshot(&[]), 10 * SECOND);
    assert_eq!(cache.stats().0, 1);
    assert!(cache.get_at("/a", 10 * SECOND).is_some());
    // Within the interval nothing is swept, stale or not.
    cache.set_at("/b".to_string(), snapshot(&[]), 70 * SECOND);
    assert_eq!(cache.stats().0, 2);
    // Just past the interval the stale entries go.
    cache.set_at("/c".to_string(), snapshot(&[]), 70 * SECOND + 1);
    assert_eq!(cache.stats().0, 2);
    assert!(cache.get_at("/b", 70 * SECOND + 1).is_some());
    assert!(cache.get_at("/c", 70 * SECOND + 1).is_some());
}

#[test]
fn maybe_cleanup_keeps_fresh_entries() {
    let mut cache = GitStatsCache::new();
    cache.insert_at("/stale".to_string(), snapshot(&[]), 0);
    cache.insert_at("/edge".to_string(), snapshot(&[]), 4 * SECOND);
    cache.insert_at("/fresh".to_string(), snapshot(&[]), 5 * SECOND);
    cache.maybe_cleanup_at(5 * SECOND);
    assert_eq!(cache.stats().0, 2);
    assert!(cache.get_at("/edge", 5 * SECOND).is_some());
    assert!(cache.get_at("/fresh", 5 * SECOND).is_some());
    cache.maybe_cleanup();
    assert_eq!(cache.stats().0, 2);
}

#[test]
fn invalidate_drops_one_entry() {
    let mut cache = GitStatsCache::new();
    cache.set_at("/a".to_string(), snapshot(&[]), SECOND);
    cache.set_at("/b".to_string(), snapshot(&[]), SECOND);
    cache.invalidate("/a");
    cache.invalidate("/never");
    assert!(cache.get_at("/a", SECOND).is_none());
    assert!(cache.get_at("/b", SECOND).is_some());
}

#[test]
fn setup_watcher_registers_once() {
    let mut cache = GitStatsCache::new();
    assert_eq!(cache.setup_watcher("/r".to_string(), true, stop()).ok(), Some(WatcherSetup::Started));
    assert!(cache.is_watched("/r"));
    assert_eq!(
        cache.setup_watcher("/r".to_string(), true, stop()).ok(),
        Some(WatcherSetup::AlreadyWatching)
    );
    assert_eq!(cache.stats(), (0, 1));
}

#[test]
fn setup_watcher_refuses_what_is_no_repository() {
    let mut cache = GitStatsCache::new();
    match cache.setup_watcher("/plain".to_string(), false, stop()) {
        Err(f) => {
            assert!(matches!(f, Failure::NothingToWatch));
            assert_eq!(f.message(), "Not a git repository");
            assert!(!f.reaches_caller());
        }
        Ok(_) => panic!("a directory without a repository is not watched"),
    }
    assert!(!cache.is_watched("/plain"));
}

#[test]
fn setup_watcher_does_nothing_when_disabled() {
    let mut cache = GitStatsCache::new();
    cache.disable_watchers();
    assert_eq!(
        cache.setup_watcher("/r".to_string(), true, stop()).ok(),
        Some(WatcherSetup::Disabled)
    );
    // Disabled is answered before the directory is looked at.
    assert_eq!(
        cache.setup_watcher("/plain".to_string(), false, stop()).ok(),
        Some(WatcherSetup::Disabled)
    );
    assert_eq!(cache.stats(), (0, 0));
}

#[test]
fn dropping_the_registration_closes_the_channel() {
    let mut cache = GitStatsCache::new();
    let (tx, rx) = channel::<()>();
    assert_eq!(cache.setup_watcher("/r".to_string(), true, tx).ok(), Some(WatcherSetup::Started));
    assert!(matches!(rx.try_recv(), Err(std::sync::mpsc::TryRecvError::Empty)));
    cache.stop_watcher("/r");
    assert!(matches!(rx.try_recv(), Err(std::sync::mpsc::TryRecvError::Disconnected)));
    assert!(!cache.is_watched("/r"));
}

#[test]
fn disabling_tears_down_every_watcher() {
    let mut cache = GitStatsCache::new();
    let (tx1, rx1) = channel::<()>();
    let (tx2, rx2) = channel::<()>();
    cache.setup_watcher("/a".to_string(), true, tx1).ok();
    cache.setup_watcher("/b".to_string(), true, tx2).ok();
    assert_eq!(cache.stats().1, 2);
    cache.disable_watchers();
    assert!(!cache.is_enabled());
    assert_eq!(cache.stats().1, 0);
    assert!(matches!(rx1.try_recv(), Err(std::sync::mpsc::TryRecvError::Disconnected)));
    assert!(matches!(rx2.try_recv(), Err(std::sync::mpsc::TryRecvError::Disconnected)));
    cache.enable_watchers();
    assert!(cache.is_enabled());
    assert_eq!(cache.stats().1, 0);
}

#[test]
fn stop_all_watchers_keeps_watching_enabled() {
    let mut cache = GitStatsCache::new();
    cache.setup_watcher("/a".to_string(), true, stop()).ok();
    cache.stop_all_watchers();
    assert!(cache.is_enabled());
    assert_eq!(cache.stats().1, 0);
    assert_eq!(cache.setup_watcher("/a".to_string(), true, stop()).ok(), Some(WatcherSetup::Started));
}

#[test]
fn qualifying_event_forces_recomputation_before_the_ttl() {
    let mut cache = GitStatsCache::new();
    cache.set_at("/r".to_string(), snapshot(&[("/r/a", 1, 1, None)]), SECOND);
    cache.setup_watcher("/r".to_string(), true, stop()).ok();
    assert!(cache.get_at("/r", SECOND).is_some());
    let dropped =
        cache.handle_event("/r", WatchEventKind::Modify(ChangeKind::Data), &names(&["index"]));
    assert!(dropped);
    assert!(cache.get_at("/r", SECOND).is_none());
    assert!(cache.is_watched("/r"));
}

#[test]
fn event_on_other_files_or_of_other_kinds_changes_nothing() {
    let mut cache = GitStatsCache::new();
    cache.set_at("/r".to_string(), snapshot(&[]), SECOND);
    cache.setup_watcher("/r".to_string(), true, stop()).ok();
    assert!(!cache.handle_event("/r", WatchEventKind::Modify(ChangeKind::Data), &names(&["config"])));
    assert!(!cache.handle_event("/r", WatchEventKind::Access, &names(&["index"])));
    assert!(!cache.handle_event("/r", WatchEventKind::Create(EntryKind::Folder), &names(&["HEAD"])));
    assert!(!cache.handle_event("/r", WatchEventKind::Modify(ChangeKind::Data), &names(&[])));
    assert!(cache.get_at("/r", SECOND).is_some());
}

#[test]
fn after_disabling_a_qualifying_event_forces_nothing() {
    let mut cache = GitStatsCache::new();
    cache.set_at("/r".to_string(), snapshot(&[]), SECOND);
    cache.setup_watcher("/r".to_string(), true, stop()).ok();
    cache.disable_watchers();
    let dropped =
        cache.handle_event("/r", WatchEventKind::Remove(EntryKind::File), &names(&["MERGE_HEAD"]));
    assert!(!dropped);
    assert!(cache.get_at("/r", SECOND).is_some());
    // The value still expires by age.
    assert!(cache.get_at("/r", 3 * SECOND).is_none());
}

#[test]
fn lookup_serves_the_cache_and_asks_to_collect_on_a_miss() {
    let mut cache = GitStatsCache::new();
    assert!(matches!(lookup_status(&cache, "/r", 0), StatusLookup::Collect));
    let (shared, start) =
        store_status(&mut cache, "/r".to_string(), snapshot(&[("/r/f", 10, 0, Some("untracked"))]), true, stop(), 0);
    assert!(start);
    assert_eq!(shared.len(), 1);
    match lookup_status(&cache, "/r", SECOND) {
        StatusLookup::Cached(stats) => {
            let f = stats.get("/r/f").expect("the file is in the snapshot");
            assert_eq!((f.added, f.deleted), (10, 0));
            assert_eq!(f.status.as_deref(), Some("untracked"));
        }
        StatusLookup::Collect => panic!("served within the time to live"),
    }
    assert!(matches!(lookup_status(&cache, "/r", SECOND + 1), StatusLookup::Collect));
    let (_, again) = store_status(&mut cache, "/r".to_string(), snapshot(&[]), true, stop(), 2 * SECOND);
    assert!(!again);
    let (_, plain) = store_status(&mut cache, "/p".to_string(), snapshot(&[]), false, stop(), 2 * SECOND);
    assert!(!plain);
    assert_eq!(cache.stats(), (2, 1));
}
