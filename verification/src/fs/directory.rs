//! Listing directories: what an entry of a listing is, in what order the
//! entries are given, and how far a walk through a tree goes.

use crate::order::{is_stable_order, key_views, positions, stable_order, SortKey};
use crate::text::{chars_of, is_listed, push_text, texts};
use crate::trusted::{lowercased, to_lowercase};
use vstd::prelude::*;

verus! {

/// An entry of a directory.
pub struct DirectoryEntry {
    /// The name of the entry.
    pub name: String,
    /// The path of the entry.
    pub path: String,
    /// Whether the entry is a directory.
    pub is_dir: bool,
}

/// An entry of a tree of directories.
pub struct RecursiveDirectoryEntry {
    /// The name of the entry.
    pub name: String,
    /// The path of the entry.
    pub path: String,
    /// Whether the entry is a directory.
    pub is_dir: bool,
    /// How far below the root of the walk the entry lies; 1 for an entry of the root.
    pub depth: usize,
    /// The path of the directory that holds the entry.
    pub parent_path: String,
}

/// How deep a walk goes where nothing else is asked for.
pub const DEFAULT_MAX_DEPTH: usize = 10;

/// How many entries a walk gives where nothing else is asked for.
pub const DEFAULT_MAX_FILES: usize = 10000;

/// The depth and the number of entries at which a walk ends.
pub fn walk_limits(max_depth: Option<usize>, max_files: Option<usize>) -> (limits: (usize, usize))
    ensures
        limits.0 == (match max_depth {
            Some(d) => d,
            None => DEFAULT_MAX_DEPTH,
        }),
        limits.1 == (match max_files {
            Some(f) => f,
            None => DEFAULT_MAX_FILES,
        }),
{
    (
        match max_depth {
            Some(d) => d,
            None => DEFAULT_MAX_DEPTH,
        },
        match max_files {
            Some(f) => f,
            None => DEFAULT_MAX_FILES,
        },
    )
}

/// The directories that a walk does not enter: the metadata of version
/// control, what package managers fetch and what builds leave behind.
pub open spec fn ignored_directories() -> Seq<Seq<char>> {
    seq![
        ".git"@,
        "node_modules"@,
        "target"@,
        "dist"@,
        "build"@,
        ".cache"@,
        ".next"@,
        ".nuxt"@,
        "__pycache__"@,
        ".venv"@,
        "venv"@,
    ]
}

/// The list `ignored_directories`, for use at run time.
pub fn ignored_directory_list() -> (v: Vec<String>)
    ensures
        texts(v@) == ignored_directories(),
{
    let mut v: Vec<String> = Vec::new();
    assert(texts(v@) =~= Seq::<Seq<char>>::empty());
    push_text(&mut v, ".git");
    push_text(&mut v, "node_modules");
    push_text(&mut v, "target");
    push_text(&mut v, "dist");
    push_text(&mut v, "build");
    push_text(&mut v, ".cache");
    push_text(&mut v, ".next");
    push_text(&mut v, ".nuxt");
    push_text(&mut v, "__pycache__");
    push_text(&mut v, ".venv");
    push_text(&mut v, "venv");
    assert(texts(v@) =~= ignored_directories());
    v
}

/// What `Option<String>` holds, as characters.
pub open spec fn name_text(name: Option<String>) -> Option<Seq<char>> {
    match name {
        Some(n) => Some(n@),
        None => None,
    }
}

/// Whether a walk passes over an entry and, where it is a directory, over
/// all that lies below it: it does for a directory whose name is one of the
/// ignored ones. `name` is the name of the entry, where it is text.
pub fn walk_passes_over(is_dir: bool, name: &Option<String>) -> (over: bool)
    ensures
        over == (is_dir && match name_text(*name) {
            Some(n) => ignored_directories().contains(n),
            None => false,
        }),
{
    if !is_dir {
        return false;
    }
    match name {
        Some(n) => {
            let ignored = ignored_directory_list();
            is_listed(&ignored, n.as_str())
        },
        None => false,
    }
}

/// What a walk does with the entry it has come to.
#[derive(Clone, Copy, Debug, PartialEq, Eq, Structural)]
pub enum WalkStep {
    /// The walk ends: it has as many entries as it may give.
    Stop,
    /// The entry is left out.
    Skip,
    /// The entry is kept.
    Keep,
}

/// Decides what a walk does with the entry it has come to. `kept` is the
/// number of entries kept so far. The walk ends once it has `max_files`
/// entries; the root of the walk and symbolic links are left out.
pub fn walk_step(kept: usize, max_files: usize, is_root: bool, is_symlink: bool) -> (step: WalkStep)
    ensures
        step == (if kept >= max_files {
            WalkStep::Stop
        } else if is_root || is_symlink {
            WalkStep::Skip
        } else {
            WalkStep::Keep
        }),
{
    if kept >= max_files {
        WalkStep::Stop
    } else if is_root || is_symlink {
        WalkStep::Skip
    } else {
        WalkStep::Keep
    }
}

/// The name under which an entry is listed: its own where it is text, and
/// `Unknown` otherwise.
pub fn entry_name(name: Option<String>) -> (shown: String)
    ensures
        shown@ == (match name {
            Some(n) => n@,
            None => "Unknown"@,
        }),
{
    match name {
        Some(n) => n,
        None => "Unknown".to_owned(),
    }
}

/// The key by which an entry is ordered.
pub open spec fn sort_key_of(is_dir: bool, name: Seq<char>) -> (bool, Seq<char>) {
    (is_dir, lowercased(name))
}

/// The key by which an entry is ordered.
pub fn sort_key(is_dir: bool, name: &str) -> (key: SortKey)
    ensures
        key@ == sort_key_of(is_dir, name@),
{
    let lower = to_lowercase(name);
    SortKey { is_dir, name: chars_of(lower.as_str()) }
}

/// The keys of the entries of a listing.
pub open spec fn directory_keys(entries: Seq<DirectoryEntry>) -> Seq<(bool, Seq<char>)> {
    Seq::new(entries.len(), |i: int| sort_key_of(entries[i].is_dir, entries[i].name@))
}

/// The keys of the entries of a walk.
pub open spec fn recursive_keys(entries: Seq<RecursiveDirectoryEntry>) -> Seq<(bool, Seq<char>)> {
    Seq::new(entries.len(), |i: int| sort_key_of(entries[i].is_dir, entries[i].name@))
}

/// Whether `sorted` holds the entries of `entries` as `order` places them:
/// at each place of `sorted` stands a copy of the entry that `order` names.
pub open spec fn is_arranged(
    entries: Seq<DirectoryEntry>,
    order: Seq<int>,
    sorted: Seq<DirectoryEntry>,
) -> bool {
    &&& sorted.len() == order.len()
    &&& forall|i: int|
        0 <= i < sorted.len() ==> {
            let from = entries[order[i]];
            &&& (#[trigger] sorted[i]).name@ == from.name@
            &&& sorted[i].path@ == from.path@
            &&& sorted[i].is_dir == from.is_dir
        }
}

/// Whether `sorted` is the listing `entries` put in order: directories
/// first, then files, each by name without regard to case, and entries that
/// are equal in this as they came.
pub open spec fn is_sorted_listing(entries: Seq<DirectoryEntry>, sorted: Seq<DirectoryEntry>) -> bool {
    exists|order: Seq<int>|
        is_stable_order(directory_keys(entries), order) && #[trigger] is_arranged(
            entries,
            order,
            sorted,
        )
}

/// Puts a listing in order.
pub fn sort_directory(entries: &Vec<DirectoryEntry>) -> (sorted: Vec<DirectoryEntry>)
    ensures
        is_sorted_listing(entries@, sorted@),
{
    let mut keys: Vec<SortKey> = Vec::new();
    let mut i: usize = 0;
    while i < entries.len()
        invariant
            i <= entries.len(),
            keys@.len() == i,
            key_views(keys@) == directory_keys(entries@).take(i as int),
        decreases entries.len() - i,
    {
        let key = sort_key(entries[i].is_dir, entries[i].name.as_str());
        keys.push(key);
        assert(key_views(keys@) =~= directory_keys(entries@).take(i + 1));
        i += 1;
    }
    assert(directory_keys(entries@).take(entries@.len() as int) =~= directory_keys(entries@));
    let order = stable_order(&keys);
    let ghost places = positions(order@);
    let mut sorted: Vec<DirectoryEntry> = Vec::new();
    let mut j: usize = 0;
    while j < order.len()
        invariant
            j <= order.len(),
            order@.len() == entries@.len(),
            places == positions(order@),
            is_stable_order(directory_keys(entries@), places),
            sorted@.len() == j,
            is_arranged(entries@, places.take(j as int), sorted@),
        decreases order.len() - j,
    {
        assert(0 <= places[j as int] < entries@.len());
        let from = &entries[order[j]];
        sorted.push(
            DirectoryEntry { name: from.name.clone(), path: from.path.clone(), is_dir: from.is_dir },
        );
        assert(is_arranged(entries@, places.take(j + 1), sorted@)) by {
            assert forall|i: int| 0 <= i < sorted@.len() implies {
                let from = entries@[places.take(j + 1)[i]];
                &&& (#[trigger] sorted@[i]).name@ == from.name@
                &&& sorted@[i].path@ == from.path@
                &&& sorted@[i].is_dir == from.is_dir
            } by {
                if i < j {
                    assert(places.take(j as int)[i] == places.take(j + 1)[i]);
                }
            }
        }
        j += 1;
    }
    assert(places.take(order@.len() as int) =~= places);
    sorted
}

/// Whether `sorted` holds the entries of `entries` as `order` places them.
pub open spec fn is_arranged_walk(
    entries: Seq<RecursiveDirectoryEntry>,
    order: Seq<int>,
    sorted: Seq<RecursiveDirectoryEntry>,
) -> bool {
    &&& sorted.len() == order.len()
    &&& forall|i: int|
        0 <= i < sorted.len() ==> {
            let from = entries[order[i]];
            &&& (#[trigger] sorted[i]).name@ == from.name@
            &&& sorted[i].path@ == from.path@
            &&& sorted[i].is_dir == from.is_dir
            &&& sorted[i].depth == from.depth
            &&& sorted[i].parent_path@ == from.parent_path@
        }
}

/// Whether `sorted` is what the walk `entries` gave, put in order as a
/// listing is.
pub open spec fn is_sorted_walk(
    entries: Seq<RecursiveDirectoryEntry>,
    sorted: Seq<RecursiveDirectoryEntry>,
) -> bool {
    exists|order: Seq<int>|
        is_stable_order(recursive_keys(entries), order) && #[trigger] is_arranged_walk(
            entries,
            order,
            sorted,
        )
}

/// Puts what a walk gave in order.
pub fn sort_recursive(entries: &Vec<RecursiveDirectoryEntry>) -> (sorted: Vec<
    RecursiveDirectoryEntry,
>)
    ensures
        is_sorted_walk(entries@, sorted@),
{
    let mut keys: Vec<SortKey> = Vec::new();
    let mut i: usize = 0;
    while i < entries.len()
        invariant
            i <= entries.len(),
            keys@.len() == i,
            key_views(keys@) == recursive_keys(entries@).take(i as int),
        decreases entries.len() - i,
    {
        let key = sort_key(entries[i].is_dir, entries[i].name.as_str());
        keys.push(key);
        assert(key_views(keys@) =~= recursive_keys(entries@).take(i + 1));
        i += 1;
    }
    assert(recursive_keys(entries@).take(entries@.len() as int) =~= recursive_keys(entries@));
    let order = stable_order(&keys);
    let ghost places = positions(order@);
    let mut sorted: Vec<RecursiveDirectoryEntry> = Vec::new();
    let mut j: usize = 0;
    while j < order.len()
        invariant
            j <= order.len(),
            order@.len() == entries@.len(),
            places == positions(order@),
            is_stable_order(recursive_keys(entries@), places),
            sorted@.len() == j,
            is_arranged_walk(entries@, places.take(j as int), sorted@),
        decreases order.len() - j,
    {
        assert(0 <= places[j as int] < entries@.len());
        let from = &entries[order[j]];
        sorted.push(
            RecursiveDirectoryEntry {
                name: from.name.clone(),
                path: from.path.clone(),
                is_dir: from.is_dir,
                depth: from.depth,
                parent_path: from.parent_path.clone(),
            },
        );
        assert(is_arranged_walk(entries@, places.take(j + 1), sorted@)) by {
            assert forall|i: int| 0 <= i < sorted@.len() implies {
                let from = entries@[places.take(j + 1)[i]];
                &&& (#[trigger] sorted@[i]).name@ == from.name@
                &&& sorted@[i].path@ == from.path@
                &&& sorted@[i].is_dir == from.is_dir
                &&& sorted@[i].depth == from.depth
                &&& sorted@[i].parent_path@ == from.parent_path@
            } by {
                if i < j {
                    assert(places.take(j as int)[i] == places.take(j + 1)[i]);
                }
            }
        }
        j += 1;
    }
    assert(places.take(order@.len() as int) =~= places);
    sorted
}

} // verus!
