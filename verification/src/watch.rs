//! Which filesystem events change the status of a repository.
//!
//! A watcher looks at the metadata directory of a repository, not below it.
//! An event counts where it writes, creates or removes one of the files in
//! which the version-control tool keeps its state.

use crate::text::{is_listed, push_text, texts};
use vstd::prelude::*;

verus! {

/// What was created or removed.
#[derive(Clone, Copy, Debug, PartialEq, Eq, Structural)]
pub enum EntryKind {
    /// Not known.
    Any,
    /// A file.
    File,
    /// A directory.
    Folder,
    /// Something else.
    Other,
}

/// What was modified.
#[derive(Clone, Copy, Debug, PartialEq, Eq, Structural)]
pub enum ChangeKind {
    /// Not known.
    Any,
    /// The content of a file.
    Data,
    /// The metadata of a file.
    Metadata,
    /// The name of a file.
    Name,
    /// Something else.
    Other,
}

/// The kind of a filesystem event.
#[derive(Clone, Copy, Debug, PartialEq, Eq, Structural)]
pub enum WatchEventKind {
    /// Not known.
    Any,
    /// Something was read or opened.
    Access,
    /// Something was created.
    Create(EntryKind),
    /// Something was modified.
    Modify(ChangeKind),
    /// Something was removed.
    Remove(EntryKind),
    /// Something else.
    Other,
}

/// The files in the metadata directory whose change means a change of
/// status: the index, the head, the markers of a merge, a cherry-pick or a
/// rebase under way, and the draft of a commit message.
pub open spec fn state_files() -> Seq<Seq<char>> {
    seq![
        "index"@,
        "HEAD"@,
        "ORIG_HEAD"@,
        "MERGE_HEAD"@,
        "CHERRY_PICK_HEAD"@,
        "REBASE_HEAD"@,
        "COMMIT_EDITMSG"@,
    ]
}

/// Whether an event of this kind can change the status: content was
/// written, or a file was created or removed. Where the watcher cannot tell
/// what was modified, created or removed, the event counts.
pub open spec fn kind_qualifies(kind: WatchEventKind) -> bool {
    match kind {
        WatchEventKind::Modify(ChangeKind::Data) => true,
        WatchEventKind::Modify(ChangeKind::Any) => true,
        WatchEventKind::Create(EntryKind::File) => true,
        WatchEventKind::Create(EntryKind::Any) => true,
        WatchEventKind::Remove(EntryKind::File) => true,
        WatchEventKind::Remove(EntryKind::Any) => true,
        _ => false,
    }
}

/// Whether one of `names` is a state file.
pub open spec fn names_state_file(names: Seq<Seq<char>>) -> bool {
    exists|i: int| 0 <= i < names.len() && state_files().contains(#[trigger] names[i])
}

/// Whether an event of kind `kind` on files named `names` changes the status.
pub open spec fn is_relevant(kind: WatchEventKind, names: Seq<Seq<char>>) -> bool {
    kind_qualifies(kind) && names_state_file(names)
}

/// The list `state_files`, for use at run time.
pub fn state_file_list() -> (v: Vec<String>)
    ensures
        texts(v@) == state_files(),
{
    let mut v: Vec<String> = Vec::new();
    assert(texts(v@) =~= Seq::<Seq<char>>::empty());
    push_text(&mut v, "index");
    push_text(&mut v, "HEAD");
    push_text(&mut v, "ORIG_HEAD");
    push_text(&mut v, "MERGE_HEAD");
    push_text(&mut v, "CHERRY_PICK_HEAD");
    push_text(&mut v, "REBASE_HEAD");
    push_text(&mut v, "COMMIT_EDITMSG");
    assert(texts(v@) =~= state_files());
    v
}

/// Decides `kind_qualifies`.
pub fn event_kind_qualifies(kind: WatchEventKind) -> (b: bool)
    ensures
        b == kind_qualifies(kind),
{
    match kind {
        WatchEventKind::Modify(ChangeKind::Data) => true,
        WatchEventKind::Modify(ChangeKind::Any) => true,
        WatchEventKind::Create(EntryKind::File) => true,
        WatchEventKind::Create(EntryKind::Any) => true,
        WatchEventKind::Remove(EntryKind::File) => true,
        WatchEventKind::Remove(EntryKind::Any) => true,
        _ => false,
    }
}

/// Decides `is_relevant`: `names` are the file names of the paths that the
/// event reports, the empty name for a path that has none.
pub fn should_invalidate(kind: WatchEventKind, names: &Vec<String>) -> (b: bool)
    ensures
        b == is_relevant(kind, texts(names@)),
{
    if !event_kind_qualifies(kind) {
        return false;
    }
    let files = state_file_list();
    let mut i: usize = 0;
    while i < names.len()
        invariant
            i <= names.len(),
            kind_qualifies(kind),
            texts(files@) == state_files(),
            forall|j: int| 0 <= j < i ==> !state_files().contains(#[trigger] texts(names@)[j]),
        decreases names.len() - i,
    {
        if is_listed(&files, names[i].as_str()) {
            assert(texts(names@)[i as int] == names@[i as int]@);
            assert(state_files().contains(texts(names@)[i as int]));
            assert(names_state_file(texts(names@)));
            return true;
        }
        i += 1;
    }
    false
}

/// How long a watcher waits for the signal to stop before it looks again, in seconds.
pub const WATCHER_POLL_SECONDS: u64 = 1;

/// What a watcher finds when it has waited for the signal to stop.
#[derive(Clone, Copy, Debug, PartialEq, Eq, Structural)]
pub enum StopSignal {
    /// The signal came.
    Received,
    /// The other end of the channel is gone: the registration was dropped.
    Disconnected,
    /// Nothing came in time.
    TimedOut,
}

/// Whether a watcher goes on watching after it has waited for the signal to
/// stop: it does as long as nothing was sent and the registration stands.
pub fn watcher_continues(signal: StopSignal) -> (go_on: bool)
    ensures
        go_on == (signal == StopSignal::TimedOut),
{
    match signal {
        StopSignal::TimedOut => true,
        _ => false,
    }
}

} // verus!
