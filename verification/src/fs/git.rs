//! Repository status: the per-file record and the snapshot of a repository.

use crate::error::Failure;
use crate::git_cache::{GitStatsCache, WatcherSetup};
use crate::scan::{count_of, lines, lines_of, parse_count, runs, split, split_bytes, TAB};
use crate::table::Table;
use crate::text::{push_text, strip_prefix, texts, trim, trimmed, without_prefix};
use crate::trusted::{decode_lossy, utf8_lossy};
use std::sync::mpsc::Sender;
use std::sync::Arc;
use vstd::prelude::*;

verus! {

/// How a file differs from the last commit.
#[derive(Clone, Debug)]
pub struct GitStats {
    /// Lines added.
    pub added: usize,
    /// Lines deleted.
    pub deleted: usize,
    /// `"untracked"` or `"deleted"`; `None` for a file that is modified.
    pub status: Option<String>,
}

/// The status of a repository: one record for each file that differs, by the
/// file's absolute path.
pub type StatusSnapshot = Table<GitStats>;

/// A file as it is in the last commit and as it is now.
pub struct GitDiffResult {
    /// The path of the file, as it was asked for.
    pub file_path: String,
    /// The content in the last commit; empty for a new file.
    pub old_content: String,
    /// The content now; empty for a file that exists no longer.
    pub new_content: String,
    /// Lines added.
    pub added_lines: usize,
    /// Lines deleted.
    pub deleted_lines: usize,
    /// Whether the last commit does not hold the file.
    pub is_new_file: bool,
    /// Whether the last commit holds the file and it exists no longer.
    pub is_deleted_file: bool,
}

/// How a request for the status of a repository goes on after the cache was asked.
pub enum StatusLookup {
    /// The cache serves a snapshot: it is the answer, and nothing is collected.
    Cached(Arc<StatusSnapshot>),
    /// The cache serves none: the status is to be collected.
    Collect,
}

/// Asks the cache for the status of `canonical_path` at `now`.
pub fn lookup_status(cache: &GitStatsCache, canonical_path: &str, now: u128) -> (lookup:
    StatusLookup)
    requires
        cache.wf(),
    ensures
        match lookup {
            StatusLookup::Cached(stats) => cache@.get(canonical_path@, now as int) == Some(*stats),
            StatusLookup::Collect => cache@.get(canonical_path@, now as int) is None,
        },
{
    match cache.get_at(canonical_path, now) {
        Some(stats) => StatusLookup::Cached(stats),
        None => StatusLookup::Collect,
    }
}

/// Ends a request for which the status was collected: sets `stats` for
/// `canonical_path` at `now` and asks for a watcher of the repository.
/// `is_repository` says whether the directory holds a repository, and `stop`
/// is the end of the channel whose closing stops the watcher. That no
/// watcher could be registered is no failure of the request. The result is
/// the snapshot, shared with the cache, and whether a watcher was
/// registered, which is then to be started.
pub fn store_status(
    cache: &mut GitStatsCache,
    canonical_path: String,
    stats: StatusSnapshot,
    is_repository: bool,
    stop: Sender<()>,
    now: u128,
) -> (stored: (Arc<StatusSnapshot>, bool))
    requires
        old(cache).wf(),
    ensures
        final(cache).wf(),
        final(cache)@ == old(cache)@.set(canonical_path@, stats, now as int).setup_watcher(
            canonical_path@,
            is_repository,
        ),
        *stored.0 == stats,
        stored.1 == old(cache)@.registers(canonical_path@, is_repository),
{
    let watch = canonical_path.clone();
    let shared = cache.set_at(canonical_path, stats, now);
    let start = match cache.setup_watcher(watch, is_repository, stop) {
        Ok(WatcherSetup::Started) => true,
        _ => false,
    };
    (shared, start)
}

/// A record as a mathematical value.
pub struct StatsModel {
    pub added: nat,
    pub deleted: nat,
    pub status: Option<Seq<char>>,
}

impl View for GitStats {
    type V = StatsModel;

    open spec fn view(&self) -> StatsModel {
        StatsModel {
            added: self.added as nat,
            deleted: self.deleted as nat,
            status: match self.status {
                Some(s) => Some(s@),
                None => None,
            },
        }
    }
}

/// A snapshot as a mathematical value: the record of each path.
pub open spec fn snapshot_model(snapshot: StatusSnapshot) -> Map<Seq<char>, StatsModel> {
    snapshot@.map_values(|stats: GitStats| stats@)
}

/// The text that a run of bytes from a tool's output stands for.
pub fn text_of(bytes: &[u8]) -> (text: String)
    ensures
        text@ == utf8_lossy(bytes@),
{
    decode_lossy(bytes)
}

/// One line of the summary of changes: lines added, lines deleted, and the
/// path of the file as the tool printed it.
pub struct NumstatLine {
    pub added: usize,
    pub deleted: usize,
    pub path: Vec<u8>,
}

impl View for NumstatLine {
    type V = (nat, nat, Seq<u8>);

    open spec fn view(&self) -> (nat, nat, Seq<u8>) {
        (self.added as nat, self.deleted as nat, self.path@)
    }
}

/// What a line of the summary of changes says: it has three fields, parted
/// by tabs, of which the first two give the counts and the third is the
/// path. A line of another shape says nothing. A count that is no number,
/// as for a binary file, is 0.
pub open spec fn numstat_fields(line: Seq<u8>) -> Option<(nat, nat, Seq<u8>)> {
    let parts = split(line, TAB);
    if parts.len() == 3 {
        Some((count_of(parts[0]), count_of(parts[1]), parts[2]))
    } else {
        None
    }
}

/// Reads one line of the summary of changes.
pub fn parse_numstat_line(line: &[u8]) -> (parsed: Option<NumstatLine>)
    ensures
        match parsed {
            Some(entry) => numstat_fields(line@) == Some(entry@),
            None => numstat_fields(line@) is None,
        },
{
    let mut parts = split_bytes(line, TAB);
    if parts.len() != 3 {
        return None;
    }
    let ghost fields = runs(parts@);
    let added = parse_count(parts[0].as_slice());
    let deleted = parse_count(parts[1].as_slice());
    let path = parts.pop().unwrap();
    assert(path@ == fields[2]);
    assert(added == count_of(fields[0]));
    assert(deleted == count_of(fields[1]));
    Some(NumstatLine { added, deleted, path })
}

/// What the lines of a summary of changes say, in order.
pub open spec fn numstat_records(lines: Seq<Seq<u8>>) -> Seq<(nat, nat, Seq<u8>)>
    decreases lines.len(),
{
    if lines.len() == 0 {
        Seq::empty()
    } else {
        let before = numstat_records(lines.drop_last());
        match numstat_fields(lines.last()) {
            Some(record) => before.push(record),
            None => before,
        }
    }
}

/// The entries of a list, each as a mathematical value.
pub open spec fn numstat_views(entries: Seq<NumstatLine>) -> Seq<(nat, nat, Seq<u8>)> {
    Seq::new(entries.len(), |i: int| entries[i]@)
}

/// Reads the summary of changes that the tool printed.
pub fn parse_numstat(stdout: &[u8]) -> (entries: Vec<NumstatLine>)
    ensures
        numstat_views(entries@) == numstat_records(lines(stdout@)),
{
    let all = lines_of(stdout);
    let mut entries: Vec<NumstatLine> = Vec::new();
    let mut i: usize = 0;
    assert(runs(all@).take(0) =~= Seq::<Seq<u8>>::empty());
    assert(numstat_views(entries@) =~= numstat_records(runs(all@).take(0)));
    while i < all.len()
        invariant
            i <= all.len(),
            runs(all@) == lines(stdout@),
            numstat_views(entries@) == numstat_records(runs(all@).take(i as int)),
        decreases all.len() - i,
    {
        let ghost next = runs(all@).take(i + 1);
        proof {
            assert(next.drop_last() =~= runs(all@).take(i as int));
            assert(next.last() == all@[i as int]@);
        }
        match parse_numstat_line(all[i].as_slice()) {
            Some(entry) => {
                let ghost before = numstat_views(entries@);
                entries.push(entry);
                assert(numstat_views(entries@) =~= before.push(entry@));
            },
            None => {},
        }
        i += 1;
    }
    assert(runs(all@).take(all@.len() as int) =~= runs(all@));
    entries
}

/// The runs of `lines` that are not empty, in order.
pub open spec fn non_empty(lines: Seq<Seq<u8>>) -> Seq<Seq<u8>>
    decreases lines.len(),
{
    if lines.len() == 0 {
        Seq::empty()
    } else if lines.last().len() > 0 {
        non_empty(lines.drop_last()).push(lines.last())
    } else {
        non_empty(lines.drop_last())
    }
}

/// Reads the list of untracked files that the tool printed: one path on
/// each line that is not empty.
pub fn parse_untracked(stdout: &[u8]) -> (paths: Vec<Vec<u8>>)
    ensures
        runs(paths@) == non_empty(lines(stdout@)),
{
    let all = lines_of(stdout);
    let mut paths: Vec<Vec<u8>> = Vec::new();
    let mut i: usize = 0;
    assert(runs(all@).take(0) =~= Seq::<Seq<u8>>::empty());
    assert(runs(paths@) =~= non_empty(runs(all@).take(0)));
    while i < all.len()
        invariant
            i <= all.len(),
            runs(all@) == lines(stdout@),
            runs(paths@) == non_empty(runs(all@).take(i as int)),
        decreases all.len() - i,
    {
        let ghost next = runs(all@).take(i + 1);
        proof {
            assert(next.drop_last() =~= runs(all@).take(i as int));
            assert(next.last() == all@[i as int]@);
        }
        if all[i].len() > 0 {
            let ghost before = runs(paths@);
            let line = all[i].clone();
            assert(line@ =~= all@[i as int]@);
            paths.push(line);
            assert(runs(paths@) =~= before.push(all@[i as int]@));
        }
        i += 1;
    }
    assert(runs(all@).take(all@.len() as int) =~= runs(all@));
    paths
}

/// The number of lines of a file with the content `content`.
pub fn count_lines(content: &[u8]) -> (n: usize)
    ensures
        n == lines(content@).len(),
{
    let all = lines_of(content);
    assert(runs(all@).len() == all@.len());
    all.len()
}

/// A file of the summary of changes, with what the filesystem says of it.
pub struct ChangedFile {
    /// The absolute path of the file.
    pub path: String,
    /// Lines added.
    pub added: usize,
    /// Lines deleted.
    pub deleted: usize,
    /// Whether the file exists.
    pub exists: bool,
}

/// An untracked file, with what the filesystem says of it.
pub struct UntrackedFile {
    /// The absolute path of the file.
    pub path: String,
    /// The number of its lines; 0 for what is no file or cannot be read as text.
    pub lines: usize,
}

/// The record of a changed file: its counts; it is `deleted` where it
/// exists no longer, and modified otherwise.
pub open spec fn changed_stats(file: ChangedFile) -> StatsModel {
    StatsModel {
        added: file.added as nat,
        deleted: file.deleted as nat,
        status: if file.exists {
            None
        } else {
            Some("deleted"@)
        },
    }
}

/// The record of an untracked file: all its lines count as added.
pub open spec fn untracked_stats(file: UntrackedFile) -> StatsModel {
    StatsModel { added: file.lines as nat, deleted: 0, status: Some("untracked"@) }
}

/// The records of the changed files. Where a path occurs twice the later
/// record stands.
pub open spec fn with_changed(files: Seq<ChangedFile>) -> Map<Seq<char>, StatsModel>
    decreases files.len(),
{
    if files.len() == 0 {
        Map::empty()
    } else {
        with_changed(files.drop_last()).insert(files.last().path@, changed_stats(files.last()))
    }
}

/// `base` with the records of the untracked files. A path that has a record
/// already keeps it.
pub open spec fn with_untracked(base: Map<Seq<char>, StatsModel>, files: Seq<UntrackedFile>) -> Map<
    Seq<char>,
    StatsModel,
>
    decreases files.len(),
{
    if files.len() == 0 {
        base
    } else {
        let before = with_untracked(base, files.drop_last());
        if before.contains_key(files.last().path@) {
            before
        } else {
            before.insert(files.last().path@, untracked_stats(files.last()))
        }
    }
}

/// The status of a repository, from the changed files and the untracked
/// files: the changed files first, then the untracked files that are not
/// among them.
pub fn get_git_diff_stats(changed: &Vec<ChangedFile>, untracked: &Vec<UntrackedFile>) -> (snapshot:
    StatusSnapshot)
    ensures
        snapshot.wf(),
        snapshot_model(snapshot) == with_untracked(with_changed(changed@), untracked@),
{
    let mut snapshot: StatusSnapshot = Table::new();
    let mut i: usize = 0;
    assert(changed@.take(0) =~= Seq::<ChangedFile>::empty());
    assert(snapshot_model(snapshot) =~= with_changed(changed@.take(0)));
    while i < changed.len()
        invariant
            i <= changed.len(),
            snapshot.wf(),
            snapshot_model(snapshot) == with_changed(changed@.take(i as int)),
        decreases changed.len() - i,
    {
        let file = &changed[i];
        let status = if file.exists {
            None
        } else {
            Some("deleted".to_owned())
        };
        let stats = GitStats { added: file.added, deleted: file.deleted, status };
        let ghost before = snapshot;
        proof {
            assert(changed@.take(i + 1).drop_last() =~= changed@.take(i as int));
            assert(stats@ == changed_stats(*file));
        }
        let _ = snapshot.insert(file.path.clone(), stats);
        assert(snapshot_model(snapshot) =~= snapshot_model(before).insert(file.path@, stats@));
        i += 1;
    }
    assert(changed@.take(changed@.len() as int) =~= changed@);
    let ghost base = snapshot_model(snapshot);
    let mut j: usize = 0;
    assert(untracked@.take(0) =~= Seq::<UntrackedFile>::empty());
    while j < untracked.len()
        invariant
            j <= untracked.len(),
            snapshot.wf(),
            snapshot_model(snapshot) == with_untracked(base, untracked@.take(j as int)),
        decreases untracked.len() - j,
    {
        let file = &untracked[j];
        proof {
            assert(untracked@.take(j + 1).drop_last() =~= untracked@.take(j as int));
        }
        if !snapshot.contains_key(file.path.as_str()) {
            let stats = GitStats {
                added: file.lines,
                deleted: 0,
                status: Some("untracked".to_owned()),
            };
            let ghost before = snapshot;
            assert(stats@ == untracked_stats(*file));
            let _ = snapshot.insert(file.path.clone(), stats);
            assert(snapshot_model(snapshot) =~= snapshot_model(before).insert(file.path@, stats@));
        }
        j += 1;
    }
    assert(untracked@.take(untracked@.len() as int) =~= untracked@);
    snapshot
}

/// The repository that a directory belongs to: the nearest of its
/// ancestors, itself included, that holds a repository. `ancestors` are the
/// directory and its ancestors, nearest first, each with whether it holds a
/// repository.
pub fn find_git_root(ancestors: &Vec<(String, bool)>) -> (root: Option<String>)
    ensures
        match root {
            Some(path) => exists|i: int|
                0 <= i < ancestors@.len() && #[trigger] ancestors@[i].1 && ancestors@[i].0@
                    == path@ && forall|j: int| 0 <= j < i ==> !(#[trigger] ancestors@[j]).1,
            None => forall|i: int| 0 <= i < ancestors@.len() ==> !(#[trigger] ancestors@[i]).1,
        },
{
    let mut i: usize = 0;
    while i < ancestors.len()
        invariant
            i <= ancestors.len(),
            forall|j: int| 0 <= j < i ==> !(#[trigger] ancestors@[j]).1,
        decreases ancestors.len() - i,
    {
        if ancestors[i].1 {
            return Some(ancestors[i].0.clone());
        }
        i += 1;
    }
    None
}

/// The branch that the head of a repository points to, where it points to
/// one: the head reads `ref: refs/heads/` and then the branch, white space
/// around it aside.
pub open spec fn branch_of(head: Seq<char>) -> Option<Seq<char>> {
    without_prefix(trimmed(head), "ref: refs/heads/"@)
}

/// The current branch of a repository. `is_repository` says whether the
/// directory holds a repository, and `head` is the content of its head, or
/// the error with which reading it failed. A directory without a repository
/// has no branch, and neither has a head that points to no branch.
pub fn get_current_branch(is_repository: bool, head: Result<String, String>) -> (branch: Result<
    Option<String>,
    Failure,
>)
    ensures
        match branch {
            Ok(Some(name)) => {
                &&& is_repository
                &&& head matches Ok(content) && branch_of(content@) == Some(name@)
            },
            Ok(None) => !is_repository || (head matches Ok(content) && branch_of(content@)
                is None),
            Err(failure) => {
                &&& is_repository
                &&& head matches Err(detail) && failure == Failure::ReadHead(detail)
            },
        },
{
    if !is_repository {
        return Ok(None);
    }
    match head {
        Ok(content) => {
            match strip_prefix(trim(content.as_str()), "ref: refs/heads/") {
                Some(name) => Ok(Some(name.to_owned())),
                None => Ok(None),
            }
        },
        Err(detail) => Err(Failure::ReadHead(detail)),
    }
}

/// What the tool is asked for the summary of all changes since the last commit.
pub open spec fn numstat_argv() -> Seq<Seq<char>> {
    seq!["diff"@, "HEAD"@, "--numstat"@]
}

/// What the tool is asked for the list of untracked files that are not ignored.
pub open spec fn untracked_argv() -> Seq<Seq<char>> {
    seq!["ls-files"@, "--others"@, "--exclude-standard"@]
}

/// What the tool is asked for the content of a file in the last commit;
/// `relative_path` is the path of the file within the repository.
pub open spec fn show_argv(relative_path: Seq<char>) -> Seq<Seq<char>> {
    seq!["show"@, "HEAD:"@ + relative_path]
}

/// What the tool is asked for the summary of the changes of one file.
pub open spec fn file_numstat_argv(relative_path: Seq<char>) -> Seq<Seq<char>> {
    seq!["diff"@, "HEAD"@, "--numstat"@, "--"@, relative_path]
}

/// The list `numstat_argv`, for use at run time.
pub fn numstat_args() -> (args: Vec<String>)
    ensures
        texts(args@) == numstat_argv(),
{
    let mut args: Vec<String> = Vec::new();
    assert(texts(args@) =~= Seq::<Seq<char>>::empty());
    push_text(&mut args, "diff");
    push_text(&mut args, "HEAD");
    push_text(&mut args, "--numstat");
    assert(texts(args@) =~= numstat_argv());
    args
}

/// The list `untracked_argv`, for use at run time.
pub fn untracked_args() -> (args: Vec<String>)
    ensures
        texts(args@) == untracked_argv(),
{
    let mut args: Vec<String> = Vec::new();
    assert(texts(args@) =~= Seq::<Seq<char>>::empty());
    push_text(&mut args, "ls-files");
    push_text(&mut args, "--others");
    push_text(&mut args, "--exclude-standard");
    assert(texts(args@) =~= untracked_argv());
    args
}

/// The list `show_argv`, for use at run time.
pub fn show_args(relative_path: &str) -> (args: Vec<String>)
    ensures
        texts(args@) == show_argv(relative_path@),
{
    let mut revision = "HEAD:".to_owned();
    revision.append(relative_path);
    let mut args: Vec<String> = Vec::new();
    assert(texts(args@) =~= Seq::<Seq<char>>::empty());
    push_text(&mut args, "show");
    push_text(&mut args, revision.as_str());
    assert(texts(args@) =~= show_argv(relative_path@));
    args
}

/// The list `file_numstat_argv`, for use at run time.
pub fn file_numstat_args(relative_path: &str) -> (args: Vec<String>)
    ensures
        texts(args@) == file_numstat_argv(relative_path@),
{
    let mut args: Vec<String> = Vec::new();
    assert(texts(args@) =~= Seq::<Seq<char>>::empty());
    push_text(&mut args, "diff");
    push_text(&mut args, "HEAD");
    push_text(&mut args, "--numstat");
    push_text(&mut args, "--");
    push_text(&mut args, relative_path);
    assert(texts(args@) =~= file_numstat_argv(relative_path@));
    args
}

/// The counts that the summary of the changes of one file gives: those of
/// its first line, where that line has at least two fields; 0 and 0 otherwise.
pub open spec fn diff_counts(numstat: Seq<u8>) -> (nat, nat) {
    let all = lines(numstat);
    if all.len() == 0 {
        (0, 0)
    } else {
        let parts = split(all[0], TAB);
        if parts.len() >= 2 {
            (count_of(parts[0]), count_of(parts[1]))
        } else {
            (0, 0)
        }
    }
}

/// Reads the counts from the summary of the changes of one file.
pub fn parse_diff_counts(numstat: &[u8]) -> (counts: (usize, usize))
    ensures
        (counts.0 as nat, counts.1 as nat) == diff_counts(numstat@),
{
    let all = lines_of(numstat);
    assert(runs(all@).len() == all@.len());
    if all.len() == 0 {
        return (0, 0);
    }
    assert(runs(all@)[0] == all@[0]@);
    let parts = split_bytes(all[0].as_slice(), TAB);
    assert(runs(parts@).len() == parts@.len());
    if parts.len() >= 2 {
        assert(runs(parts@)[0] == parts@[0]@);
        assert(runs(parts@)[1] == parts@[1]@);
        (parse_count(parts[0].as_slice()), parse_count(parts[1].as_slice()))
    } else {
        (0, 0)
    }
}

/// What `Option<String>` holds as text; nothing for none.
pub open spec fn text_or_empty(s: Option<String>) -> Seq<char> {
    match s {
        Some(t) => t@,
        None => Seq::empty(),
    }
}

/// Puts the comparison of a file together. `committed` is the content in the
/// last commit, where the commit holds the file; `on_disk` is the content
/// now, where the file exists.
pub fn diff_result(
    file_path: String,
    committed: Option<String>,
    on_disk: Option<String>,
    counts: (usize, usize),
) -> (result: GitDiffResult)
    ensures
        result.file_path == file_path,
        result.old_content@ == text_or_empty(committed),
        result.new_content@ == text_or_empty(on_disk),
        result.added_lines == counts.0,
        result.deleted_lines == counts.1,
        result.is_new_file == (committed is None),
        result.is_deleted_file == (on_disk is None && committed is Some),
{
    let is_new_file = committed.is_none();
    let is_deleted_file = on_disk.is_none() && !is_new_file;
    let old_content = match committed {
        Some(text) => text,
        None => String::new(),
    };
    let new_content = match on_disk {
        Some(text) => text,
        None => String::new(),
    };
    GitDiffResult {
        file_path,
        old_content,
        new_content,
        added_lines: counts.0,
        deleted_lines: counts.1,
        is_new_file,
        is_deleted_file,
    }
}

/// Compares a file with the last commit. `is_repository` says whether the
/// directory holds a repository; `committed` is what the tool printed as the
/// content in the last commit, where it could show one; `on_disk` is the
/// content now, or the error with which reading it failed, where the file
/// exists; `numstat` is what the tool printed as the summary of its changes.
pub fn get_git_diff(
    file_path: String,
    is_repository: bool,
    committed: Option<Vec<u8>>,
    on_disk: Option<Result<String, String>>,
    numstat: &[u8],
) -> (result: Result<GitDiffResult, Failure>)
    ensures
        match result {
            Ok(diff) => {
                &&& is_repository
                &&& !(on_disk matches Some(Err(_)))
                &&& diff.file_path == file_path
                &&& diff.is_new_file == (committed is None)
                &&& committed matches Some(bytes) ==> diff.old_content@ == utf8_lossy(bytes@)
                &&& committed is None ==> diff.old_content@ == Seq::<char>::empty()
                &&& on_disk matches Some(Ok(text)) ==> diff.new_content@ == text@
                &&& on_disk is None ==> diff.new_content@ == Seq::<char>::empty()
                &&& diff.is_deleted_file == (on_disk is None && committed is Some)
                &&& (diff.added_lines as nat, diff.deleted_lines as nat) == diff_counts(numstat@)
            },
            Err(failure) => if !is_repository {
                failure == Failure::NotARepository
            } else {
                on_disk matches Some(Err(detail)) && failure == Failure::ReadFile(detail)
            },
        },
{
    if !is_repository {
        return Err(Failure::NotARepository);
    }
    let now = match on_disk {
        Some(Ok(text)) => Some(text),
        Some(Err(detail)) => {
            return Err(Failure::ReadFile(detail));
        },
        None => None,
    };
    let before = match committed {
        Some(bytes) => Some(text_of(bytes.as_slice())),
        None => None,
    };
    let counts = parse_diff_counts(numstat);
    Ok(diff_result(file_path, before, now, counts))
}

/// What a run of the tool comes to, from what it printed as text: its
/// output, unless it failed and said why, in which case what it said is the
/// error.
pub fn command_outcome(success: bool, stdout: String, stderr: String) -> (outcome: Result<
    String,
    String,
>)
    ensures
        match outcome {
            Ok(text) => text == stdout && (success || stderr@.len() == 0),
            Err(text) => text == stderr && !success && stderr@.len() > 0,
        },
{
    if !success && !stderr.as_str().is_empty() {
        Err(stderr)
    } else {
        Ok(stdout)
    }
}

/// What a run of the tool comes to, from what it printed.
pub fn run_git_command(success: bool, stdout: &[u8], stderr: &[u8]) -> (outcome: Result<
    String,
    String,
>)
    ensures
        match outcome {
            Ok(text) => text@ == utf8_lossy(stdout@) && (success || utf8_lossy(stderr@).len()
                == 0),
            Err(text) => text@ == utf8_lossy(stderr@) && !success && text@.len() > 0,
        },
{
    command_outcome(success, text_of(stdout), text_of(stderr))
}

} // verus!
