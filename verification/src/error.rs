//! What can go wrong, and what the caller is told.

use crate::text::{decimal_text, push_decimal};
use vstd::prelude::*;

verus! {

/// The classes of failure. Only the first four reach a caller; a watcher that
/// cannot be set up is noted and passed over.
#[derive(Clone, Copy, Debug, PartialEq, Eq, Structural)]
pub enum ErrorKind {
    /// An identifier that names no session.
    ResourceNotFound,
    /// Reading from, writing to or resizing a pseudo-terminal failed.
    IoFailure,
    /// A pseudo-terminal or a process could not be created.
    SpawnFailure,
    /// The shared state could not be locked.
    LockPoisoned,
    /// A filesystem watcher could not be set up.
    WatchSetupFailure,
    /// A tool that the core calls, or the filesystem, failed.
    CollaboratorFailure,
}

/// A failure, with the detail that the failing step gave.
#[derive(Clone, Debug)]
pub enum Failure {
    /// No session has this identifier.
    SessionNotFound(String),
    /// The pseudo-terminal could not be opened.
    OpenPty(String),
    /// The shell could not be spawned.
    SpawnShell(String),
    /// The command of a hidden terminal could not be spawned.
    SpawnHidden(String),
    /// The writer of the pseudo-terminal could not be taken.
    TakeWriter(String),
    /// The reader of the pseudo-terminal could not be cloned.
    CloneReader(String),
    /// Writing to the pseudo-terminal failed.
    Write(String),
    /// Flushing the pseudo-terminal failed.
    Flush(String),
    /// Resizing the pseudo-terminal failed.
    Resize(String),
    /// The shared state could not be locked.
    LockState(String),
    /// The head of the repository could not be read.
    ReadHead(String),
    /// The summary of changes could not be had from the tool.
    GitCommand(String),
    /// The list of untracked files could not be had from the tool.
    GitLsFiles(String),
    /// The committed version of a file could not be had from the tool.
    GitShow(String),
    /// The changes of a file could not be had from the tool.
    GitDiff(String),
    /// The tool could not be run.
    RunGit(String),
    /// A file could not be read.
    ReadFile(String),
    /// A path could not be made relative to the repository.
    RelativePath(String),
    /// The current directory is not known.
    CurrentDir(String),
    /// A directory could not be read.
    ReadDirectory(String),
    /// An entry of a directory could not be read.
    ReadEntry(String),
    /// The metadata of an entry could not be read.
    ReadMetadata(String),
    /// The search for a command could not be run.
    CheckCommand(String),
    /// The working directory of a process could not be read.
    ReadCwd(String),
    /// The tool ran and failed; the text is what it printed as its error.
    ToolFailed(String),
    /// The child of a session has no process identifier.
    NoProcessId,
    /// The working directory of a process is not known.
    NoProcessCwd,
    /// There is no process with this identifier.
    ProcessNotFound(u32),
    /// The working directory of a process cannot be asked for on this platform.
    CwdUnsupported,
    /// A directory that was to be compared with its repository holds none.
    NotARepository,
    /// A directory that was to be watched holds no repository.
    NothingToWatch,
}

impl Failure {
    /// The class of this failure.
    pub open spec fn spec_kind(self) -> ErrorKind {
        match self {
            Failure::SessionNotFound(_) => ErrorKind::ResourceNotFound,
            Failure::OpenPty(_) => ErrorKind::SpawnFailure,
            Failure::SpawnShell(_) => ErrorKind::SpawnFailure,
            Failure::SpawnHidden(_) => ErrorKind::SpawnFailure,
            Failure::TakeWriter(_) => ErrorKind::IoFailure,
            Failure::CloneReader(_) => ErrorKind::IoFailure,
            Failure::Write(_) => ErrorKind::IoFailure,
            Failure::Flush(_) => ErrorKind::IoFailure,
            Failure::Resize(_) => ErrorKind::IoFailure,
            Failure::LockState(_) => ErrorKind::LockPoisoned,
            Failure::ReadHead(_) => ErrorKind::CollaboratorFailure,
            Failure::GitCommand(_) => ErrorKind::CollaboratorFailure,
            Failure::GitLsFiles(_) => ErrorKind::CollaboratorFailure,
            Failure::GitShow(_) => ErrorKind::CollaboratorFailure,
            Failure::GitDiff(_) => ErrorKind::CollaboratorFailure,
            Failure::RunGit(_) => ErrorKind::CollaboratorFailure,
            Failure::ReadFile(_) => ErrorKind::CollaboratorFailure,
            Failure::RelativePath(_) => ErrorKind::CollaboratorFailure,
            Failure::CurrentDir(_) => ErrorKind::CollaboratorFailure,
            Failure::ReadDirectory(_) => ErrorKind::CollaboratorFailure,
            Failure::ReadEntry(_) => ErrorKind::CollaboratorFailure,
            Failure::ReadMetadata(_) => ErrorKind::CollaboratorFailure,
            Failure::CheckCommand(_) => ErrorKind::CollaboratorFailure,
            Failure::ReadCwd(_) => ErrorKind::CollaboratorFailure,
            Failure::ToolFailed(_) => ErrorKind::CollaboratorFailure,
            Failure::NoProcessId => ErrorKind::CollaboratorFailure,
            Failure::NoProcessCwd => ErrorKind::CollaboratorFailure,
            Failure::ProcessNotFound(_) => ErrorKind::CollaboratorFailure,
            Failure::CwdUnsupported => ErrorKind::CollaboratorFailure,
            Failure::NotARepository => ErrorKind::CollaboratorFailure,
            Failure::NothingToWatch => ErrorKind::WatchSetupFailure,
        }
    }

    /// The text that the caller is shown.
    pub open spec fn spec_message(self) -> Seq<char> {
        match self {
            Failure::SessionNotFound(id) => "Session not found: "@ + id@,
            Failure::OpenPty(e) => "Failed to open PTY: "@ + e@,
            Failure::SpawnShell(e) => "Failed to spawn shell: "@ + e@,
            Failure::SpawnHidden(e) => "Failed to spawn hidden terminal: "@ + e@,
            Failure::TakeWriter(e) => "Failed to take writer: "@ + e@,
            Failure::CloneReader(e) => "Failed to clone reader: "@ + e@,
            Failure::Write(e) => "Failed to write to PTY: "@ + e@,
            Failure::Flush(e) => "Failed to flush PTY: "@ + e@,
            Failure::Resize(e) => "Failed to resize PTY: "@ + e@,
            Failure::LockState(e) => "Failed to lock state: "@ + e@,
            Failure::ReadHead(e) => "Failed to read HEAD: "@ + e@,
            Failure::GitCommand(e) => "Failed to execute git command: "@ + e@,
            Failure::GitLsFiles(e) => "Failed to execute git ls-files command: "@ + e@,
            Failure::GitShow(e) => "Failed to execute git show: "@ + e@,
            Failure::GitDiff(e) => "Failed to execute git diff: "@ + e@,
            Failure::RunGit(e) => "Failed to run git: "@ + e@,
            Failure::ReadFile(e) => "Failed to read file: "@ + e@,
            Failure::RelativePath(e) => "Failed to get relative path: "@ + e@,
            Failure::CurrentDir(e) => "Failed to get current directory: "@ + e@,
            Failure::ReadDirectory(e) => "Failed to read directory: "@ + e@,
            Failure::ReadEntry(e) => "Failed to read entry: "@ + e@,
            Failure::ReadMetadata(e) => "Failed to read metadata: "@ + e@,
            Failure::CheckCommand(e) => "Failed to check command: "@ + e@,
            Failure::ReadCwd(e) => "Failed to read cwd from /proc: "@ + e@,
            Failure::ToolFailed(text) => text@,
            Failure::NoProcessId => "Failed to get process ID"@,
            Failure::NoProcessCwd => "Could not get process CWD"@,
            Failure::ProcessNotFound(pid) => "Process "@ + decimal_text(pid as nat) + " not found"@,
            Failure::CwdUnsupported => "Getting terminal cwd is not supported on this platform"@,
            Failure::NotARepository => "Not a git repository"@,
            Failure::NothingToWatch => "Not a git repository"@,
        }
    }

    /// The class of this failure.
    pub fn kind(&self) -> (k: ErrorKind)
        ensures
            k == self.spec_kind(),
    {
        match self {
            Failure::SessionNotFound(_) => ErrorKind::ResourceNotFound,
            Failure::OpenPty(_) => ErrorKind::SpawnFailure,
            Failure::SpawnShell(_) => ErrorKind::SpawnFailure,
            Failure::SpawnHidden(_) => ErrorKind::SpawnFailure,
            Failure::TakeWriter(_) => ErrorKind::IoFailure,
            Failure::CloneReader(_) => ErrorKind::IoFailure,
            Failure::Write(_) => ErrorKind::IoFailure,
            Failure::Flush(_) => ErrorKind::IoFailure,
            Failure::Resize(_) => ErrorKind::IoFailure,
            Failure::LockState(_) => ErrorKind::LockPoisoned,
            Failure::ReadHead(_) => ErrorKind::CollaboratorFailure,
            Failure::GitCommand(_) => ErrorKind::CollaboratorFailure,
            Failure::GitLsFiles(_) => ErrorKind::CollaboratorFailure,
            Failure::GitShow(_) => ErrorKind::CollaboratorFailure,
            Failure::GitDiff(_) => ErrorKind::CollaboratorFailure,
            Failure::RunGit(_) => ErrorKind::CollaboratorFailure,
            Failure::ReadFile(_) => ErrorKind::CollaboratorFailure,
            Failure::RelativePath(_) => ErrorKind::CollaboratorFailure,
            Failure::CurrentDir(_) => ErrorKind::CollaboratorFailure,
            Failure::ReadDirectory(_) => ErrorKind::CollaboratorFailure,
            Failure::ReadEntry(_) => ErrorKind::CollaboratorFailure,
            Failure::ReadMetadata(_) => ErrorKind::CollaboratorFailure,
            Failure::CheckCommand(_) => ErrorKind::CollaboratorFailure,
            Failure::ReadCwd(_) => ErrorKind::CollaboratorFailure,
            Failure::ToolFailed(_) => ErrorKind::CollaboratorFailure,
            Failure::NoProcessId => ErrorKind::CollaboratorFailure,
            Failure::NoProcessCwd => ErrorKind::CollaboratorFailure,
            Failure::ProcessNotFound(_) => ErrorKind::CollaboratorFailure,
            Failure::CwdUnsupported => ErrorKind::CollaboratorFailure,
            Failure::NotARepository => ErrorKind::CollaboratorFailure,
            Failure::NothingToWatch => ErrorKind::WatchSetupFailure,
        }
    }

    /// Whether a failure of this class is handed to the caller of a request.
    /// A watcher that cannot be set up never fails the request that asked for it.
    pub fn reaches_caller(&self) -> (b: bool)
        ensures
            b == (self.spec_kind() != ErrorKind::WatchSetupFailure),
    {
        match self.kind() {
            ErrorKind::WatchSetupFailure => false,
            _ => true,
        }
    }

    /// The text that the caller is shown.
    pub fn message(&self) -> (text: String)
        ensures
            text@ == self.spec_message(),
    {
        match self {
            Failure::SessionNotFound(id) => prefixed("Session not found: ", id.as_str()),
            Failure::OpenPty(e) => prefixed("Failed to open PTY: ", e.as_str()),
            Failure::SpawnShell(e) => prefixed("Failed to spawn shell: ", e.as_str()),
            Failure::SpawnHidden(e) => prefixed("Failed to spawn hidden terminal: ", e.as_str()),
            Failure::TakeWriter(e) => prefixed("Failed to take writer: ", e.as_str()),
            Failure::CloneReader(e) => prefixed("Failed to clone reader: ", e.as_str()),
            Failure::Write(e) => prefixed("Failed to write to PTY: ", e.as_str()),
            Failure::Flush(e) => prefixed("Failed to flush PTY: ", e.as_str()),
            Failure::Resize(e) => prefixed("Failed to resize PTY: ", e.as_str()),
            Failure::LockState(e) => prefixed("Failed to lock state: ", e.as_str()),
            Failure::ReadHead(e) => prefixed("Failed to read HEAD: ", e.as_str()),
            Failure::GitCommand(e) => prefixed("Failed to execute git command: ", e.as_str()),
            Failure::GitLsFiles(e) => prefixed("Failed to execute git ls-files command: ", e.as_str()),
            Failure::GitShow(e) => prefixed("Failed to execute git show: ", e.as_str()),
            Failure::GitDiff(e) => prefixed("Failed to execute git diff: ", e.as_str()),
            Failure::RunGit(e) => prefixed("Failed to run git: ", e.as_str()),
            Failure::ReadFile(e) => prefixed("Failed to read file: ", e.as_str()),
            Failure::RelativePath(e) => prefixed("Failed to get relative path: ", e.as_str()),
            Failure::CurrentDir(e) => prefixed("Failed to get current directory: ", e.as_str()),
            Failure::ReadDirectory(e) => prefixed("Failed to read directory: ", e.as_str()),
            Failure::ReadEntry(e) => prefixed("Failed to read entry: ", e.as_str()),
            Failure::ReadMetadata(e) => prefixed("Failed to read metadata: ", e.as_str()),
            Failure::CheckCommand(e) => prefixed("Failed to check command: ", e.as_str()),
            Failure::ReadCwd(e) => prefixed("Failed to read cwd from /proc: ", e.as_str()),
            Failure::ToolFailed(text) => text.clone(),
            Failure::NoProcessId => "Failed to get process ID".to_owned(),
            Failure::NoProcessCwd => "Could not get process CWD".to_owned(),
            Failure::ProcessNotFound(pid) => {
                let mut text = "Process ".to_owned();
                push_decimal(&mut text, *pid);
                text.append(" not found");
                text
            },
            Failure::CwdUnsupported => "Getting terminal cwd is not supported on this platform".to_owned(),
            Failure::NotARepository => "Not a git repository".to_owned(),
            Failure::NothingToWatch => "Not a git repository".to_owned(),
        }
    }
}

/// `detail` with `prefix` before it.
fn prefixed(prefix: &str, detail: &str) -> (text: String)
    ensures
        text@ == prefix@ + detail@,
{
    let mut text = prefix.to_owned();
    text.append(detail);
    text
}

} // verus!
