use term_core::error::{ErrorKind, Failure};

#[test]
fn messages_name_the_step_and_the_detail() {
    let d = || "x".to_string();
    assert_eq!(Failure::SessionNotFound(d()).message(), "Session not found: x");
    assert_eq!(Failure::OpenPty(d()).message(), "Failed to open PTY: x");
    assert_eq!(Failure::SpawnShell(d()).message(), "Failed to spawn shell: x");
    assert_eq!(Failure::SpawnHidden(d()).message(), "Failed to spawn hidden terminal: x");
    assert_eq!(Failure::TakeWriter(d()).message(), "Failed to take writer: x");
    assert_eq!(Failure::CloneReader(d()).message(), "Failed to clone reader: x");
    assert_eq!(Failure::Write(d()).message(), "Failed to write to PTY: x");
    assert_eq!(Failure::Flush(d()).message(), "Failed to flush PTY: x");
    assert_eq!(Failure::Resize(d()).message(), "Failed to resize PTY: x");
    assert_eq!(Failure::LockState(d()).message(), "Failed to lock state: x");
    assert_eq!(Failure::NotARepository.message(), "Not a git repository");
    assert_eq!(Failure::NothingToWatch.message(), "Not a git repository");
    assert_eq!(Failure::ReadHead(d()).message(), "Failed to read HEAD: x");
    assert_eq!(Failure::GitCommand(d()).message(), "Failed to execute git command: x");
    assert_eq!(Failure::GitLsFiles(d()).message(), "Failed to execute git ls-files command: x");
    assert_eq!(Failure::GitShow(d()).message(), "Failed to execute git show: x");
    assert_eq!(Failure::GitDiff(d()).message(), "Failed to execute git diff: x");
    assert_eq!(Failure::RunGit(d()).message(), "Failed to run git: x");
    assert_eq!(Failure::ReadFile(d()).message(), "Failed to read file: x");
    assert_eq!(Failure::RelativePath(d()).message(), "Failed to get relative path: x");
    assert_eq!(Failure::CurrentDir(d()).message(), "Failed to get current directory: x");
    assert_eq!(Failure::ReadDirectory(d()).message(), "Failed to read directory: x");
    assert_eq!(Failure::ReadEntry(d()).message(), "Failed to read entry: x");
    assert_eq!(Failure::ReadMetadata(d()).message(), "Failed to read metadata: x");
    assert_eq!(Failure::CheckCommand(d()).message(), "Failed to check command: x");
    assert_eq!(Failure::ReadCwd(d()).message(), "Failed to read cwd from /proc: x");
    assert_eq!(Failure::ToolFailed(d()).message(), "x");
    assert_eq!(Failure::NoProcessId.message(), "Failed to get process ID");
    assert_eq!(Failure::NoProcessCwd.message(), "Could not get process CWD");
    assert_eq!(
        Failure::CwdUnsupported.message(),
        "Getting terminal cwd is not supported on this platform"
    );
}

#[test]
fn kinds_follow_the_taxonomy() {
    let d = || String::new();
    assert_eq!(Failure::SessionNotFound(d()).kind(), ErrorKind::ResourceNotFound);
    assert_eq!(Failure::OpenPty(d()).kind(), ErrorKind::SpawnFailure);
    assert_eq!(Failure::SpawnShell(d()).kind(), ErrorKind::SpawnFailure);
    assert_eq!(Failure::SpawnHidden(d()).kind(), ErrorKind::SpawnFailure);
    assert_eq!(Failure::TakeWriter(d()).kind(), ErrorKind::IoFailure);
    assert_eq!(Failure::CloneReader(d()).kind(), ErrorKind::IoFailure);
    assert_eq!(Failure::Write(d()).kind(), ErrorKind::IoFailure);
    assert_eq!(Failure::Flush(d()).kind(), ErrorKind::IoFailure);
    assert_eq!(Failure::Resize(d()).kind(), ErrorKind::IoFailure);
    assert_eq!(Failure::LockState(d()).kind(), ErrorKind::LockPoisoned);
    assert_eq!(Failure::NotARepository.kind(), ErrorKind::CollaboratorFailure);
    assert_eq!(Failure::NothingToWatch.kind(), ErrorKind::WatchSetupFailure);
    assert_eq!(Failure::ReadHead(d()).kind(), ErrorKind::CollaboratorFailure);
    assert_eq!(Failure::ToolFailed(d()).kind(), ErrorKind::CollaboratorFailure);
    assert_eq!(Failure::NoProcessId.kind(), ErrorKind::CollaboratorFailure);
}

#[test]
fn only_watch_failures_stay_inside() {
    assert!(Failure::SessionNotFound(String::new()).reaches_caller());
    assert!(Failure::Write(String::new()).reaches_caller());
    assert!(Failure::SpawnShell(String::new()).reaches_caller());
    assert!(Failure::LockState(String::new()).reaches_caller());
    assert!(Failure::NotARepository.reaches_caller());
    assert!(Failure::GitCommand(String::new()).reaches_caller());
    assert!(!Failure::NothingToWatch.reaches_caller());
}
