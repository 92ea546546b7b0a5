use portable_pty::CommandBuilder;
use term_core::error::Failure;
use term_core::pty::manager::{
    fallback_args, get_shell, home_dir, passthrough_variable_list, plain_args, plan_hidden,
    plan_spawn, probe_list, profile_action, project_needs_bind, protected_subpath_list,
    sandbox_args, spawn_step, starting_directory, terminal_size, wanted_variable_list, HostFacts,
    Platform, ProfileAction, ProfileSetup, SpawnAttempt, SpawnStep, PROFILE_PATH,
    USERNS_SWITCH_PATH,
};
use term_core::table::Table;

fn host(platform: Platform, vars: &[(&str, &str)], existing: &[&str], dirs: &[&str]) -> HostFacts {
    let mut variables: Table<String> = Table::new();
    for (k, v) in vars {
        variables.insert(k.to_string(), v.to_string());
    }
    HostFacts {
        platform,
        variables,
        existing: existing.iter().map(|s| s.to_string()).collect(),
        directories: dirs.iter().map(|s| s.to_string()).collect(),
    }
}

fn strings(items: &[&str]) -> Vec<String> {
    items.iter().map(|s| s.to_string()).collect()
}

fn argv(cmd: &CommandBuilder) -> Vec<String> {
    cmd.get_argv().iter().map(|a| a.to_string_lossy().to_string()).collect()
}

fn cwd(cmd: &CommandBuilder) -> Option<String> {
    cmd.get_cwd().map(|d| d.to_string_lossy().to_string())
}

#[test]
fn shell_is_the_users_or_bash() {
    let h = host(Platform::Linux, &[("SHELL", "/bin/zsh")], &[], &[]);
    assert_eq!(get_shell(&h), "/bin/zsh");
    let h = host(Platform::Unix, &[], &[], &[]);
    assert_eq!(get_shell(&h), "/bin/bash");
    let h = host(Platform::Windows, &[("SHELL", "/bin/zsh")], &[], &[]);
    assert_eq!(get_shell(&h), "powershell.exe");
}

#[test]
fn home_follows_the_platform() {
    let vars = [("HOME", "/home/u"), ("USERPROFILE", "C:\\Users\\u")];
    assert_eq!(home_dir(&host(Platform::Linux, &vars, &[], &[])), Some("/home/u".to_string()));
    assert_eq!(home_dir(&host(Platform::Unix, &vars, &[], &[])), Some("/home/u".to_string()));
    assert_eq!(
        home_dir(&host(Platform::Windows, &vars, &[], &[])),
        Some("C:\\Users\\u".to_string())
    );
    assert_eq!(home_dir(&host(Platform::Linux, &[], &[], &[])), None);
}

#[test]
fn protected_and_passthrough_lists() {
    let p = protected_subpath_list();
    assert_eq!(p.len(), 22);
    assert_eq!(p[0], ".ssh");
    assert_eq!(p[9], ".config/git");
    assert_eq!(p[21], ".local/share/applications");
    let v = passthrough_variable_list();
    assert_eq!(v.len(), 17);
    assert_eq!(v[0], "HOME");
    assert_eq!(v[5], "TERM");
    assert_eq!(v[16], "CLAUDE_API_KEY");
}

#[test]
fn sandbox_args_minimal_host() {
    let h = host(Platform::Linux, &[], &[], &[]);
    let args = sandbox_args(&h, &None, false);
    assert_eq!(
        args,
        strings(&[
            "/usr/bin/bwrap",
            "--clearenv",
            "--ro-bind",
            "/",
            "/",
            "--dev",
            "/dev",
            "--tmpfs",
            "/tmp",
            "--unshare-uts",
            "--unshare-ipc",
            "--unshare-pid",
            "--unshare-cgroup",
            "--new-session",
            "--die-with-parent",
            "--proc",
            "/proc",
            "--",
            "/bin/bash",
            "-l",
        ])
    );
}

#[test]
fn sandbox_args_full_host() {
    let h = host(
        Platform::Linux,
        &[
            ("HOME", "/home/u"),
            ("SHELL", "/bin/zsh"),
            ("PATH", "/usr/bin"),
            ("CLAUDE_API_KEY", "k"),
            ("SECRET", "s"),
        ],
        &["/home/u/.ssh", "/home/u/.config/git", "/home/u/other"],
        &["/work/p"],
    );
    let args = sandbox_args(&h, &Some("/work/p".to_string()), true);
    assert_eq!(
        args,
        strings(&[
            "/usr/bin/bwrap",
            "--clearenv",
            "--ro-bind",
            "/",
            "/",
            "--dev",
            "/dev",
            "--tmpfs",
            "/tmp",
            "--bind",
            "/home/u",
            "/home/u",
            "--ro-bind",
            "/home/u/.ssh",
            "/home/u/.ssh",
            "--ro-bind",
            "/home/u/.config/git",
            "/home/u/.config/git",
            "--bind",
            "/work/p",
            "/work/p",
            "--unshare-net",
            "--unshare-uts",
            "--unshare-ipc",
            "--unshare-pid",
            "--unshare-cgroup",
            "--new-session",
            "--die-with-parent",
            "--proc",
            "/proc",
            "--setenv",
            "HOME",
            "/home/u",
            "--setenv",
            "PATH",
            "/usr/bin",
            "--setenv",
            "SHELL",
            "/bin/zsh",
            "--setenv",
            "CLAUDE_API_KEY",
            "k",
            "--",
            "/bin/zsh",
            "-l",
        ])
    );
}

#[test]
fn project_inside_home_gets_no_bind_of_its_own() {
    let vars = [("HOME", "/home/u")];
    let dirs = ["/home/u/p", "/home/u", "/home/ux", "/work"];
    let h = host(Platform::Linux, &vars, &[], &dirs);
    assert!(!project_needs_bind(&h, &Some("/home/u/p".to_string())));
    assert!(!project_needs_bind(&h, &Some("/home/u".to_string())));
    assert!(project_needs_bind(&h, &Some("/home/ux".to_string())));
    assert!(project_needs_bind(&h, &Some("/work".to_string())));
    assert!(!project_needs_bind(&h, &Some("/missing".to_string())));
    assert!(!project_needs_bind(&h, &None));
    let no_home = host(Platform::Linux, &[], &[], &dirs);
    assert!(project_needs_bind(&no_home, &Some("/home/u/p".to_string())));
}

#[test]
fn plain_and_fallback_args() {
    let h = host(Platform::Linux, &[("SHELL", "/bin/fish")], &[], &[]);
    assert_eq!(plain_args(&h), strings(&["/bin/fish", "-l"]));
    assert_eq!(fallback_args(&h), strings(&["/bin/fish", "-l"]));
    let w = host(Platform::Windows, &[], &[], &[]);
    assert_eq!(
        plain_args(&w),
        strings(&[
            "powershell.exe",
            "-NoExit",
            "-Command",
            "function prompt { [System.IO.Directory]::SetCurrentDirectory($PWD.Path); \"PS $($PWD.Path)> \" }",
        ])
    );
}

#[test]
fn starting_directory_prefers_project_then_home_then_root() {
    let h = host(Platform::Linux, &[("HOME", "/home/u")], &[], &["/work/p"]);
    assert_eq!(starting_directory(&h, &Some("/work/p".to_string())), "/work/p");
    assert_eq!(starting_directory(&h, &Some("/work/none".to_string())), "/home/u");
    assert_eq!(starting_directory(&h, &None), "/home/u");
    let bare = host(Platform::Linux, &[], &[], &[]);
    assert_eq!(starting_directory(&bare, &None), "/");
    let win = host(Platform::Windows, &[], &[], &[]);
    assert_eq!(starting_directory(&win, &None), "C:\\");
}

#[test]
fn terminal_size_has_no_pixels() {
    let s = terminal_size(24, 80);
    assert_eq!((s.rows, s.cols, s.pixel_width, s.pixel_height), (24, 80, 0, 0));
}

#[test]
fn plan_without_sandbox_builds_the_plain_command() {
    let h = host(Platform::Linux, &[("HOME", "/home/u"), ("SHELL", "/bin/zsh")], &[], &[]);
    let plan = plan_spawn(30, 100, false, false, &None, &h);
    assert!(!plan.sandboxed);
    assert!(plan.fallback.is_none());
    assert_eq!(plan.size, terminal_size(30, 100));
    assert_eq!(argv(&plan.command), strings(&["/bin/zsh", "-l"]));
    assert_eq!(cwd(&plan.command), Some("/home/u".to_string()));
    let extra: Vec<(String, String)> = plan
        .command
        .iter_extra_env_as_str()
        .map(|(k, v)| (k.to_string(), v.to_string()))
        .collect();
    assert_eq!(extra, vec![("TERM".to_string(), "xterm-256color".to_string())]);
}

#[test]
fn plan_with_sandbox_builds_both_commands() {
    let h = host(Platform::Linux, &[("HOME", "/home/u")], &["/home/u/.bashrc"], &["/srv/p"]);
    let plan = plan_spawn(24, 80, true, false, &Some("/srv/p".to_string()), &h);
    assert!(plan.sandboxed);
    let expected = sandbox_args(&h, &Some("/srv/p".to_string()), false);
    let args = argv(&plan.command);
    assert_eq!(args, expected);
    assert_eq!(args[0], "/usr/bin/bwrap");
    assert_eq!(args.len(), 9 + 3 + 3 + 3 + 8 + 3 + 3);
    assert_eq!(cwd(&plan.command), Some("/srv/p".to_string()));
    let fallback = plan.fallback.expect("a sandboxed plan has a fallback");
    assert_eq!(argv(&fallback), strings(&["/bin/bash", "-l"]));
    assert_eq!(cwd(&fallback), Some("/srv/p".to_string()));
    let term = fallback.get_env("TERM").map(|v| v.to_string_lossy().to_string());
    assert_eq!(term, Some("xterm-256color".to_string()));
}

#[test]
fn sandbox_is_ignored_off_linux() {
    let h = host(Platform::Unix, &[], &[], &[]);
    let plan = plan_spawn(24, 80, true, true, &None, &h);
    assert!(!plan.sandboxed);
    assert!(plan.fallback.is_none());
    assert_eq!(argv(&plan.command), strings(&["/bin/bash", "-l"]));
}

#[test]
fn sandbox_that_cannot_start_falls_back_unsandboxed() {
    let h = host(Platform::Linux, &[], &[], &[]);
    let plan = plan_spawn(24, 80, true, false, &None, &h);
    assert!(plan.sandboxed);
    let step = spawn_step(&plan, SpawnAttempt::First, Some("No such file or directory".to_string()));
    assert!(matches!(step, SpawnStep::TryFallback));
    let step = spawn_step(&plan, SpawnAttempt::Fallback, None);
    assert!(matches!(step, SpawnStep::Started { sandboxed: false }));
    // What runs then is what a session runs that never asked for the sandbox.
    let plain = plan_spawn(24, 80, false, false, &None, &h);
    let fallback = plan.fallback.expect("a sandboxed plan has a fallback");
    assert_eq!(argv(&fallback), argv(&plain.command));
    assert_eq!(cwd(&fallback), cwd(&plain.command));
    assert_eq!(fallback, plain.command);
}

#[test]
fn spawn_step_reports_the_sandbox_only_for_the_first_command() {
    let h = host(Platform::Linux, &[], &[], &[]);
    let sandboxed = plan_spawn(24, 80, true, false, &None, &h);
    assert!(matches!(
        spawn_step(&sandboxed, SpawnAttempt::First, None),
        SpawnStep::Started { sandboxed: true }
    ));
    let plain = plan_spawn(24, 80, false, false, &None, &h);
    assert!(matches!(
        spawn_step(&plain, SpawnAttempt::First, None),
        SpawnStep::Started { sandboxed: false }
    ));
}

#[test]
fn spawn_step_fails_without_a_fallback() {
    let h = host(Platform::Linux, &[], &[], &[]);
    let plain = plan_spawn(24, 80, false, false, &None, &h);
    match spawn_step(&plain, SpawnAttempt::First, Some("boom".to_string())) {
        SpawnStep::Failed(f) => {
            assert!(matches!(f, Failure::SpawnShell(_)));
            assert_eq!(f.message(), "Failed to spawn shell: boom");
        }
        _ => panic!("a plain plan has nothing to fall back on"),
    }
    let sandboxed = plan_spawn(24, 80, true, false, &None, &h);
    match spawn_step(&sandboxed, SpawnAttempt::Fallback, Some("again".to_string())) {
        SpawnStep::Failed(f) => assert_eq!(f.message(), "Failed to spawn shell: again"),
        _ => panic!("the fallback is the last attempt"),
    }
}

#[test]
fn hidden_terminal_runs_one_command_in_a_login_shell() {
    let h = host(Platform::Linux, &[("SHELL", "/bin/zsh")], &[], &[]);
    let plan = plan_hidden("git status", "/work/p", &h);
    assert!(!plan.sandboxed);
    assert!(plan.fallback.is_none());
    assert_eq!(plan.size, terminal_size(24, 80));
    assert_eq!(argv(&plan.command), strings(&["/bin/zsh", "-lc", "git status"]));
    assert_eq!(cwd(&plan.command), Some("/work/p".to_string()));
    let w = host(Platform::Windows, &[], &[], &[]);
    let plan = plan_hidden("x", "C:\\p", &w);
    assert_eq!(argv(&plan.command), strings(&["/bin/bash", "-lc", "x"]));
}

#[test]
fn profile_is_installed_only_when_restricted_and_missing() {
    assert!(matches!(profile_action(&None, false), ProfileAction::NotRestricted));
    assert!(matches!(profile_action(&Some("0\n".to_string()), false), ProfileAction::NotRestricted));
    assert!(matches!(profile_action(&Some("11".to_string()), false), ProfileAction::NotRestricted));
    assert!(matches!(profile_action(&Some("".to_string()), false), ProfileAction::NotRestricted));
    assert!(matches!(profile_action(&Some("1\n".to_string()), true), ProfileAction::AlreadyInstalled));
    match profile_action(&Some(" 1 \n".to_string()), false) {
        ProfileAction::Install(script) => assert_eq!(
            script,
            "echo 'abi <abi/4.0>,\ninclude <tunables/global>\n\nprofile bwrap /usr/bin/bwrap flags=(unconfined) {\n  userns,\n}\n' > /etc/apparmor.d/bwrap && apparmor_parser -r /etc/apparmor.d/bwrap"
        ),
        _ => panic!("a restricted host without the profile gets it installed"),
    }
}

#[test]
fn profile_is_looked_after_once() {
    let mut setup = ProfileSetup::new();
    assert!(!setup.is_done());
    assert!(setup.begin());
    assert!(setup.is_done());
    assert!(!setup.begin());
    assert!(!setup.begin());
}

#[test]
fn wanted_variables_are_home_shell_and_the_passthrough() {
    let v = wanted_variable_list();
    assert_eq!(v.len(), 20);
    assert_eq!(&v[..3], &strings(&["HOME", "USERPROFILE", "SHELL"])[..]);
    assert_eq!(&v[3..], &passthrough_variable_list()[..]);
}

#[test]
fn probe_list_names_protected_paths_and_project() {
    let paths = probe_list(&Some("/home/u".to_string()), &Some("/work/p".to_string()));
    assert_eq!(paths.len(), 23);
    assert_eq!(paths[0], "/home/u/.ssh");
    assert_eq!(paths[11], "/home/u/.config/systemd/user");
    assert_eq!(paths[21], "/home/u/.local/share/applications");
    assert_eq!(paths[22], "/work/p");
    assert_eq!(probe_list(&None, &Some("/p".to_string())), strings(&["/p"]));
    assert_eq!(probe_list(&None, &None), strings(&[]));
    assert_eq!(probe_list(&Some("/h".to_string()), &None).len(), 22);
}

#[test]
fn profile_paths() {
    assert_eq!(PROFILE_PATH, "/etc/apparmor.d/bwrap");
    assert_eq!(USERNS_SWITCH_PATH, "/proc/sys/kernel/apparmor_restrict_unprivileged_userns");
}
