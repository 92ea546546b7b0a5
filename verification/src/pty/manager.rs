//! The launcher and the sandbox builder.
//!
//! A session runs the user's shell, either directly or inside a
//! bubblewrap sandbox. This module decides the command line from what is
//! known of the host (`HostFacts`); it never looks at the host itself.

use crate::error::Failure;
use crate::table::Table;
use crate::text::{
    is_listed, join3, lies_within, path_lies_within, push_text, same_text, texts, trim, trimmed,
};
use crate::trusted::{
    command_arg, command_argv, command_cwd, command_env, command_new, command_set_cwd,
    command_set_env, no_variables,
};
use portable_pty::CommandBuilder;
use vstd::prelude::*;

verus! {

/// What `Option<String>` holds, as characters.
pub open spec fn opt_text(s: Option<String>) -> Option<Seq<char>> {
    match s {
        Some(t) => Some(t@),
        None => None,
    }
}

/// The kind of host the session runs on.
#[derive(Clone, Copy, Debug, PartialEq, Eq, Structural)]
pub enum Platform {
    /// Linux, the one platform on which the sandbox exists.
    Linux,
    /// Another Unix.
    Unix,
    /// Windows.
    Windows,
}

/// What the launcher needs to know of the host, gathered before the command is built.
pub struct HostFacts {
    /// The kind of host.
    pub platform: Platform,
    /// The environment variables that are set, each with its value.
    pub variables: Table<String>,
    /// The paths, among those asked about, that exist.
    pub existing: Vec<String>,
    /// The paths, among those asked about, that are directories.
    pub directories: Vec<String>,
}

impl HostFacts {
    /// The table of variables is well formed.
    pub open spec fn wf(&self) -> bool {
        self.variables.wf()
    }

    /// The value of the variable `name`, if it is set.
    pub open spec fn var(&self, name: Seq<char>) -> Option<Seq<char>> {
        if self.variables@.contains_key(name) {
            Some(self.variables@[name]@)
        } else {
            None
        }
    }

    /// Whether `path` is known to exist.
    pub open spec fn path_exists(&self, path: Seq<char>) -> bool {
        texts(self.existing@).contains(path)
    }

    /// Whether `path` is known to be a directory.
    pub open spec fn is_dir(&self, path: Seq<char>) -> bool {
        texts(self.directories@).contains(path)
    }

    /// The user's home directory: `USERPROFILE` on Windows, `HOME` elsewhere.
    pub open spec fn home(&self) -> Option<Seq<char>> {
        if self.platform == Platform::Windows {
            self.var("USERPROFILE"@)
        } else {
            self.var("HOME"@)
        }
    }

    /// The shell to run: the fixed PowerShell on Windows; elsewhere the
    /// user's `SHELL`, or bash where that is not set.
    pub open spec fn shell(&self) -> Seq<char> {
        if self.platform == Platform::Windows {
            "powershell.exe"@
        } else {
            match self.var("SHELL"@) {
                Some(s) => s,
                None => "/bin/bash"@,
            }
        }
    }

    /// The value of a variable, if it is set.
    pub fn variable(&self, name: &str) -> (v: Option<String>)
        requires
            self.wf(),
        ensures
            opt_text(v) == self.var(name@),
    {
        match self.variables.get(name) {
            Some(s) => Some(s.clone()),
            None => None,
        }
    }
}

/// The user's home directory on this host, if it is known.
pub fn home_dir(host: &HostFacts) -> (home: Option<String>)
    requires
        host.wf(),
    ensures
        opt_text(home) == host.home(),
{
    match host.platform {
        Platform::Windows => host.variable("USERPROFILE"),
        _ => host.variable("HOME"),
    }
}

/// The shell that a session runs on this host.
pub fn get_shell(host: &HostFacts) -> (shell: String)
    requires
        host.wf(),
    ensures
        shell@ == host.shell(),
{
    match host.platform {
        Platform::Windows => "powershell.exe".to_owned(),
        _ => match host.variable("SHELL") {
            Some(s) => s,
            None => "/bin/bash".to_owned(),
        },
    }
}

/// The paths below the home directory that stay read-only inside the sandbox:
/// shell start-up files, keys and credentials, and the places from which the
/// desktop starts programs.
pub open spec fn protected_subpaths() -> Seq<Seq<char>> {
    seq![
        ".ssh"@,
        ".gnupg"@,
        ".bashrc"@,
        ".bash_profile"@,
        ".profile"@,
        ".zshrc"@,
        ".zprofile"@,
        ".pam_environment"@,
        ".gitconfig"@,
        ".config/git"@,
        ".config/autostart"@,
        ".config/systemd/user"@,
        ".config/environment.d"@,
        ".local/bin"@,
        ".config/fish"@,
        ".config/nushell"@,
        ".config/plasma-workspace/env"@,
        ".config/hypr"@,
        ".xinitrc"@,
        ".xprofile"@,
        ".config/mimeapps.list"@,
        ".local/share/applications"@,
    ]
}

/// The variables that are handed on into the sandbox, where they are set:
/// identity, locale, display, the tool chain of the coding agent and its keys.
pub open spec fn passthrough_variables() -> Seq<Seq<char>> {
    seq![
        "HOME"@,
        "USER"@,
        "LOGNAME"@,
        "PATH"@,
        "SHELL"@,
        "TERM"@,
        "LANG"@,
        "LC_ALL"@,
        "XDG_RUNTIME_DIR"@,
        "DBUS_SESSION_BUS_ADDRESS"@,
        "DISPLAY"@,
        "WAYLAND_DISPLAY"@,
        "NODE_HOME"@,
        "NVM_DIR"@,
        "npm_config_prefix"@,
        "ANTHROPIC_API_KEY"@,
        "CLAUDE_API_KEY"@,
    ]
}

/// The list `protected_subpaths`, for use at run time.
pub fn protected_subpath_list() -> (v: Vec<String>)
    ensures
        texts(v@) == protected_subpaths(),
{
    let mut v: Vec<String> = Vec::new();
    assert(texts(v@) =~= Seq::<Seq<char>>::empty());
    push_text(&mut v, ".ssh");
    push_text(&mut v, ".gnupg");
    push_text(&mut v, ".bashrc");
    push_text(&mut v, ".bash_profile");
    push_text(&mut v, ".profile");
    push_text(&mut v, ".zshrc");
    push_text(&mut v, ".zprofile");
    push_text(&mut v, ".pam_environment");
    push_text(&mut v, ".gitconfig");
    push_text(&mut v, ".config/git");
    push_text(&mut v, ".config/autostart");
    push_text(&mut v, ".config/systemd/user");
    push_text(&mut v, ".config/environment.d");
    push_text(&mut v, ".local/bin");
    push_text(&mut v, ".config/fish");
    push_text(&mut v, ".config/nushell");
    push_text(&mut v, ".config/plasma-workspace/env");
    push_text(&mut v, ".config/hypr");
    push_text(&mut v, ".xinitrc");
    push_text(&mut v, ".xprofile");
    push_text(&mut v, ".config/mimeapps.list");
    push_text(&mut v, ".local/share/applications");
    assert(texts(v@) =~= protected_subpaths());
    v
}

/// The list `passthrough_variables`, for use at run time.
pub fn passthrough_variable_list() -> (v: Vec<String>)
    ensures
        texts(v@) == passthrough_variables(),
{
    let mut v: Vec<String> = Vec::new();
    assert(texts(v@) =~= Seq::<Seq<char>>::empty());
    push_text(&mut v, "HOME");
    push_text(&mut v, "USER");
    push_text(&mut v, "LOGNAME");
    push_text(&mut v, "PATH");
    push_text(&mut v, "SHELL");
    push_text(&mut v, "TERM");
    push_text(&mut v, "LANG");
    push_text(&mut v, "LC_ALL");
    push_text(&mut v, "XDG_RUNTIME_DIR");
    push_text(&mut v, "DBUS_SESSION_BUS_ADDRESS");
    push_text(&mut v, "DISPLAY");
    push_text(&mut v, "WAYLAND_DISPLAY");
    push_text(&mut v, "NODE_HOME");
    push_text(&mut v, "NVM_DIR");
    push_text(&mut v, "npm_config_prefix");
    push_text(&mut v, "ANTHROPIC_API_KEY");
    push_text(&mut v, "CLAUDE_API_KEY");
    assert(texts(v@) =~= passthrough_variables());
    v
}

/// The variables that the launcher looks at: those that say where the home
/// directory is and which shell the user has, and those that are handed on
/// into the sandbox.
pub open spec fn wanted_variables() -> Seq<Seq<char>> {
    seq!["HOME"@, "USERPROFILE"@, "SHELL"@] + passthrough_variables()
}

/// The list `wanted_variables`, for use at run time.
pub fn wanted_variable_list() -> (v: Vec<String>)
    ensures
        texts(v@) == wanted_variables(),
{
    let mut v: Vec<String> = Vec::new();
    assert(texts(v@) =~= Seq::<Seq<char>>::empty());
    push_text(&mut v, "HOME");
    push_text(&mut v, "USERPROFILE");
    push_text(&mut v, "SHELL");
    let mut rest = passthrough_variable_list();
    let ghost head = texts(v@);
    let ghost tail = texts(rest@);
    let ghost before_v = v@;
    let ghost before_rest = rest@;
    v.append(&mut rest);
    assert(v@ == before_v + before_rest);
    assert(texts(v@) =~= head + tail);
    assert(head =~= seq!["HOME"@, "USERPROFILE"@, "SHELL"@]);
    v
}

/// The paths `home` with each of `subs` below it.
pub open spec fn paths_below(home: Seq<char>, subs: Seq<Seq<char>>) -> Seq<Seq<char>> {
    Seq::new(subs.len(), |i: int| protected_path(home, subs[i]))
}

/// The paths of which the launcher has to know whether they exist and
/// whether they are directories: the protected entries below the home
/// directory, where it is known, and the project directory, where one is given.
pub open spec fn paths_to_probe(home: Option<Seq<char>>, project_dir: Option<Seq<char>>) -> Seq<
    Seq<char>,
> {
    (match home {
        Some(h) => paths_below(h, protected_subpaths()),
        None => Seq::empty(),
    }) + (match project_dir {
        Some(p) => seq![p],
        None => Seq::empty(),
    })
}

/// The list `paths_to_probe`, for use at run time.
pub fn probe_list(home: &Option<String>, project_dir: &Option<String>) -> (paths: Vec<String>)
    ensures
        texts(paths@) == paths_to_probe(opt_text(*home), opt_text(*project_dir)),
{
    let mut paths: Vec<String> = Vec::new();
    assert(texts(paths@) =~= Seq::<Seq<char>>::empty());
    match home {
        Some(h) => {
            let subs = protected_subpath_list();
            let mut i: usize = 0;
            while i < subs.len()
                invariant
                    i <= subs.len(),
                    texts(subs@) == protected_subpaths(),
                    texts(paths@) == paths_below(h@, protected_subpaths()).take(i as int),
                decreases subs.len() - i,
            {
                let full = join3(h.as_str(), "/", subs[i].as_str());
                proof {
                    assert(texts(subs@)[i as int] == subs@[i as int]@);
                    crate::text::lemma_texts_push(paths@, full);
                }
                paths.push(full);
                assert(texts(paths@) =~= paths_below(h@, protected_subpaths()).take(i + 1));
                i += 1;
            }
            assert(texts(paths@) =~= paths_below(h@, protected_subpaths()));
        },
        None => {},
    }
    let ghost at_home = texts(paths@);
    match project_dir {
        Some(p) => {
            push_text(&mut paths, p.as_str());
            assert(texts(paths@) =~= at_home + seq![p@]);
        },
        None => {
            assert(texts(paths@) =~= at_home + Seq::<Seq<char>>::empty());
        },
    }
    paths
}

/// The start of every sandboxed command line: the sandbox binary, an empty
/// environment, the whole filesystem read-only, fresh device nodes and a
/// fresh temporary filesystem.
pub open spec fn sandbox_prelude() -> Seq<Seq<char>> {
    seq![
        "/usr/bin/bwrap"@,
        "--clearenv"@,
        "--ro-bind"@,
        "/"@,
        "/"@,
        "--dev"@,
        "/dev"@,
        "--tmpfs"@,
        "/tmp"@,
    ]
}

/// The path of a protected entry below the home directory.
pub open spec fn protected_path(home: Seq<char>, sub: Seq<char>) -> Seq<char> {
    home + "/"@ + sub
}

/// The read-only binds for the protected entries `subs` below `home`, in the
/// order of `subs`; an entry that does not exist gets none.
pub open spec fn guard_args(host: HostFacts, home: Seq<char>, subs: Seq<Seq<char>>) -> Seq<
    Seq<char>,
>
    decreases subs.len(),
{
    if subs.len() == 0 {
        Seq::empty()
    } else {
        let full = protected_path(home, subs.last());
        guard_args(host, home, subs.drop_last()) + (if host.path_exists(full) {
            seq!["--ro-bind"@, full, full]
        } else {
            Seq::empty()
        })
    }
}

/// The home directory, writable, and below it the protected entries, read-only.
/// Nothing where the home directory is not known.
pub open spec fn home_args(host: HostFacts) -> Seq<Seq<char>> {
    match host.home() {
        Some(h) => seq!["--bind"@, h, h] + guard_args(host, h, protected_subpaths()),
        None => Seq::empty(),
    }
}

/// Whether the project directory gets a writable bind of its own: it is a
/// directory, and it does not lie within the home directory, which is
/// writable already.
pub open spec fn binds_project(host: HostFacts, project_dir: Option<Seq<char>>) -> bool {
    match project_dir {
        Some(p) => host.is_dir(p) && !(host.home() matches Some(h) && lies_within(p, h)),
        None => false,
    }
}

/// The writable bind of the project directory, where it gets one.
pub open spec fn project_args(host: HostFacts, project_dir: Option<Seq<char>>) -> Seq<Seq<char>> {
    if binds_project(host, project_dir) {
        seq!["--bind"@, project_dir->0, project_dir->0]
    } else {
        Seq::empty()
    }
}

/// The network namespace is unshared where the caller asks for it.
pub open spec fn network_args(no_net: bool) -> Seq<Seq<char>> {
    if no_net {
        seq!["--unshare-net"@]
    } else {
        Seq::empty()
    }
}

/// Host name, IPC, process ids and control groups are unshared; the shell
/// gets a session of its own, dies with its parent and sees a `/proc` of
/// the new process namespace.
pub open spec fn isolation_args() -> Seq<Seq<char>> {
    seq![
        "--unshare-uts"@,
        "--unshare-ipc"@,
        "--unshare-pid"@,
        "--unshare-cgroup"@,
        "--new-session"@,
        "--die-with-parent"@,
        "--proc"@,
        "/proc"@,
    ]
}

/// The variables `names` that are set on the host, each handed on with its
/// value, in the order of `names`.
pub open spec fn setenv_args(host: HostFacts, names: Seq<Seq<char>>) -> Seq<Seq<char>>
    decreases names.len(),
{
    if names.len() == 0 {
        Seq::empty()
    } else {
        setenv_args(host, names.drop_last()) + (match host.var(names.last()) {
            Some(value) => seq!["--setenv"@, names.last(), value],
            None => Seq::empty(),
        })
    }
}

/// The end of a sandboxed command line: the shell, as a login shell.
pub open spec fn sandbox_tail(shell: Seq<char>) -> Seq<Seq<char>> {
    seq!["--"@, shell, "-l"@]
}

/// The whole command line of a sandboxed session.
pub open spec fn sandbox_argv(host: HostFacts, project_dir: Option<Seq<char>>, no_net: bool) -> Seq<
    Seq<char>,
> {
    sandbox_prelude() + home_args(host) + project_args(host, project_dir) + network_args(no_net)
        + isolation_args() + setenv_args(host, passthrough_variables()) + sandbox_tail(
        host.shell(),
    )
}

/// The prompt function that keeps the working directory of a PowerShell
/// process in step with its location.
pub open spec fn powershell_prompt() -> Seq<char> {
    "function prompt { [System.IO.Directory]::SetCurrentDirectory($PWD.Path); \"PS $($PWD.Path)> \" }"@
}

/// The command line of a session without a sandbox: a login shell on Unix,
/// PowerShell with its prompt function on Windows.
pub open spec fn plain_argv(host: HostFacts) -> Seq<Seq<char>> {
    if host.platform == Platform::Windows {
        seq![host.shell(), "-NoExit"@, "-Command"@, powershell_prompt()]
    } else {
        seq![host.shell(), "-l"@]
    }
}

/// The command line that is tried when the sandbox could not be started.
pub open spec fn fallback_argv(host: HostFacts) -> Seq<Seq<char>> {
    seq![host.shell(), "-l"@]
}

/// The directory in which the shell starts: the project directory where it
/// is a directory, else the home directory, else the root of the filesystem.
pub open spec fn start_dir(host: HostFacts, project_dir: Option<Seq<char>>) -> Seq<char> {
    if project_dir is Some && host.is_dir(project_dir->0) {
        project_dir->0
    } else {
        match host.home() {
            Some(h) => h,
            None => if host.platform == Platform::Windows {
                "C:\\"@
            } else {
                "/"@
            },
        }
    }
}

/// Appends `flag` and then `path` twice: a bind of `path` onto itself.
fn push_bind(args: &mut Vec<String>, flag: &str, path: &str)
    ensures
        texts(final(args)@) == texts(old(args)@) + seq![flag@, path@, path@],
{
    push_text(args, flag);
    push_text(args, path);
    push_text(args, path);
    assert(texts(args@) =~= texts(old(args)@) + seq![flag@, path@, path@]);
}

/// Appends the read-only binds of the protected entries that exist.
fn push_guards(args: &mut Vec<String>, host: &HostFacts, home: &str)
    ensures
        texts(final(args)@) == texts(old(args)@) + guard_args(*host, home@, protected_subpaths()),
{
    let subs = protected_subpath_list();
    let ghost start = texts(args@);
    let mut i: usize = 0;
    assert(texts(subs@).take(0) =~= Seq::<Seq<char>>::empty());
    assert(texts(args@) =~= start + guard_args(*host, home@, texts(subs@).take(0)));
    while i < subs.len()
        invariant
            i <= subs.len(),
            texts(subs@) == protected_subpaths(),
            texts(args@) == start + guard_args(*host, home@, texts(subs@).take(i as int)),
        decreases subs.len() - i,
    {
        let full = join3(home, "/", subs[i].as_str());
        let ghost done = texts(subs@).take(i as int);
        let ghost next = texts(subs@).take(i + 1);
        proof {
            assert(next.drop_last() =~= done);
            assert(next.last() == subs@[i as int]@);
            assert(full@ == protected_path(home@, next.last()));
        }
        if is_listed(&host.existing, full.as_str()) {
            push_bind(args, "--ro-bind", full.as_str());
            assert(texts(args@) =~= start + guard_args(*host, home@, next));
        } else {
            assert(texts(args@) =~= start + guard_args(*host, home@, next));
        }
        i += 1;
    }
    assert(texts(subs@).take(subs@.len() as int) =~= texts(subs@));
}

/// Appends the variables that are handed on into the sandbox.
fn push_variables(args: &mut Vec<String>, host: &HostFacts)
    requires
        host.wf(),
    ensures
        texts(final(args)@) == texts(old(args)@) + setenv_args(*host, passthrough_variables()),
{
    let names = passthrough_variable_list();
    let ghost start = texts(args@);
    let mut i: usize = 0;
    assert(texts(names@).take(0) =~= Seq::<Seq<char>>::empty());
    assert(texts(args@) =~= start + setenv_args(*host, texts(names@).take(0)));
    while i < names.len()
        invariant
            i <= names.len(),
            host.wf(),
            texts(names@) == passthrough_variables(),
            texts(args@) == start + setenv_args(*host, texts(names@).take(i as int)),
        decreases names.len() - i,
    {
        let ghost done = texts(names@).take(i as int);
        let ghost next = texts(names@).take(i + 1);
        proof {
            assert(next.drop_last() =~= done);
            assert(next.last() == names@[i as int]@);
        }
        match host.variable(names[i].as_str()) {
            Some(value) => {
                let ghost before = texts(args@);
                push_text(args, "--setenv");
                push_text(args, names[i].as_str());
                push_text(args, value.as_str());
                assert(texts(args@) =~= before + seq!["--setenv"@, names@[i as int]@, value@]);
                assert(texts(args@) =~= start + setenv_args(*host, next));
            },
            None => {
                assert(texts(args@) =~= start + setenv_args(*host, next));
            },
        }
        i += 1;
    }
    assert(texts(names@).take(names@.len() as int) =~= texts(names@));
}

/// Appends the start of a sandboxed command line.
fn push_prelude(args: &mut Vec<String>)
    ensures
        texts(final(args)@) == texts(old(args)@) + sandbox_prelude(),
{
    push_text(args, "/usr/bin/bwrap");
    push_text(args, "--clearenv");
    push_text(args, "--ro-bind");
    push_text(args, "/");
    push_text(args, "/");
    push_text(args, "--dev");
    push_text(args, "/dev");
    push_text(args, "--tmpfs");
    push_text(args, "/tmp");
    assert(texts(args@) =~= texts(old(args)@) + sandbox_prelude());
}

/// Appends the binds of the home directory.
fn push_home(args: &mut Vec<String>, host: &HostFacts)
    requires
        host.wf(),
    ensures
        texts(final(args)@) == texts(old(args)@) + home_args(*host),
{
    match home_dir(host) {
        Some(h) => {
            push_bind(args, "--bind", h.as_str());
            push_guards(args, host, h.as_str());
            assert(texts(args@) =~= texts(old(args)@) + home_args(*host));
        },
        None => {
            assert(texts(args@) =~= texts(old(args)@) + home_args(*host));
        },
    }
}

/// Decides `binds_project`.
pub fn project_needs_bind(host: &HostFacts, project_dir: &Option<String>) -> (b: bool)
    requires
        host.wf(),
    ensures
        b == binds_project(*host, opt_text(*project_dir)),
{
    match project_dir {
        Some(p) => {
            if !is_listed(&host.directories, p.as_str()) {
                return false;
            }
            match home_dir(host) {
                Some(h) => !path_lies_within(p.as_str(), h.as_str()),
                None => true,
            }
        },
        None => false,
    }
}

/// Appends the bind of the project directory, where it gets one.
fn push_project(args: &mut Vec<String>, host: &HostFacts, project_dir: &Option<String>)
    requires
        host.wf(),
    ensures
        texts(final(args)@) == texts(old(args)@) + project_args(*host, opt_text(*project_dir)),
{
    if project_needs_bind(host, project_dir) {
        match project_dir {
            Some(p) => {
                push_bind(args, "--bind", p.as_str());
            },
            None => {},
        }
    } else {
        assert(texts(args@) =~= texts(old(args)@) + project_args(*host, opt_text(*project_dir)));
    }
}

/// Appends what unshares the network, where that is asked for.
fn push_network(args: &mut Vec<String>, no_net: bool)
    ensures
        texts(final(args)@) == texts(old(args)@) + network_args(no_net),
{
    if no_net {
        push_text(args, "--unshare-net");
    }
    assert(texts(args@) =~= texts(old(args)@) + network_args(no_net));
}

/// Appends what isolates the shell from the host's namespaces.
fn push_isolation(args: &mut Vec<String>)
    ensures
        texts(final(args)@) == texts(old(args)@) + isolation_args(),
{
    push_text(args, "--unshare-uts");
    push_text(args, "--unshare-ipc");
    push_text(args, "--unshare-pid");
    push_text(args, "--unshare-cgroup");
    push_text(args, "--new-session");
    push_text(args, "--die-with-parent");
    push_text(args, "--proc");
    push_text(args, "/proc");
    assert(texts(args@) =~= texts(old(args)@) + isolation_args());
}

/// Appends the shell to run inside the sandbox.
fn push_tail(args: &mut Vec<String>, host: &HostFacts)
    requires
        host.wf(),
    ensures
        texts(final(args)@) == texts(old(args)@) + sandbox_tail(host.shell()),
{
    let shell = get_shell(host);
    push_text(args, "--");
    push_text(args, shell.as_str());
    push_text(args, "-l");
    assert(texts(args@) =~= texts(old(args)@) + sandbox_tail(host.shell()));
}

/// The command line of a sandboxed session on this host.
pub fn sandbox_args(host: &HostFacts, project_dir: &Option<String>, no_net: bool) -> (args: Vec<
    String,
>)
    requires
        host.wf(),
    ensures
        texts(args@) == sandbox_argv(*host, opt_text(*project_dir), no_net),
        args@.len() > 0,
{
    let mut args: Vec<String> = Vec::new();
    assert(texts(args@) =~= Seq::<Seq<char>>::empty());
    push_prelude(&mut args);
    assert(texts(args@) =~= sandbox_prelude());
    push_home(&mut args, host);
    push_project(&mut args, host, project_dir);
    push_network(&mut args, no_net);
    push_isolation(&mut args);
    push_variables(&mut args, host);
    push_tail(&mut args, host);
    assert(texts(args@).len() == args@.len());
    args
}

/// The command line of a session without a sandbox on this host.
pub fn plain_args(host: &HostFacts) -> (args: Vec<String>)
    requires
        host.wf(),
    ensures
        texts(args@) == plain_argv(*host),
        args@.len() > 0,
{
    let shell = get_shell(host);
    let mut args: Vec<String> = Vec::new();
    assert(texts(args@) =~= Seq::<Seq<char>>::empty());
    push_text(&mut args, shell.as_str());
    match host.platform {
        Platform::Windows => {
            push_text(&mut args, "-NoExit");
            push_text(&mut args, "-Command");
            push_text(
                &mut args,
                "function prompt { [System.IO.Directory]::SetCurrentDirectory($PWD.Path); \"PS $($PWD.Path)> \" }",
            );
            assert(texts(args@) =~= plain_argv(*host));
        },
        _ => {
            push_text(&mut args, "-l");
            assert(texts(args@) =~= plain_argv(*host));
        },
    }
    args
}

/// The command line that is tried when the sandbox could not be started.
pub fn fallback_args(host: &HostFacts) -> (args: Vec<String>)
    requires
        host.wf(),
    ensures
        texts(args@) == fallback_argv(*host),
        args@.len() > 0,
{
    let shell = get_shell(host);
    let mut args: Vec<String> = Vec::new();
    assert(texts(args@) =~= Seq::<Seq<char>>::empty());
    push_text(&mut args, shell.as_str());
    push_text(&mut args, "-l");
    assert(texts(args@) =~= fallback_argv(*host));
    args
}

/// The directory in which the shell starts.
pub fn starting_directory(host: &HostFacts, project_dir: &Option<String>) -> (dir: String)
    requires
        host.wf(),
    ensures
        dir@ == start_dir(*host, opt_text(*project_dir)),
{
    match project_dir {
        Some(p) => {
            if is_listed(&host.directories, p.as_str()) {
                return p.clone();
            }
        },
        None => {},
    }
    match home_dir(host) {
        Some(h) => h,
        None => match host.platform {
            Platform::Windows => "C:\\".to_owned(),
            _ => "/".to_owned(),
        },
    }
}

/// The variables that every session's command sets for the shell: the kind of
/// terminal the shell is talking to.
pub open spec fn session_env() -> Map<Seq<char>, Seq<char>> {
    no_variables().insert("TERM"@, "xterm-256color"@)
}

/// A command builder that runs `args` in `dir` with the session's variables set.
pub(crate) fn build_command(args: &Vec<String>, dir: &str) -> (cmd: CommandBuilder)
    requires
        args@.len() > 0,
    ensures
        command_argv(cmd) == texts(args@),
        command_env(cmd) == session_env(),
        command_cwd(cmd) == Some(dir@),
{
    let mut cmd = command_new(args[0].as_str());
    let mut i: usize = 1;
    assert(command_argv(cmd) =~= texts(args@).take(1));
    while i < args.len()
        invariant
            1 <= i <= args.len(),
            command_argv(cmd) == texts(args@).take(i as int),
            command_env(cmd) == no_variables(),
            command_cwd(cmd) is None,
        decreases args.len() - i,
    {
        command_arg(&mut cmd, args[i].as_str());
        assert(command_argv(cmd) =~= texts(args@).take(i + 1));
        i += 1;
    }
    assert(texts(args@).take(args@.len() as int) =~= texts(args@));
    command_set_env(&mut cmd, "TERM", "xterm-256color");
    assert(command_env(cmd) =~= session_env());
    command_set_cwd(&mut cmd, dir);
    cmd
}

/// The size of a terminal in character cells and in pixels.
#[derive(Clone, Copy, Debug, PartialEq, Eq, Structural)]
pub struct TerminalSize {
    pub rows: u16,
    pub cols: u16,
    pub pixel_width: u16,
    pub pixel_height: u16,
}

/// The size that is asked of the pseudo-terminal for `rows` by `cols` cells:
/// the pixel size is left open, as zero.
pub fn terminal_size(rows: u16, cols: u16) -> (size: TerminalSize)
    ensures
        size == (TerminalSize { rows, cols, pixel_width: 0, pixel_height: 0 }),
{
    TerminalSize { rows, cols, pixel_width: 0, pixel_height: 0 }
}

/// What is to be spawned for a new session, decided before anything is spawned.
pub struct SpawnPlan {
    /// The size at which the pseudo-terminal is opened.
    pub size: TerminalSize,
    /// The command that is tried first.
    pub command: CommandBuilder,
    /// Whether `command` runs the shell inside the sandbox.
    pub sandboxed: bool,
    /// The command that is tried when `command` cannot be spawned, if there is one.
    pub fallback: Option<CommandBuilder>,
}

/// Whether a session on this host is first tried inside the sandbox.
pub open spec fn tries_sandbox(host: HostFacts, sandbox: bool) -> bool {
    sandbox && host.platform == Platform::Linux
}

/// A session that falls back runs what a session runs that never asked for
/// the sandbox: the same command line, with the same variables and in the
/// same directory.
pub proof fn lemma_fallback_is_the_plain_command(host: HostFacts, sandbox: bool)
    requires
        tries_sandbox(host, sandbox),
    ensures
        !tries_sandbox(host, false),
        fallback_argv(host) == plain_argv(host),
{
}

/// Plans the spawn of a session: the sandboxed command with the plain login
/// shell to fall back on, where a sandbox is asked for and the host has one;
/// the plain command alone otherwise.
pub fn plan_spawn(
    rows: u16,
    cols: u16,
    sandbox: bool,
    sandbox_no_net: bool,
    project_dir: &Option<String>,
    host: &HostFacts,
) -> (plan: SpawnPlan)
    requires
        host.wf(),
    ensures
        plan.size == (TerminalSize { rows, cols, pixel_width: 0, pixel_height: 0 }),
        plan.sandboxed == tries_sandbox(*host, sandbox),
        command_argv(plan.command) == (if tries_sandbox(*host, sandbox) {
            sandbox_argv(*host, opt_text(*project_dir), sandbox_no_net)
        } else {
            plain_argv(*host)
        }),
        command_env(plan.command) == session_env(),
        command_cwd(plan.command) == Some(start_dir(*host, opt_text(*project_dir))),
        (plan.fallback is Some) == tries_sandbox(*host, sandbox),
        plan.fallback matches Some(fallback) ==> {
            &&& command_argv(fallback) == fallback_argv(*host)
            &&& command_env(fallback) == session_env()
            &&& command_cwd(fallback) == Some(start_dir(*host, opt_text(*project_dir)))
        },
{
    let size = terminal_size(rows, cols);
    let dir = starting_directory(host, project_dir);
    let on_linux = match host.platform {
        Platform::Linux => true,
        _ => false,
    };
    if sandbox && on_linux {
        let args = sandbox_args(host, project_dir, sandbox_no_net);
        let spare = fallback_args(host);
        let command = build_command(&args, dir.as_str());
        let fallback = build_command(&spare, dir.as_str());
        SpawnPlan { size, command, sandboxed: true, fallback: Some(fallback) }
    } else {
        let args = plain_args(host);
        let command = build_command(&args, dir.as_str());
        SpawnPlan { size, command, sandboxed: false, fallback: None }
    }
}

/// Which of the two commands of a plan has just been tried.
#[derive(Clone, Copy, Debug, PartialEq, Eq, Structural)]
pub enum SpawnAttempt {
    /// The plan's first command.
    First,
    /// The plan's fallback.
    Fallback,
}

/// What follows from a spawn attempt.
pub enum SpawnStep {
    /// The shell runs; `sandboxed` says whether it runs inside the sandbox.
    Started { sandboxed: bool },
    /// The sandbox could not be started: the fallback is to be tried.
    TryFallback,
    /// No shell could be started.
    Failed(Failure),
}

/// What follows from a spawn attempt. A shell that started is sandboxed only
/// if it was the plan's first command and that command was the sandboxed
/// one. A sandbox that failed to start is no failure of the request while
/// there is a fallback; any other failure ends the request.
pub open spec fn spec_spawn_step(
    sandboxed: bool,
    has_fallback: bool,
    attempt: SpawnAttempt,
    error: Option<String>,
) -> SpawnStep {
    match error {
        None => SpawnStep::Started { sandboxed: sandboxed && attempt == SpawnAttempt::First },
        Some(e) => if attempt == SpawnAttempt::First && has_fallback {
            SpawnStep::TryFallback
        } else {
            SpawnStep::Failed(Failure::SpawnShell(e))
        },
    }
}

/// Decides what follows from the attempt `attempt` of `plan`, which ended
/// with `error`, or well where `error` is `None`.
pub fn spawn_step(plan: &SpawnPlan, attempt: SpawnAttempt, error: Option<String>) -> (step:
    SpawnStep)
    ensures
        step == spec_spawn_step(plan.sandboxed, plan.fallback is Some, attempt, error),
{
    let first = match attempt {
        SpawnAttempt::First => true,
        SpawnAttempt::Fallback => false,
    };
    match error {
        None => SpawnStep::Started { sandboxed: plan.sandboxed && first },
        Some(e) => {
            if first && plan.fallback.is_some() {
                SpawnStep::TryFallback
            } else {
                SpawnStep::Failed(Failure::SpawnShell(e))
            }
        },
    }
}

/// The shell of a hidden terminal: the user's `SHELL`, or bash where that
/// is not set, whatever the platform.
pub open spec fn hidden_shell(host: HostFacts) -> Seq<char> {
    match host.var("SHELL"@) {
        Some(s) => s,
        None => "/bin/bash"@,
    }
}

/// Plans the spawn of a hidden terminal, which runs one command in a login
/// shell: 24 rows by 80 columns, in the project directory, never sandboxed
/// and with nothing to fall back on.
pub fn plan_hidden(command: &str, project_dir: &str, host: &HostFacts) -> (plan: SpawnPlan)
    requires
        host.wf(),
    ensures
        plan.size == (TerminalSize { rows: 24, cols: 80, pixel_width: 0, pixel_height: 0 }),
        !plan.sandboxed,
        plan.fallback is None,
        command_argv(plan.command) == seq![hidden_shell(*host), "-lc"@, command@],
        command_env(plan.command) == session_env(),
        command_cwd(plan.command) == Some(project_dir@),
{
    let shell = match host.variable("SHELL") {
        Some(s) => s,
        None => "/bin/bash".to_owned(),
    };
    let mut args: Vec<String> = Vec::new();
    assert(texts(args@) =~= Seq::<Seq<char>>::empty());
    push_text(&mut args, shell.as_str());
    push_text(&mut args, "-lc");
    push_text(&mut args, command);
    assert(texts(args@) =~= seq![hidden_shell(*host), "-lc"@, command@]);
    let cmd = build_command(&args, project_dir);
    SpawnPlan { size: terminal_size(24, 80), command: cmd, sandboxed: false, fallback: None }
}

/// Where the kernel says whether it restricts namespaces of unprivileged users.
pub const USERNS_SWITCH_PATH: &'static str = "/proc/sys/kernel/apparmor_restrict_unprivileged_userns";

/// Where the policy profile of the sandbox binary is installed.
pub const PROFILE_PATH: &'static str = "/etc/apparmor.d/bwrap";

/// The policy profile that lets the sandbox binary create user namespaces.
pub const PROFILE_TEXT: &'static str = "abi <abi/4.0>,\ninclude <tunables/global>\n\nprofile bwrap /usr/bin/bwrap flags=(unconfined) {\n  userns,\n}\n";

/// The script that installs the profile and loads it; it needs privileges.
pub open spec fn install_script() -> Seq<char> {
    "echo '"@ + PROFILE_TEXT@ + "' > "@ + PROFILE_PATH@ + " && apparmor_parser -r "@ + PROFILE_PATH@
}

/// Whether the kernel restricts namespaces of unprivileged users, going by
/// the content of its switch: it does where the content, white space
/// aside, is `1`. A switch that cannot be read means that it does not.
pub open spec fn userns_restricted(switch: Option<Seq<char>>) -> bool {
    match switch {
        Some(content) => trimmed(content) == "1"@,
        None => false,
    }
}

/// What is to be done about the policy profile of the sandbox binary.
pub enum ProfileAction {
    /// The kernel does not restrict namespaces: nothing to do.
    NotRestricted,
    /// The profile is installed already: nothing to do.
    AlreadyInstalled,
    /// The profile is to be installed by running this script with privileges.
    Install(String),
}

/// Decides what is to be done about the policy profile. `switch` is the
/// content of the kernel's switch, where it could be read, and
/// `profile_exists` says whether the profile is installed.
pub fn profile_action(switch: &Option<String>, profile_exists: bool) -> (action: ProfileAction)
    ensures
        match action {
            ProfileAction::NotRestricted => !userns_restricted(opt_text(*switch)),
            ProfileAction::AlreadyInstalled => userns_restricted(opt_text(*switch))
                && profile_exists,
            ProfileAction::Install(script) => userns_restricted(opt_text(*switch))
                && !profile_exists && script@ == install_script(),
        },
{
    let restricted = match switch {
        Some(content) => same_text(trim(content.as_str()), "1"),
        None => false,
    };
    if !restricted {
        ProfileAction::NotRestricted
    } else if profile_exists {
        ProfileAction::AlreadyInstalled
    } else {
        let mut script = "echo '".to_owned();
        script.append(PROFILE_TEXT);
        script.append("' > ");
        script.append(PROFILE_PATH);
        script.append(" && apparmor_parser -r ");
        script.append(PROFILE_PATH);
        ProfileAction::Install(script)
    }
}

/// Whether the policy profile was looked after in this process. It is
/// looked after once, before the first sandboxed spawn.
pub struct ProfileSetup {
    attempted: bool,
}

impl ProfileSetup {
    /// Whether the profile was looked after.
    pub closed spec fn attempted(&self) -> bool {
        self.attempted
    }

    /// At the start of the process: not yet.
    pub fn new() -> (setup: Self)
        ensures
            !setup.attempted(),
    {
        ProfileSetup { attempted: false }
    }

    /// Asks whether the profile is to be looked after now, and notes that it
    /// was: the answer is yes the first time and no ever after.
    pub fn begin(&mut self) -> (due: bool)
        ensures
            due == !old(self).attempted(),
            final(self).attempted(),
    {
        let due = !self.attempted;
        self.attempted = true;
        due
    }

    /// Whether the profile was looked after.
    pub fn is_done(&self) -> (done: bool)
        ensures
            done == self.attempted(),
    {
        self.attempted
    }
}

} // verus!
