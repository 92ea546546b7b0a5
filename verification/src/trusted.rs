//! The items of this crate that Verus believes without proof.
//!
//! Each one stands for a function or a type of another crate, or of the
//! standard library where vstd says nothing of it. Everything else in the
//! crate is proved from these contracts.

use portable_pty::CommandBuilder;
use std::sync::mpsc::Sender;
use std::sync::Arc;
use std::time::Instant;
use vstd::prelude::*;

verus! {

/// `portable_pty::CommandBuilder`, the command line that a pseudo-terminal spawns.
/// Verus sees nothing inside it; the three names below say what it holds.
#[verifier::external_type_specification]
#[verifier::external_body]
pub struct ExCommandBuilder(CommandBuilder);

/// The argument vector of a command builder, program first (`CommandBuilder::get_argv`).
pub uninterp spec fn command_argv(cmd: CommandBuilder) -> Seq<Seq<char>>;

/// The variables that were set on a command builder by `CommandBuilder::env`, each with
/// its value. The variables inherited from the process are not among them.
pub uninterp spec fn command_env(cmd: CommandBuilder) -> Map<Seq<char>, Seq<char>>;

/// The empty set of variables.
pub open spec fn no_variables() -> Map<Seq<char>, Seq<char>> {
    Map::empty()
}

/// The working directory of a command builder, if one was set (`CommandBuilder::get_cwd`).
pub uninterp spec fn command_cwd(cmd: CommandBuilder) -> Option<Seq<char>>;

/// `CommandBuilder::new`: the argument vector holds the program alone, no variable is
/// set and no working directory is chosen.
#[verifier::external_body]
pub(crate) fn command_new(program: &str) -> (cmd: CommandBuilder)
    ensures
        command_argv(cmd) == seq![program@],
        command_env(cmd) == no_variables(),
        command_cwd(cmd) is None,
{
    CommandBuilder::new(program)
}

/// `CommandBuilder::arg`: appends one argument and leaves the rest alone. The outside
/// function panics on a builder without a program, which `requires` leaves out.
#[verifier::external_body]
pub(crate) fn command_arg(cmd: &mut CommandBuilder, arg: &str)
    requires
        command_argv(*old(cmd)).len() > 0,
    ensures
        command_argv(*final(cmd)) == command_argv(*old(cmd)).push(arg@),
        command_env(*final(cmd)) == command_env(*old(cmd)),
        command_cwd(*final(cmd)) == command_cwd(*old(cmd)),
{
    cmd.arg(arg)
}

/// `CommandBuilder::env`: afterwards the variable has the value given. No other
/// variable appears or changes; one that differs from `key` only by case may go,
/// as it does where the host does not tell such names apart.
#[verifier::external_body]
pub(crate) fn command_set_env(cmd: &mut CommandBuilder, key: &str, value: &str)
    ensures
        command_env(*final(cmd)).contains_key(key@),
        command_env(*final(cmd))[key@] == value@,
        forall|k: Seq<char>|
            k != key@ && #[trigger] command_env(*final(cmd)).contains_key(k) ==> command_env(
                *old(cmd),
            ).contains_key(k) && command_env(*final(cmd))[k] == command_env(*old(cmd))[k],
        command_argv(*final(cmd)) == command_argv(*old(cmd)),
        command_cwd(*final(cmd)) == command_cwd(*old(cmd)),
{
    cmd.env(key, value)
}

/// `CommandBuilder::cwd`: sets the working directory and leaves the rest alone.
#[verifier::external_body]
pub(crate) fn command_set_cwd(cmd: &mut CommandBuilder, dir: &str)
    ensures
        command_cwd(*final(cmd)) == Some(dir@),
        command_argv(*final(cmd)) == command_argv(*old(cmd)),
        command_env(*final(cmd)) == command_env(*old(cmd)),
{
    cmd.cwd(dir)
}

/// What `String::from_utf8_lossy` makes of a run of bytes: the text they encode, with
/// U+FFFD in place of each part that is not UTF-8.
pub uninterp spec fn utf8_lossy(bytes: Seq<u8>) -> Seq<char>;

/// `String::from_utf8_lossy`, with the result as an owned string.
#[verifier::external_body]
pub(crate) fn decode_lossy(bytes: &[u8]) -> (text: String)
    ensures
        text@ == utf8_lossy(bytes@),
{
    String::from_utf8_lossy(bytes).into_owned()
}

/// The shape of a UUID in its hyphenated form: 36 characters, with hyphens after
/// the groups of 8, 4, 4 and 4.
pub open spec fn is_hyphenated_uuid(s: Seq<char>) -> bool {
    &&& s.len() == 36
    &&& s[8] == '-'
    &&& s[13] == '-'
    &&& s[18] == '-'
    &&& s[23] == '-'
}

/// `uuid::Uuid::new_v4`, formatted as `Uuid` formats itself: a random UUID in hyphenated
/// form. Which one is not known; two calls may give the same.
#[verifier::external_body]
pub(crate) fn random_uuid() -> (id: String)
    ensures
        is_hyphenated_uuid(id@),
{
    uuid::Uuid::new_v4().to_string()
}

/// `std::time::Instant`, a reading of the monotonic clock.
#[verifier::external_type_specification]
#[verifier::external_body]
pub struct ExInstant(Instant);

/// `Instant::now`. Nothing is known of the reading.
#[verifier::external_body]
pub(crate) fn clock_start() -> (origin: Instant) {
    Instant::now()
}

/// `Instant::elapsed`, in nanoseconds: the time that has passed since `origin` was
/// read. It depends on when it is asked, so nothing is known of it.
#[verifier::external_body]
pub(crate) fn clock_read(origin: &Instant) -> (nanos: u128) {
    origin.elapsed().as_nanos()
}

/// `std::sync::mpsc::Sender`, the sending end of a channel. The library only holds
/// such ends and lets go of them.
#[verifier::external_type_specification]
#[verifier::external_body]
#[verifier::reject_recursive_types(T)]
pub struct ExSender<T>(Sender<T>);

/// `Arc::clone`: another pointer to the same value.
#[verifier::external_body]
pub(crate) fn share<T>(value: &Arc<T>) -> (shared: Arc<T>)
    ensures
        shared == *value,
{
    Arc::clone(value)
}

/// What `str::to_lowercase` makes of a text: each character in lower case, as
/// Unicode defines it.
pub uninterp spec fn lowercased(s: Seq<char>) -> Seq<char>;

/// `str::to_lowercase`.
#[verifier::external_body]
pub(crate) fn to_lowercase(s: &str) -> (lower: String)
    ensures
        lower@ == lowercased(s@),
{
    s.to_lowercase()
}

} // verus!
