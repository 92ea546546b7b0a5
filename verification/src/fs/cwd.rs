//! The working directory of the process behind a session: where it is
//! looked up, and which process is meant.

use crate::scan::{parse_unsigned, unsigned_up_to};
use crate::text::{decimal_text, first_word, first_word_of, push_decimal};
use vstd::prelude::*;
use vstd::utf8::encode_utf8;

verus! {

/// Where the kernel lists the children of the process `pid`.
pub open spec fn children_path_of(pid: nat) -> Seq<char> {
    "/proc/"@ + decimal_text(pid) + "/task/"@ + decimal_text(pid) + "/children"@
}

/// Where the kernel links to the working directory of the process `pid`.
pub open spec fn cwd_link_of(pid: nat) -> Seq<char> {
    "/proc/"@ + decimal_text(pid) + "/cwd"@
}

/// Where the kernel lists the children of the process `pid`.
pub fn children_path(pid: u32) -> (path: String)
    ensures
        path@ == children_path_of(pid as nat),
{
    let mut path = "/proc/".to_owned();
    push_decimal(&mut path, pid);
    path.append("/task/");
    push_decimal(&mut path, pid);
    path.append("/children");
    path
}

/// Where the kernel links to the working directory of the process `pid`.
pub fn cwd_link(pid: u32) -> (path: String)
    ensures
        path@ == cwd_link_of(pid as nat),
{
    let mut path = "/proc/".to_owned();
    push_decimal(&mut path, pid);
    path.append("/cwd");
    path
}

/// The first child that a list of children names: the number that its first
/// word denotes. A list without a word names none, and neither does one
/// whose first word is no process identifier.
pub open spec fn first_child(children: Seq<char>) -> Option<nat> {
    unsigned_up_to(encode_utf8(first_word_of(children)), u32::MAX as nat)
}

/// Reads the first child from the list of children of a process.
pub fn find_child_pid(children: &str) -> (child: Option<u32>)
    ensures
        match child {
            Some(pid) => first_child(children@) == Some(pid as nat),
            None => first_child(children@) is None,
        },
{
    let word = first_word(children);
    match parse_unsigned(word.as_bytes(), u32::MAX as u64) {
        Some(n) => Some(n as u32),
        None => None,
    }
}

/// The process whose working directory is that of the session. `pid` is the
/// child of the session and `deepest` the last of its line of first
/// children, where it has one. In a sandboxed session the child is the
/// sandbox and the shell is its descendant; otherwise the child is the shell.
pub fn target_pid(sandboxed: bool, pid: u32, deepest: Option<u32>) -> (target: u32)
    ensures
        target == (if sandboxed && deepest is Some {
            deepest->0
        } else {
            pid
        }),
{
    if sandboxed {
        match deepest {
            Some(child) => child,
            None => pid,
        }
    } else {
        pid
    }
}

} // verus!
