//! Whether a command is installed: which tool is asked.

use crate::pty::manager::Platform;
use vstd::prelude::*;

verus! {

/// The tool that says whether a command is installed: `where` on Windows,
/// `which` elsewhere. The command is installed where the tool finds it.
pub open spec fn checker_of(platform: Platform) -> Seq<char> {
    if platform == Platform::Windows {
        "where"@
    } else {
        "which"@
    }
}

/// The tool that says whether a command is installed.
pub fn command_checker(platform: Platform) -> (checker: String)
    ensures
        checker@ == checker_of(platform),
{
    match platform {
        Platform::Windows => "where".to_owned(),
        _ => "which".to_owned(),
    }
}

} // verus!
