//! What is read from the filesystem and from the version-control tool, as
//! values: the records themselves and the rules by which they are made from
//! what was read.

pub mod commands;
pub mod cwd;
pub mod directory;
pub mod git;
