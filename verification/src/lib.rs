//! Verified core of a tool that makes VSCode Server run on hosts whose glibc
//! is too old: it computes the paths, command lines and file edits that the
//! fix needs, and decides what to do at each step.

pub mod paths;
pub mod text;
pub mod script;
pub mod command;
pub mod prepare;
pub mod patchelf;
pub mod watch;
pub mod fix;
