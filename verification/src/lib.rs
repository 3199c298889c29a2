//! Locate the nearest ancestor directory that contains one of a set of
//! candidate marker names.
//!
//! The library is split into three parts: `paths` holds the path algebra
//! (parent of a path, joining a directory with an entry name), `search`
//! holds the closest-ancestor search itself, and `cli` holds the
//! command-line decisions (argument parsing, the standard marker table,
//! exit codes). Everything that touches the real filesystem or the
//! process environment lives outside the library; the search works on a
//! snapshot of existence facts handed in as plain values.

pub mod cli;
pub mod laws;
pub mod paths;
pub mod search;
