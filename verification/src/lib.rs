//! A directory-polling engine: it repeatedly scans a directory state,
//! hands each regular file's content to a pluggable handler, and
//! optionally deletes processed files.
//!
//! The directory is represented as an explicit value ([`fs_model::PathState`]):
//! a list of entries, each either a regular file with its text content or a
//! non-regular entry (subdirectory, symlink, other). A driver that talks to a
//! real filesystem converts between that representation and disk, performs the
//! reads, removals and sleeps, and asks this library for every decision.

pub mod fs_model;
pub mod handler;
pub mod laws;
pub mod poller;
