//! The engine's picture of the filesystem: the target path is either missing,
//! not a directory, or a directory holding a list of entries. Only regular
//! files are eligible for processing; subdirectories, symlinks and other
//! special entries are skipped silently.

use vstd::prelude::*;

verus! {

/// One entry directly inside the target directory.
///
/// A regular file carries its full text content, together with two facts a
/// real filesystem decides: whether reading the content succeeds
/// (`readable`) and whether removing the file succeeds (`removable`).
#[derive(Debug, PartialEq, Eq)]
pub enum FsEntry {
    RegularFile { name: String, content: String, readable: bool, removable: bool },
    Subdirectory { name: String },
    Symlink { name: String },
    Special { name: String },
}

/// The state of the target path: the poller validates it once, before any
/// cycle runs, and scans it only when it is a directory.
#[derive(Debug, PartialEq, Eq)]
pub enum PathState {
    /// The path does not exist.
    Missing,
    /// The path exists but is not a directory.
    NonDirectory,
    /// The path is a directory with the given entries.
    Directory(Vec<FsEntry>),
}

impl PathState {
    /// The entries of a directory; the empty sequence for the other states.
    pub open spec fn entries(self) -> Seq<FsEntry> {
        match self {
            PathState::Directory(v) => v@,
            _ => Seq::empty(),
        }
    }
}

} // verus!
