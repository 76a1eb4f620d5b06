//! Directory entries as a scan saw them, and the filter that lets files pass.

use vstd::prelude::*;
use crate::error::FetchError;
use std::path::PathBuf;

verus! {

/// What a scan saw at one place of a directory listing. `C` is what the scan
/// took from a file: its parsed content for a record, nothing for an asset.
#[derive(Debug)]
pub enum Entry<C> {
    /// The listing failed before it gave this entry.
    Failed(std::io::Error),
    /// The entry was listed, but its file type could not be read.
    Unknown { path: PathBuf, failure: std::io::Error },
    /// The entry is a directory.
    Directory { path: PathBuf },
    /// The entry is anything but a directory.
    File { path: PathBuf, content: C },
}

/// The path and content of an entry that is a file, or the failure that an
/// entry stands for: a failure of the listing or of the file type query as
/// it came, and an invalid-input error for a directory.
pub open spec fn filtered<C>(entry: Entry<C>) -> Result<(PathBuf, C), FetchError> {
    match entry {
        Entry::Failed(failure) => Err(FetchError::Io(failure)),
        Entry::Unknown { path, failure } => Err(FetchError::Io(failure)),
        Entry::Directory { path } => Err(FetchError::InvalidInput(path)),
        Entry::File { path, content } => Ok((path, content)),
    }
}

impl<C> Entry<C> {
    /// Whether the filter lets this entry pass. A scan that goes on only
    /// while this holds has seen all that an inventory reads.
    pub fn passes(&self) -> (passing: bool)
        ensures
            passing == filtered(*self) is Ok,
    {
        match self {
            Entry::File { .. } => true,
            _ => false,
        }
    }
}

/// Lets a file pass with its path and content, and turns every other entry
/// into its failure.
pub fn filter_entry<C>(entry: Entry<C>) -> (passed: Result<(PathBuf, C), FetchError>)
    ensures
        passed == filtered(entry),
{
    match entry {
        Entry::Failed(failure) => Err(FetchError::Io(failure)),
        Entry::Unknown { path: _, failure } => Err(FetchError::Io(failure)),
        Entry::Directory { path } => Err(FetchError::InvalidInput(path)),
        Entry::File { path, content } => Ok((path, content)),
    }
}

} // verus!
