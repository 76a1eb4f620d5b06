//! What the build step is asked to do with a file.

use vstd::prelude::*;
use std::path::PathBuf;

verus! {

/// A file to be copied as it is.
#[derive(Debug, PartialEq, Eq)]
pub struct CopyFile {
    pub path: PathBuf,
}

/// An action of the build step on one file.
#[derive(Debug, PartialEq, Eq)]
pub enum Asset {
    /// A file of no special kind: copy it.
    Other(CopyFile),
}

} // verus!
