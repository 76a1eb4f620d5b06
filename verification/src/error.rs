//! The failures an inventory can end in.

use vstd::prelude::*;

verus! {

/// An I/O failure of the operating system, carried through as it came.
#[verifier::external_type_specification]
#[verifier::external_body]
pub struct ExIoError(std::io::Error);

/// The error with which serde_json rejects a text.
#[verifier::external_type_specification]
#[verifier::external_body]
pub struct ExJsonError(serde_json::Error);

/// A file system path, carried through as it came.
#[verifier::external_type_specification]
#[verifier::external_body]
pub struct ExPathBuf(std::path::PathBuf);

/// A member that a profile document must hold.
#[derive(Debug, Clone, Copy, PartialEq, Eq)]
pub enum ProfileField {
    /// `login`, a string.
    Login,
    /// `id`, a number that is read as an unsigned 64-bit integer.
    Id,
}

/// Why an inventory could not be built.
#[derive(Debug)]
pub enum FetchError {
    /// A directory could not be opened or listed, a file's type or content
    /// could not be read, or a response body could not be read.
    Io(std::io::Error),
    /// A directory stands where a file was expected; this is its path.
    InvalidInput(std::path::PathBuf),
    /// A file's text is no record; this is the parser's message.
    Parse(String),
    /// A profile request could not be sent; this is the client's message.
    Network(String),
    /// A response body is no JSON text.
    Json(serde_json::Error),
    /// A response body is JSON, but lacks this member of a profile.
    Profile(ProfileField),
}

} // verus!
