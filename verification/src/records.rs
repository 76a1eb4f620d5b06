//! The records of an inventory, and how a file's content becomes one.

use vstd::prelude::*;
use crate::error::FetchError;

verus! {

/// What reading a file and parsing its text gave.
#[derive(Debug)]
pub enum FileLoad<T> {
    /// The file could not be read as text.
    Unreadable(std::io::Error),
    /// The text is no record of the kind asked for; this is the parser's message.
    Malformed(String),
    /// The record that the text holds.
    Parsed(T),
}

/// The record that a load holds, or the failure that it stands for: a read
/// failure as it came, and a parse error with the parser's message.
pub open spec fn loaded<T>(load: FileLoad<T>) -> Result<T, FetchError> {
    match load {
        FileLoad::Unreadable(failure) => Err(FetchError::Io(failure)),
        FileLoad::Malformed(message) => Err(FetchError::Parse(message)),
        FileLoad::Parsed(record) => Ok(record),
    }
}

impl<T> FileLoad<T> {
    /// Whether this load holds a record.
    pub fn holds_record(&self) -> (holding: bool)
        ensures
            holding == loaded(*self) is Ok,
    {
        match self {
            FileLoad::Parsed(_) => true,
            _ => false,
        }
    }
}

/// Hands out the record of a load, and turns every other load into its failure.
pub fn load_record<T>(load: FileLoad<T>) -> (record: Result<T, FetchError>)
    ensures
        record == loaded(load),
{
    match load {
        FileLoad::Unreadable(failure) => Err(FetchError::Io(failure)),
        FileLoad::Malformed(message) => Err(FetchError::Parse(message)),
        FileLoad::Parsed(record) => Ok(record),
    }
}

/// What a profile says, as mathematics.
pub ghost struct Profile {
    pub login: Seq<char>,
    pub id: u64,
}

/// A profile of the remote service.
#[derive(Debug, Clone, PartialEq, Eq)]
pub struct GithubAuthor {
    pub login: String,
    pub id: u64,
}

impl View for GithubAuthor {
    type V = Profile;

    open spec fn view(&self) -> Profile {
        Profile { login: self.login@, id: self.id }
    }
}

/// The metadata block of an author.
#[derive(Debug, Clone, PartialEq, Eq)]
pub struct AuthorMeta {
    pub username: String,
    /// Absent in a record as parsed; set once, by the enrichment.
    pub github: Option<GithubAuthor>,
}

/// A contributor of content.
#[derive(Debug, Clone, PartialEq, Eq)]
pub struct Author {
    pub meta: AuthorMeta,
}

impl Author {
    /// This author is `before` with `profile` in place of whatever `github` held.
    pub open spec fn enriches(&self, before: Author, profile: Profile) -> bool {
        &&& self.meta.username == before.meta.username
        &&& self.meta.github matches Some(github)
        &&& github@ == profile
    }

    /// Sets the profile of this author.
    pub fn with_profile(self, github: GithubAuthor) -> (after: Author)
        ensures
            after.enriches(self, github@),
            after.meta.github == Some(github),
    {
        Author { meta: AuthorMeta { username: self.meta.username, github: Some(github) } }
    }
}

} // verus!
