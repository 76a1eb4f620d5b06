//! Content inventory for a static site: what a scan of the content
//! directories saw is turned into posts, authors and assets, all or nothing.

pub mod error;
pub mod entry;
pub mod records;
pub mod builder;
pub mod json;
pub mod gather;
pub mod profile;
pub mod inventory;

pub use crate::builder::{Asset, CopyFile};
pub use crate::entry::Entry;
pub use crate::error::{FetchError, ProfileField};
pub use crate::inventory::{fetch_assets, fetch_authors, fetch_posts};
pub use crate::profile::{ProfileRequest, ProfileResponse};
pub use crate::records::{Author, AuthorMeta, FileLoad, GithubAuthor};
