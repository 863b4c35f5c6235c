//! The records that the registry returns, as plain values.

use vstd::prelude::*;

verus! {

/// A moment in time: whole seconds since 1970-01-01 00:00:00 UTC, and the
/// nanoseconds that have passed since the last whole second.
#[derive(Debug, Clone, Copy, PartialEq, Eq, Structural)]
pub struct Timestamp {
    pub secs: i64,
    pub nanos: u32,
}

/// One search hit.
#[derive(Debug)]
pub struct Summary {
    pub name: String,
    /// The identifier under which the repository is looked up.
    pub slug: String,
    pub updated_at: Timestamp,
    pub pull_count: Option<String>,
    pub star_count: Option<usize>,
    pub short_description: Option<String>,
}

/// The details of one repository.
#[derive(Debug)]
pub struct Repository {
    pub namespace: Option<String>,
    pub name: Option<String>,
    pub description: Option<String>,
    pub star_count: Option<usize>,
    pub pull_count: Option<usize>,
    pub full_description: Option<String>,
    pub is_automated: Option<bool>,
    pub last_updated: Option<Timestamp>,
}

/// One tag of a repository, with the images published under it.
#[derive(Debug)]
pub struct Tag {
    pub name: String,
    pub images: Vec<Image>,
    pub last_updated: Option<Timestamp>,
}

/// One image of a tag.
#[derive(Debug)]
pub struct Image {
    pub architecture: String,
    pub os: String,
    pub size: u64,
    pub digest: Option<String>,
}

} // verus!
