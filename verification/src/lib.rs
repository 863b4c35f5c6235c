//! Query the metadata of a container-image registry: paged search with
//! bounded prefetching, repository details and tag listings.
//!
//! The crate decides, formats and keeps state; its caller performs the
//! network requests and the terminal I/O.

pub mod hubapi;
pub mod langext;
pub mod options;
pub mod pager;
pub mod search;
pub mod show;
pub mod tags;
pub mod text;
