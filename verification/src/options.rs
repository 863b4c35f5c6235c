//! The options of the command line, already parsed.

use vstd::prelude::*;

verus! {

/// The number of tags listed when no limit is given.
pub const DEFAULT_TAGS_LIMIT: usize = 30;

/// What the command line asked for.
#[derive(Debug)]
pub struct Options {
    /// Print the help message.
    pub help: bool,
    pub command: Option<Command>,
}

/// The three commands.
#[derive(Debug)]
pub enum Command {
    /// Search for repositories.
    Search(SearchOptions),
    /// Show repository details.
    Show(ShowOptions),
    /// Show repository tags.
    Tags(TagsOptions),
}

#[derive(Debug)]
pub struct SearchOptions {
    /// Limit the number of results.
    pub limit: Option<usize>,
    /// URL to send search requests to.
    pub search_url: Option<String>,
    /// The words searched for.
    pub terms: Vec<String>,
}

#[derive(Debug)]
pub struct ShowOptions {
    /// Only show the full description.
    pub only_description: bool,
    pub repositories: Vec<String>,
}

#[derive(Debug)]
pub struct TagsOptions {
    /// Limit the number of results.
    pub limit: usize,
    /// Filter by architecture.
    pub architecture: Option<String>,
    /// Filter by operating system.
    pub operating_system: Option<String>,
    /// Filter by operating system and architecture of this machine.
    pub current_machine: bool,
    pub repositories: Vec<String>,
}

impl Default for Options {
    /// No help, no command.
    fn default() -> (o: Options)
        ensures
            !o.help,
            o.command is None,
    {
        Options { help: false, command: None }
    }
}

impl Default for SearchOptions {
    /// No limit, the default URL, no terms.
    fn default() -> (o: SearchOptions)
        ensures
            o.limit is None,
            o.search_url is None,
            o.terms@.len() == 0,
    {
        SearchOptions { limit: None, search_url: None, terms: Vec::new() }
    }
}

impl Default for ShowOptions {
    /// Everything is shown, of no repository.
    fn default() -> (o: ShowOptions)
        ensures
            !o.only_description,
            o.repositories@.len() == 0,
    {
        ShowOptions { only_description: false, repositories: Vec::new() }
    }
}

impl Default for TagsOptions {
    /// Thirty results, no filter, no repository.
    fn default() -> (o: TagsOptions)
        ensures
            o.limit == DEFAULT_TAGS_LIMIT,
            o.architecture is None,
            o.operating_system is None,
            !o.current_machine,
            o.repositories@.len() == 0,
    {
        TagsOptions {
            limit: DEFAULT_TAGS_LIMIT,
            architecture: None,
            operating_system: None,
            current_machine: false,
            repositories: Vec::new(),
        }
    }
}

} // verus!
