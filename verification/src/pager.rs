//! The external pager (like "less") through which long output is shown:
//! which program to run, with which arguments and in which environment.

use crate::text::{pair_views, text_view, views};
use vstd::prelude::*;
use vstd::string::StringExecFns;

verus! {

/// The environment variable that names the pager and its arguments.
pub const PAGER_ENV: &'static str = "HDC_PAGER";

/// The environment variable in which the pager finds the version of this
/// program.
pub const VERSION_ENV: &'static str = "HDCQUERY_VERSION";

/// The environment variable in which the pager finds the name of the
/// repository that is shown, like `"library/rust"`.
pub const REPOSITORY_ENV: &'static str = "HDCQUERY_REPOSITORY";

/// The pager that is run where the environment names none.
pub open spec fn default_pager_text(windows: bool) -> Seq<char> {
    if windows {
        "more"@
    } else {
        "pager -F"@
    }
}

/// The pager that is run where the environment names none.
pub fn default_pager(windows: bool) -> (line: &'static str)
    ensures
        line@ == default_pager_text(windows),
{
    if windows {
        "more"
    } else {
        "pager -F"
    }
}

/// A program to run with its input piped in.
#[derive(Debug)]
pub struct PagerCommand {
    pub program: String,
    pub args: Vec<String>,
    /// The environment variables to set for it, with their values.
    pub envs: Vec<(String, String)>,
}

/// Why no pager can be run.
#[derive(Debug, Clone, Copy, PartialEq, Eq, Structural)]
pub enum PagerError {
    /// The pager's command line opens a quote and does not close it.
    MissingQuote,
}

/// The words of a command line as a shell reads them; `None` where a quote
/// is opened and not closed.
pub uninterp spec fn shell_words(line: Seq<char>) -> Option<Seq<Seq<char>>>;

#[verifier::external_type_specification]
#[verifier::external_body]
pub struct ExParseError(shell_words::ParseError);

/// `shell_words::split`: the words of `line` by the rules of a shell, or
/// its error for a quote that is not closed. The contract gives the words
/// the name `shell_words`.
#[verifier::external_body]
fn split(line: &str) -> (words: Result<Vec<String>, shell_words::ParseError>)
    ensures
        match words {
            Ok(list) => shell_words(line@) == Some(views(list@)),
            Err(_) => shell_words(line@) is None,
        },
{
    shell_words::split(line)
}

/// The environment of the pager: the version, and the repository where
/// one is shown.
pub open spec fn pager_envs(version: Seq<char>, repository: Option<Seq<char>>) -> Seq<
    (Seq<char>, Seq<char>),
> {
    match repository {
        Some(name) => seq![(VERSION_ENV@, version), (REPOSITORY_ENV@, name)],
        None => seq![(VERSION_ENV@, version)],
    }
}

/// Whether `command` runs the first of `words` with the others as its
/// arguments, in the environment for `version` and `repository`.
pub open spec fn runs(
    command: PagerCommand,
    words: Seq<Seq<char>>,
    version: Seq<char>,
    repository: Option<Seq<char>>,
) -> bool {
    &&& words.len() > 0
    &&& command.program@ == words[0]
    &&& views(command.args@) == words.skip(1)
    &&& pair_views(command.envs@) == pager_envs(version, repository)
}

/// The command that `words` spell: the first word is the program, the
/// others are its arguments. No words, no command.
pub fn command_from_words(words: Vec<String>, version: &str, repository: Option<&str>) -> (command:
    Option<PagerCommand>)
    ensures
        words@.len() == 0 ==> command is None,
        words@.len() > 0 ==> command is Some && runs(
            command->0,
            views(words@),
            version@,
            text_view(repository),
        ),
{
    let mut words = words;
    if words.len() == 0 {
        return None;
    }
    let ghost all = words@;
    let program = words.remove(0);
    let mut envs: Vec<(String, String)> = Vec::new();
    envs.push((String::from_str(VERSION_ENV), String::from_str(version)));
    match repository {
        Some(name) => {
            envs.push((String::from_str(REPOSITORY_ENV), String::from_str(name)));
        },
        None => {},
    }
    assert(views(words@) =~= views(all).skip(1));
    assert(pair_views(envs@) =~= pager_envs(version@, text_view(repository)));
    Some(PagerCommand { program, args: words, envs })
}

/// What `command` answers: no pager unless the output goes to a terminal;
/// else the pager that `pager_var` names, or the default one, if its command
/// line can be read and is not empty.
pub open spec fn is_pager(
    answer: Result<Option<PagerCommand>, PagerError>,
    is_terminal: bool,
    pager_var: Option<Seq<char>>,
    windows: bool,
    version: Seq<char>,
    repository: Option<Seq<char>>,
) -> bool {
    if !is_terminal {
        answer == Ok::<Option<PagerCommand>, PagerError>(None)
    } else {
        let line = match pager_var {
            Some(value) => value,
            None => default_pager_text(windows),
        };
        match shell_words(line) {
            None => answer == Err::<Option<PagerCommand>, PagerError>(PagerError::MissingQuote),
            Some(words) => if words.len() == 0 {
                answer == Ok::<Option<PagerCommand>, PagerError>(None)
            } else {
                answer matches Ok(Some(command)) && runs(command, words, version, repository)
            },
        }
    }
}

/// The pager to run, if any. `is_terminal` says whether the output goes to
/// a terminal, `pager_var` is the value of the variable `HDC_PAGER` where
/// it is set, `windows` tells which default applies, and `version` and
/// `repository` go into the pager's environment.
pub fn command(
    is_terminal: bool,
    pager_var: Option<&str>,
    windows: bool,
    version: &str,
    repository: Option<&str>,
) -> (answer: Result<Option<PagerCommand>, PagerError>)
    ensures
        is_pager(
            answer,
            is_terminal,
            text_view(pager_var),
            windows,
            version@,
            text_view(repository),
        ),
{
    if !is_terminal {
        return Ok(None);
    }
    let line = match pager_var {
        Some(value) => value,
        None => default_pager(windows),
    };
    match split(line) {
        Ok(words) => Ok(command_from_words(words, version, repository)),
        Err(_) => Err(PagerError::MissingQuote),
    }
}

} // verus!
