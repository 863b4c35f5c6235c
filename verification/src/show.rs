//! The details of a repository: where they are asked for and how they are
//! written out.

use crate::hubapi::{Repository, Timestamp};
use crate::langext::{format_moment, is_distance, moment_text, DurationExt, DATE_TIME_PATTERN};
use crate::text::{as_text, contains_char, decimal, decimal_text, string_view, text_view};
use vstd::prelude::*;
use vstd::string::StringExecFns;

verus! {

/// Where the details of repositories are asked for.
pub const REPOSITORY_URL: &'static str = "https://hub.docker.com/v2/repositories/";

/// The namespace of the repositories that are named without one.
pub const LIBRARY: &'static str = "library/";

/// What is said when no repository is named.
pub const NO_REPOSITORIES: &'static str = "No repositories";

/// The path of the repository `slug` at the registry: a slug without a
/// slash names a repository of the library.
pub open spec fn repository_path(slug: Seq<char>) -> Seq<char> {
    if slug.contains('/') {
        slug
    } else {
        LIBRARY@ + slug
    }
}

/// The address at which the details of the repository `slug` are found.
pub open spec fn repository_url_text(slug: Seq<char>) -> Seq<char> {
    REPOSITORY_URL@ + repository_path(slug) + seq!['/']
}

/// The address at which the details of the repository `slug` are found.
pub fn repository_url(slug: &str) -> (url: String)
    ensures
        url@ == repository_url_text(slug@),
{
    let mut url = String::from_str(REPOSITORY_URL);
    if !contains_char(slug, '/') {
        url.append(LIBRARY);
    }
    url.append(slug);
    url.push('/');
    assert(url@ =~= repository_url_text(slug@));
    url
}

/// The slug of a repository whose namespace and name are known.
pub open spec fn slug_text(repository: Repository) -> Option<Seq<char>> {
    match (repository.namespace, repository.name) {
        (Some(namespace), Some(name)) => Some(namespace@ + seq!['/'] + name@),
        _ => None,
    }
}

/// The slug of `repository`: its namespace and its name with a slash
/// between them, where both are known.
pub fn repository_slug(repository: &Repository) -> (slug: Option<String>)
    ensures
        string_view(slug) == slug_text(*repository),
{
    match &repository.namespace {
        Some(namespace) => match &repository.name {
            Some(name) => {
                let mut slug = namespace.clone();
                slug.push('/');
                slug.append(name.as_str());
                assert(slug@ =~= namespace@ + seq!['/'] + name@);
                Some(slug)
            },
            None => None,
        },
        None => None,
    }
}

/// One line of the details: a label and a value.
pub open spec fn field_text(label: Seq<char>, value: Seq<char>) -> Seq<char> {
    label + ": "@ + value + seq!['\n']
}

/// The line for a value that may be absent: nothing where it is.
pub open spec fn optional_field(label: Seq<char>, value: Option<Seq<char>>) -> Seq<char> {
    match value {
        Some(text) => field_text(label, text),
        None => Seq::empty(),
    }
}

/// The decimal notation of a number that may be absent.
pub open spec fn count_text(count: Option<usize>) -> Option<Seq<char>> {
    match count {
        Some(n) => Some(decimal_text(n as nat)),
        None => None,
    }
}

/// "yes" or "no", for a flag that may be absent.
pub open spec fn flag_text(flag: Option<bool>) -> Option<Seq<char>> {
    match flag {
        Some(set) => Some(
            if set {
                "yes"@
            } else {
                "no"@
            },
        ),
        None => None,
    }
}

/// The moment of the last update, written out, with the distance to it in
/// brackets.
pub open spec fn updated_text(written: Seq<char>, distance: Seq<char>) -> Seq<char> {
    written + " ("@ + distance + ")"@
}

/// The full description, set off by rules.
pub open spec fn description_block(description: Option<Seq<char>>) -> Seq<char> {
    match description {
        Some(text) => "\n----\n\n"@ + text + "\n\n----\n"@,
        None => Seq::empty(),
    }
}

/// The details of `repository` as they are written out, with `updated`
/// saying when it was last updated: a line for each value that is known,
/// then the full description.
pub open spec fn details_text(repository: Repository, updated: Option<Seq<char>>) -> Seq<char> {
    optional_field("Namespace"@, string_view(repository.namespace)) + optional_field(
        "Name"@,
        string_view(repository.name),
    ) + optional_field("Description"@, string_view(repository.description)) + optional_field(
        "Starts"@,
        count_text(repository.star_count),
    ) + optional_field("Pulls"@, count_text(repository.pull_count)) + optional_field(
        "Automated"@,
        flag_text(repository.is_automated),
    ) + optional_field("Last updated"@, updated) + description_block(
        string_view(repository.full_description),
    )
}

/// Appends the line for `value` under `label`, if there is a value.
fn push_field(out: &mut String, label: &str, value: Option<&str>)
    ensures
        final(out)@ == old(out)@ + optional_field(label@, text_view(value)),
{
    match value {
        Some(text) => {
            out.append(label);
            out.append(": ");
            out.append(text);
            out.push('\n');
            assert(final(out)@ =~= old(out)@ + field_text(label@, text@));
        },
        None => {
            assert(final(out)@ =~= old(out)@ + Seq::<char>::empty());
        },
    }
}

/// The decimal notation of a number that may be absent.
fn count(value: Option<usize>) -> (text: Option<String>)
    ensures
        string_view(text) == count_text(value),
{
    match value {
        Some(n) => Some(decimal(n as u64)),
        None => None,
    }
}

/// Writes out the details of `repository`. `updated` says when it was last
/// updated, where that is known.
pub fn details(repository: &Repository, updated: Option<&str>) -> (text: String)
    ensures
        text@ == details_text(*repository, text_view(updated)),
{
    let stars = count(repository.star_count);
    let pulls = count(repository.pull_count);
    let automated: Option<&str> = match repository.is_automated {
        Some(set) => Some(
            if set {
                "yes"
            } else {
                "no"
            },
        ),
        None => None,
    };
    let mut text = String::new();
    push_field(&mut text, "Namespace", as_text(&repository.namespace));
    push_field(&mut text, "Name", as_text(&repository.name));
    push_field(&mut text, "Description", as_text(&repository.description));
    push_field(&mut text, "Starts", as_text(&stars));
    push_field(&mut text, "Pulls", as_text(&pulls));
    push_field(&mut text, "Automated", automated);
    push_field(&mut text, "Last updated", updated);
    let ghost lines = text@;
    match &repository.full_description {
        Some(description) => {
            text.append("\n----\n\n");
            text.append(description.as_str());
            text.append("\n\n----\n");
            assert(text@ =~= lines + description_block(Some(description@)));
        },
        None => {
            assert(text@ =~= lines + description_block(None));
        },
    }
    assert(text@ =~= details_text(*repository, text_view(updated)));
    text
}

/// Whether `text` may say at some time when `moment` was: the moment
/// written out, with some distance to it in brackets.
pub open spec fn is_updated_text(text: Seq<char>, moment: Timestamp) -> bool {
    match moment_text(moment.secs, moment.nanos, DATE_TIME_PATTERN@) {
        Some(written) => exists|distance: Seq<char>|
            #[trigger] is_distance(distance, moment) && text == updated_text(written, distance),
        None => false,
    }
}

/// Says when `moment` was: the moment written out, and in brackets the
/// distance to it as the clock gives it now. A moment outside the calendar
/// has no such text.
pub fn updated(moment: &Timestamp) -> (text: Option<String>)
    ensures
        match text {
            Some(line) => is_updated_text(line@, *moment),
            None => moment_text(moment.secs, moment.nanos, DATE_TIME_PATTERN@) is None,
        },
{
    match format_moment(moment.secs, moment.nanos, DATE_TIME_PATTERN) {
        Some(written) => {
            let distance = moment.to_human();
            let mut line = written.clone();
            line.append(" (");
            line.append(distance.as_str());
            line.append(")");
            assert(line@ =~= updated_text(written@, distance@));
            assert(is_distance(distance@, *moment));
            Some(line)
        },
        None => None,
    }
}

/// Whether `text` may be the details of `repository` as they are written
/// out at some time.
pub open spec fn is_details(text: Seq<char>, repository: Repository) -> bool {
    match repository.last_updated {
        Some(moment) => match moment_text(moment.secs, moment.nanos, DATE_TIME_PATTERN@) {
            Some(_) => exists|line: Seq<char>|
                #[trigger] is_updated_text(line, moment) && text == details_text(
                    repository,
                    Some(line),
                ),
            None => text == details_text(repository, None),
        },
        None => text == details_text(repository, None),
    }
}

/// Writes out the details of `repository` as they are shown now: the clock
/// is read for the distance to the last update.
pub fn show_repository(repository: &Repository) -> (text: String)
    ensures
        is_details(text@, *repository),
{
    let line: Option<String> = match &repository.last_updated {
        Some(moment) => updated(moment),
        None => None,
    };
    let text = details(repository, as_text(&line));
    proof {
        match line {
            Some(written) => {
                assert(is_updated_text(written@, repository.last_updated->0));
            },
            None => {},
        }
    }
    text
}

/// What is written for a repository, and where.
#[derive(Debug)]
pub enum Output {
    /// Nothing is written.
    Nothing,
    /// This text goes to the standard output as it is.
    Plain(String),
    /// This text goes through the pager, where there is one.
    Paged(String),
}

/// Whether `output` may be written for `repository` at some time: with
/// `only_description` the full description on a line of its own, or nothing
/// where the repository has none; else the details, through the pager.
pub open spec fn is_output(output: Output, repository: Repository, only_description: bool) -> bool {
    if only_description {
        match repository.full_description {
            Some(description) => output matches Output::Plain(text) && text@ == description@
                + seq!['\n'],
            None => output matches Output::Nothing,
        }
    } else {
        output matches Output::Paged(text) && is_details(text@, repository)
    }
}

/// What is written for `repository`: its full description only, or all
/// its details.
pub fn output(repository: &Repository, only_description: bool) -> (output: Output)
    ensures
        is_output(output, *repository, only_description),
{
    if only_description {
        match &repository.full_description {
            Some(description) => {
                let mut text = description.clone();
                text.push('\n');
                assert(text@ =~= description@ + seq!['\n']);
                Output::Plain(text)
            },
            None => Output::Nothing,
        }
    } else {
        Output::Paged(show_repository(repository))
    }
}

} // verus!
