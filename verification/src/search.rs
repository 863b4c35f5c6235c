//! The search command: paged retrieval with bounded prefetching, and the
//! table in which the hits are shown.

pub mod channel;
pub mod consumer;
pub mod engine;
pub mod fetcher;
pub mod producer;
pub mod table;

use crate::hubapi::Summary;
use crate::text::{first_line_of, head_line, text_view, views};
use vstd::prelude::*;
use vstd::string::StringExecFns;

verus! {

/// Where search requests go unless the command line names another place.
pub const DEFAULT_SEARCH_URL: &'static str = "https://hub.docker.com/api/content/v1/products/search";

/// How many fetched pages may wait to be shown.
pub const PAGES_QUEUE_SIZE: usize = 2;

/// What is appended to a description of which only the first wrapped line
/// is shown.
pub const ELLIPSIS: &'static str = " …";

/// One page of search results as the registry returns it.
#[derive(Debug)]
pub struct SearchResult {
    /// The number of hits over all pages.
    pub count: usize,
    /// The hits of this page; none, or an empty list, after the last page.
    pub summaries: Option<Vec<Summary>>,
}

/// The lines into which word wrapping breaks `text` at `width` columns.
pub uninterp spec fn wrapped(text: Seq<char>, width: usize) -> Seq<Seq<char>>;

/// `textwrap::wrap`: breaks `text` into lines of at most `width` columns
/// where it can. The contract gives the lines the name `wrapped` and says
/// nothing else of them.
#[verifier::external_body]
fn wrap(text: &str, width: usize) -> (lines: Vec<String>)
    ensures
        views(lines@) == wrapped(text@, width),
{
    let mut lines: Vec<String> = Vec::new();
    for line in textwrap::wrap(text, width) {
        lines.push(line.into_owned());
    }
    lines
}

/// What is shown of a wrapped text: its first line, followed by the
/// ellipsis when there are more lines; nothing when there is no line.
pub open spec fn clip_text(lines: Seq<Seq<char>>) -> Seq<char> {
    if lines.len() == 0 {
        Seq::empty()
    } else if lines.len() == 1 {
        lines[0]
    } else {
        lines[0] + ELLIPSIS@
    }
}

/// The columns left for the text of a cell: two less than the cell's
/// width, for the ellipsis; none when the cell is narrower than that.
pub open spec fn inner_width(width: usize) -> usize {
    if width >= 2 {
        (width - 2) as usize
    } else {
        0
    }
}

/// What `first_line` returns: nothing for an absent value; else the first
/// line of the value, wrapped and clipped when a width is given.
pub open spec fn first_line_text(value: Option<Seq<char>>, width: Option<usize>) -> Seq<char> {
    match value {
        None => Seq::empty(),
        Some(text) => match width {
            None => head_line(text),
            Some(w) => clip_text(wrapped(head_line(text), inner_width(w))),
        },
    }
}

/// Keeps the first of the wrapped `lines` and marks with the ellipsis that
/// more lines followed.
pub fn clip_wrapped(lines: Vec<String>) -> (text: String)
    ensures
        text@ == clip_text(views(lines@)),
{
    let mut lines = lines;
    let count: usize = lines.len();
    if count == 0 {
        return String::new();
    }
    lines.truncate(1);
    let first = lines.pop();
    match first {
        Some(line) => {
            if count > 1 {
                line.concat(ELLIPSIS)
            } else {
                line
            }
        },
        None => String::new(),
    }
}

/// Extracts the first line of `value`, or nothing when there is no value.
/// With a `width`, the line is wrapped to two columns less; when that takes
/// more than one line, the first of them is kept and the ellipsis appended.
pub fn first_line(value: Option<&str>, width: Option<usize>) -> (line: String)
    ensures
        line@ == first_line_text(text_view(value), width),
{
    match value {
        None => String::new(),
        Some(text) => {
            let head = first_line_of(text);
            match width {
                None => head,
                Some(w) => {
                    let inner: usize = if w >= 2 {
                        w - 2
                    } else {
                        0
                    };
                    clip_wrapped(wrap(head.as_str(), inner))
                },
            }
        },
    }
}

/// In a cell of a given width, the ellipsis is appended exactly when
/// wrapping the first line took more than one line. What stands before the
/// ellipsis, or alone, is the first wrapped line as the wrapping made it:
/// nothing is added to it and nothing cut from it.
pub proof fn ellipsis_marks_more_lines(text: Seq<char>, width: usize)
    ensures
        ({
            let lines = wrapped(head_line(text), inner_width(width));
            let shown = first_line_text(Some(text), Some(width));
            &&& lines.len() == 0 ==> shown == Seq::<char>::empty()
            &&& lines.len() == 1 ==> shown == lines[0]
            &&& lines.len() > 1 ==> shown == lines[0] + ELLIPSIS@
            &&& lines.len() > 0 ==> shown.len() == lines[0].len() + if lines.len() > 1 {
                ELLIPSIS@.len()
            } else {
                0
            }
        }),
{
}

/// Where the wrapping keeps its first line within the columns it was
/// given, what is shown, less the ellipsis, is never longer than the width
/// of the cell less two.
pub proof fn wrapped_line_fits_the_cell(text: Seq<char>, width: usize)
    requires
        width >= 2,
        wrapped(head_line(text), inner_width(width)).len() > 0 ==> wrapped(
            head_line(text),
            inner_width(width),
        )[0].len() <= width - 2,
    ensures
        first_line_text(Some(text), Some(width)).len() - if wrapped(
            head_line(text),
            inner_width(width),
        ).len() > 1 {
            ELLIPSIS@.len()
        } else {
            0
        } <= width - 2,
{
}

} // verus!
