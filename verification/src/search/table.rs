//! The table of search hits: its columns, its header and its rows.

use crate::hubapi::Summary;
use crate::langext::{is_distance, DurationExt};
use crate::search::{first_line, first_line_text};
use crate::text::{
    as_text, clipped, decimal_text, left_aligned, push_decimal, push_left_cell, push_number_cell,
    push_right_cell, right_aligned, string_view,
};
use vstd::prelude::*;
use vstd::string::StringExecFns;

verus! {

/// The width of the column that numbers the hits.
pub const INDEX_WIDTH: usize = 4;

/// The width of the column that names the image.
pub const SLUG_WIDTH: usize = 30;

/// The width of the column that says when the image was last updated.
pub const UPDATED_WIDTH: usize = 17;

/// The width of the column that counts the pulls.
pub const PULLS_WIDTH: usize = 6;

/// The width of the column that counts the stars.
pub const STARS_WIDTH: usize = 6;

/// The columns that every row spends outside the description: the five
/// other cells and the blanks that part the cells.
pub const FIXED_WIDTH: usize = 68;

/// The terminal that is assumed when none can be detected.
pub const DEFAULT_TERMINAL: (u16, u16) = (80, 25);

/// The rows of the terminal that a page leaves free, for the header and
/// the prompt.
pub const RESERVED_ROWS: usize = 2;

/// What the size of the terminal decides.
#[derive(Debug, Clone, Copy, PartialEq, Eq, Structural)]
pub struct Layout {
    /// The width of the description column.
    pub description_width: usize,
    /// The number of hits asked for with each page.
    pub page_size: usize,
}

/// The layout for a terminal of `size` columns and rows, or for the default
/// terminal. The description gets the columns that the other cells leave;
/// a page holds two hits less than the terminal has rows, and at least one.
pub open spec fn layout_of(size: Option<(u16, u16)>) -> Layout {
    let (width, height) = match size {
        Some(detected) => detected,
        None => DEFAULT_TERMINAL,
    };
    Layout {
        description_width: if width >= FIXED_WIDTH {
            (width - FIXED_WIDTH) as usize
        } else {
            0
        },
        page_size: if height > RESERVED_ROWS {
            (height - RESERVED_ROWS) as usize
        } else {
            1
        },
    }
}

impl Layout {
    /// The layout for a terminal of the detected `size`, or for the default
    /// terminal of 80 columns and 25 rows when none was detected.
    pub fn new(size: Option<(u16, u16)>) -> (layout: Layout)
        ensures
            layout == layout_of(size),
    {
        let (width, height) = match size {
            Some(detected) => detected,
            None => DEFAULT_TERMINAL,
        };
        let width: usize = width as usize;
        let height: usize = height as usize;
        Layout {
            description_width: if width >= FIXED_WIDTH {
                width - FIXED_WIDTH
            } else {
                0
            },
            page_size: if height > RESERVED_ROWS {
                height - RESERVED_ROWS
            } else {
                1
            },
        }
    }
}

/// One row of the table: six cells parted by single blanks. The first and
/// the last cell come ready-made; the others are cut and filled to their
/// column, the image and the description to the left, the rest to the right.
pub open spec fn row_text(
    index: Seq<char>,
    slug: Seq<char>,
    description: Seq<char>,
    updated: Seq<char>,
    pulls: Seq<char>,
    stars: Seq<char>,
    description_width: usize,
) -> Seq<char> {
    index + seq![' '] + left_aligned(clipped(slug, SLUG_WIDTH as nat), SLUG_WIDTH as nat)
        + seq![' '] + left_aligned(
        clipped(description, description_width as nat),
        description_width as nat,
    ) + seq![' '] + right_aligned(clipped(updated, UPDATED_WIDTH as nat), UPDATED_WIDTH as nat)
        + seq![' '] + right_aligned(clipped(pulls, PULLS_WIDTH as nat), PULLS_WIDTH as nat)
        + seq![' '] + stars
}

/// The header of the table.
pub open spec fn header_text(description_width: usize) -> Seq<char> {
    row_text(
        left_aligned(clipped(""@, INDEX_WIDTH as nat), INDEX_WIDTH as nat),
        "IMAGE"@,
        "DESCRIPTION"@,
        "LAST UPDATE"@,
        "PULLS"@,
        right_aligned(clipped("STARS"@, STARS_WIDTH as nat), STARS_WIDTH as nat),
        description_width,
    )
}

/// The stars of a hit; none when the registry reports no number.
pub open spec fn stars_of(summary: Summary) -> nat {
    match summary.star_count {
        Some(stars) => stars as nat,
        None => 0,
    }
}

/// The row of the hit `summary` that is shown under the number `index`,
/// with `updated` saying when it was last updated.
pub open spec fn summary_text(
    index: nat,
    summary: Summary,
    updated: Seq<char>,
    description_width: usize,
) -> Seq<char> {
    row_text(
        right_aligned(decimal_text(index), INDEX_WIDTH as nat),
        summary.slug@,
        first_line_text(string_view(summary.short_description), Some(description_width)),
        updated,
        first_line_text(string_view(summary.pull_count), None),
        right_aligned(decimal_text(stars_of(summary)), STARS_WIDTH as nat),
        description_width,
    )
}

/// A cell that is cut and filled to its column is as wide as the column,
/// whatever stands in it.
pub proof fn cell_fills_its_column(text: Seq<char>, width: nat)
    ensures
        left_aligned(clipped(text, width), width).len() == width,
        right_aligned(clipped(text, width), width).len() == width,
{
}

/// A number of at most `digits` digits, for up to six digits, fills the
/// column of that width and no more.
proof fn number_fills_its_column(n: nat, digits: nat)
    requires
        digits == 4 && n < 10000 || digits == 6 && n < 1000000,
    ensures
        right_aligned(decimal_text(n), digits).len() == digits,
{
    reveal_with_fuel(decimal_text, 7);
}

/// On a terminal that is wide enough for the table, the header is as wide
/// as the terminal.
pub proof fn header_fills_the_terminal(size: (u16, u16))
    requires
        size.0 >= FIXED_WIDTH,
    ensures
        header_text(layout_of(Some(size)).description_width).len() == size.0,
{
    let width = layout_of(Some(size)).description_width;
    cell_fills_its_column(""@, INDEX_WIDTH as nat);
    cell_fills_its_column("IMAGE"@, SLUG_WIDTH as nat);
    cell_fills_its_column("DESCRIPTION"@, width as nat);
    cell_fills_its_column("LAST UPDATE"@, UPDATED_WIDTH as nat);
    cell_fills_its_column("PULLS"@, PULLS_WIDTH as nat);
    cell_fills_its_column("STARS"@, STARS_WIDTH as nat);
}

/// On a terminal that is wide enough for the table, the row of a hit is as
/// wide as the terminal, as long as its number has no more than four digits
/// and its stars have no more than six: numbers are never cut.
pub proof fn row_fills_the_terminal(
    index: nat,
    summary: Summary,
    updated: Seq<char>,
    size: (u16, u16),
)
    requires
        size.0 >= FIXED_WIDTH,
        index < 10000,
        stars_of(summary) < 1000000,
    ensures
        summary_text(index, summary, updated, layout_of(Some(size)).description_width).len()
            == size.0,
{
    let width = layout_of(Some(size)).description_width;
    number_fills_its_column(index, INDEX_WIDTH as nat);
    number_fills_its_column(stars_of(summary), STARS_WIDTH as nat);
    cell_fills_its_column(summary.slug@, SLUG_WIDTH as nat);
    cell_fills_its_column(
        first_line_text(string_view(summary.short_description), Some(width)),
        width as nat,
    );
    cell_fills_its_column(updated, UPDATED_WIDTH as nat);
    cell_fills_its_column(
        first_line_text(string_view(summary.pull_count), None),
        PULLS_WIDTH as nat,
    );
}

/// Appends the four middle cells of a row, each after a blank.
fn push_middle_cells(
    out: &mut String,
    slug: &str,
    description: &str,
    updated: &str,
    pulls: &str,
    description_width: usize,
)
    ensures
        final(out)@ == old(out)@ + seq![' '] + left_aligned(
            clipped(slug@, SLUG_WIDTH as nat),
            SLUG_WIDTH as nat,
        ) + seq![' '] + left_aligned(
            clipped(description@, description_width as nat),
            description_width as nat,
        ) + seq![' '] + right_aligned(
            clipped(updated@, UPDATED_WIDTH as nat),
            UPDATED_WIDTH as nat,
        ) + seq![' '] + right_aligned(clipped(pulls@, PULLS_WIDTH as nat), PULLS_WIDTH as nat)
            + seq![' '],
{
    out.push(' ');
    push_left_cell(out, slug, SLUG_WIDTH);
    out.push(' ');
    push_left_cell(out, description, description_width);
    out.push(' ');
    push_right_cell(out, updated, UPDATED_WIDTH);
    out.push(' ');
    push_right_cell(out, pulls, PULLS_WIDTH);
    out.push(' ');
}

/// The header of the table, for a description column of the given width.
pub fn header_row(description_width: usize) -> (row: String)
    ensures
        row@ == header_text(description_width),
{
    let mut row = String::new();
    push_left_cell(&mut row, "", INDEX_WIDTH);
    push_middle_cells(&mut row, "IMAGE", "DESCRIPTION", "LAST UPDATE", "PULLS", description_width);
    push_right_cell(&mut row, "STARS", STARS_WIDTH);
    assert(row@ =~= header_text(description_width));
    row
}

/// The row of the hit `summary` under the number `index`. `updated` is the
/// text for the moment of its last update.
pub fn summary_row(index: usize, summary: &Summary, updated: &str, description_width: usize) -> (row:
    String)
    ensures
        row@ == summary_text(index as nat, *summary, updated@, description_width),
{
    let description = first_line(as_text(&summary.short_description), Some(description_width));
    let pulls = first_line(as_text(&summary.pull_count), None);
    let stars: usize = match summary.star_count {
        Some(stars) => stars,
        None => 0,
    };
    let mut row = String::new();
    push_number_cell(&mut row, index as u64, INDEX_WIDTH);
    push_middle_cells(
        &mut row,
        summary.slug.as_str(),
        description.as_str(),
        updated,
        pulls.as_str(),
        description_width,
    );
    push_number_cell(&mut row, stars as u64, STARS_WIDTH);
    assert(row@ =~= summary_text(index as nat, *summary, updated@, description_width));
    row
}

/// Whether `text` is a row of the hit `summary` under the number `index`
/// as it may be shown at some time: the row with some distance to the
/// moment of the last update.
pub open spec fn is_row(text: Seq<char>, index: nat, summary: Summary, description_width: usize) -> bool {
    exists|updated: Seq<char>|
        #[trigger] is_distance(updated, summary.updated_at) && text == summary_text(
            index,
            summary,
            updated,
            description_width,
        )
}

/// The row of the hit `summary` under the number `index`, as it is shown
/// now: the clock is read for the distance to the last update.
pub fn render_row(index: usize, summary: &Summary, description_width: usize) -> (row: String)
    ensures
        is_row(row@, index as nat, *summary, description_width),
{
    let updated = summary.updated_at.to_human();
    let row = summary_row(index, summary, updated.as_str(), description_width);
    assert(is_distance(updated@, summary.updated_at));
    row
}

/// The rows of the hits `found[from..]`, numbered from `from + 1`.
pub fn render_rows(found: &Vec<Summary>, from: usize, description_width: usize) -> (rows: Vec<
    String,
>)
    ensures
        rows.len() == if from <= found.len() {
            found.len() - from
        } else {
            0
        },
        forall|i: int|
            0 <= i < rows.len() ==> is_row(
                (#[trigger] rows[i])@,
                (from + i + 1) as nat,
                found[from + i],
                description_width,
            ),
{
    let mut rows: Vec<String> = Vec::new();
    if from >= found.len() {
        return rows;
    }
    let mut at: usize = from;
    while at < found.len()
        invariant
            from <= at <= found.len(),
            rows.len() == at - from,
            forall|i: int|
                0 <= i < rows.len() ==> is_row(
                    (#[trigger] rows[i])@,
                    (from + i + 1) as nat,
                    found[from + i],
                    description_width,
                ),
        decreases found.len() - at,
    {
        let row = render_row(at + 1, &found[at], description_width);
        rows.push(row);
        at += 1;
    }
    rows
}

/// The prompt that follows a page, with the number of hits over all pages.
pub open spec fn prompt_text(total: nat) -> Seq<char> {
    "[Found "@ + decimal_text(total)
        + " results] <ENTER>: more results | Number and <ENTER>: image details > "@
}

/// The prompt that follows a page of a search with `total` hits.
pub fn prompt(total: usize) -> (text: String)
    ensures
        text@ == prompt_text(total as nat),
{
    let mut text = String::from_str("[Found ");
    push_decimal(&mut text, total as u64);
    text.append(" results] <ENTER>: more results | Number and <ENTER>: image details > ");
    assert(text@ =~= prompt_text(total as nat));
    text
}

/// What is said of a number that no hit has.
pub const NOT_FOUND: &'static str = "Image not found";

} // verus!
