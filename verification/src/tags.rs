//! The tags of repositories: where they are asked for, which images of
//! them are listed, and how.

use crate::hubapi::{Image, Tag};
use crate::langext::{is_distance, DurationExt};
use crate::options::TagsOptions;
use crate::show::{repository_path, LIBRARY, REPOSITORY_URL};
use crate::text::{
    clipped, contains_char, decimal_text, left_aligned, push_decimal, push_left_cell,
    push_left_padded, same, string_view,
};
use vstd::prelude::*;
use vstd::string::StringExecFns;

verus! {

/// The largest number of tags asked for with one page.
pub const MAX_PAGE_SIZE: usize = 50;

/// The widths of the columns for size, operating system, architecture and
/// the moment of the last push; the name comes last and has no width.
pub const SIZE_WIDTH: usize = 10;

pub const OS_WIDTH: usize = 8;

pub const ARCH_WIDTH: usize = 6;

pub const PUSHED_WIDTH: usize = 15;

/// One page of tags as the registry returns it.
#[derive(Debug)]
pub struct Response {
    /// The number of tags over all pages.
    pub count: usize,
    pub results: Vec<Tag>,
}

/// The registry's name for the operating system that the compiler calls
/// `target_os`, where it has one.
pub open spec fn machine_os_text(target_os: Seq<char>) -> Option<Seq<char>> {
    if target_os == "linux"@ {
        Some("linux"@)
    } else if target_os == "windows"@ {
        Some("windows"@)
    } else {
        None
    }
}

/// The registry's name for the architecture that the compiler calls
/// `target_arch`, where it has one.
pub open spec fn machine_arch_text(target_arch: Seq<char>) -> Option<Seq<char>> {
    if target_arch == "x86_64"@ {
        Some("amd64"@)
    } else if target_arch == "x86"@ {
        Some("386"@)
    } else if target_arch == "arm"@ {
        Some("arm"@)
    } else if target_arch == "aarch64"@ {
        Some("arm64"@)
    } else {
        None
    }
}

/// The registry's name for the operating system `target_os`.
pub fn machine_os(target_os: &str) -> (name: Option<String>)
    ensures
        string_view(name) == machine_os_text(target_os@),
{
    if same(target_os, "linux") {
        Some(String::from_str("linux"))
    } else if same(target_os, "windows") {
        Some(String::from_str("windows"))
    } else {
        None
    }
}

/// The registry's name for the architecture `target_arch`.
pub fn machine_arch(target_arch: &str) -> (name: Option<String>)
    ensures
        string_view(name) == machine_arch_text(target_arch@),
{
    if same(target_arch, "x86_64") {
        Some(String::from_str("amd64"))
    } else if same(target_arch, "x86") {
        Some(String::from_str("386"))
    } else if same(target_arch, "arm") {
        Some(String::from_str("arm"))
    } else if same(target_arch, "aarch64") {
        Some(String::from_str("arm64"))
    } else {
        None
    }
}

/// Which images are listed: those of the operating system and of the
/// architecture that are named, any where none is named.
pub struct FilterView {
    pub os: Option<Seq<char>>,
    pub arch: Option<Seq<char>>,
}

impl FilterView {
    /// Whether `image` is listed.
    pub open spec fn passes(self, image: Image) -> bool {
        &&& self.os matches Some(os) ==> os == image.os@
        &&& self.arch matches Some(arch) ==> arch == image.architecture@
    }
}

/// The filter that the options ask for: the names of this machine where
/// they ask for the current machine, else the names they give.
pub open spec fn filter_of(options: TagsOptions, target_os: Seq<char>, target_arch: Seq<char>) -> FilterView {
    if options.current_machine {
        FilterView { os: machine_os_text(target_os), arch: machine_arch_text(target_arch) }
    } else {
        FilterView {
            os: string_view(options.operating_system),
            arch: string_view(options.architecture),
        }
    }
}

/// The smaller of the limit and the largest page.
pub open spec fn page_size_of(limit: nat) -> nat {
    if limit < MAX_PAGE_SIZE {
        limit
    } else {
        MAX_PAGE_SIZE as nat
    }
}

/// The address of the page `page` of the tags of `repository`, for a
/// listing of at most `limit` images.
pub open spec fn tags_url_text(repository: Seq<char>, page: nat, limit: nat) -> Seq<char> {
    REPOSITORY_URL@ + repository_path(repository) + "/tags/?page="@ + decimal_text(page)
        + "&page_size="@ + decimal_text(page_size_of(limit))
}

/// The address of the page `page` of the tags of `repository`.
pub fn tags_url(repository: &str, page: usize, limit: usize) -> (url: String)
    ensures
        url@ == tags_url_text(repository@, page as nat, limit as nat),
{
    let size: usize = if limit < MAX_PAGE_SIZE {
        limit
    } else {
        MAX_PAGE_SIZE
    };
    let mut url = String::from_str(REPOSITORY_URL);
    if !contains_char(repository, '/') {
        url.append(LIBRARY);
    }
    url.append(repository);
    url.append("/tags/?page=");
    push_decimal(&mut url, page as u64);
    url.append("&page_size=");
    push_decimal(&mut url, size as u64);
    assert(url@ =~= tags_url_text(repository@, page as nat, limit as nat));
    url
}

/// The line that says how many tags `repository` has.
pub open spec fn count_line_text(count: nat, repository: Seq<char>) -> Seq<char> {
    "- "@ + decimal_text(count) + " results for "@ + repository
}

/// The line that says how many tags `repository` has.
pub fn count_line(count: usize, repository: &str) -> (line: String)
    ensures
        line@ == count_line_text(count as nat, repository@),
{
    let mut line = String::from_str("- ");
    push_decimal(&mut line, count as u64);
    line.append(" results for ");
    line.append(repository);
    assert(line@ =~= count_line_text(count as nat, repository@));
    line
}

/// One row of the listing: five cells parted by single blanks. Size and
/// moment are filled to their columns, operating system and architecture
/// are cut and filled, the name stands as it is.
pub open spec fn row_text(
    size: Seq<char>,
    os: Seq<char>,
    arch: Seq<char>,
    pushed: Seq<char>,
    name: Seq<char>,
) -> Seq<char> {
    left_aligned(size, SIZE_WIDTH as nat) + seq![' '] + left_aligned(
        clipped(os, OS_WIDTH as nat),
        OS_WIDTH as nat,
    ) + seq![' '] + left_aligned(clipped(arch, ARCH_WIDTH as nat), ARCH_WIDTH as nat) + seq![' ']
        + left_aligned(pushed, PUSHED_WIDTH as nat) + seq![' '] + name
}

/// One row of the listing.
pub fn row(size: &str, os: &str, arch: &str, pushed: &str, name: &str) -> (line: String)
    ensures
        line@ == row_text(size@, os@, arch@, pushed@, name@),
{
    let mut line = String::new();
    push_left_padded(&mut line, size, SIZE_WIDTH);
    line.push(' ');
    push_left_cell(&mut line, os, OS_WIDTH);
    line.push(' ');
    push_left_cell(&mut line, arch, ARCH_WIDTH);
    line.push(' ');
    push_left_padded(&mut line, pushed, PUSHED_WIDTH);
    line.push(' ');
    line.append(name);
    assert(line@ =~= row_text(size@, os@, arch@, pushed@, name@));
    line
}

/// The header of the listing.
pub open spec fn header_text() -> Seq<char> {
    row_text("SIZE"@, "OS"@, "ARCH"@, "LAST PUSHED"@, "NAME"@)
}

/// The header of the listing.
pub fn header() -> (line: String)
    ensures
        line@ == header_text(),
{
    row("SIZE", "OS", "ARCH", "LAST PUSHED", "NAME")
}

/// The size of `bytes` bytes in words: a number and a unit.
pub uninterp spec fn size_text(bytes: u64) -> Seq<char>;

/// `bytesize::to_string` with its second argument set: the size in words,
/// with a unit. The contract gives the text the name `size_text`, and says
/// what the text is for sizes under 1024, which are written as the number
/// of bytes and " B".
#[verifier::external_body]
fn size_in_words(bytes: u64) -> (text: String)
    ensures
        text@ == size_text(bytes),
        bytes < 1024 ==> text@ == decimal_text(bytes as nat) + " B"@,
{
    bytesize::to_string(bytes, true)
}

/// Whether `pushed` may say at some time when `tag` was last pushed:
/// nothing where the moment is not known.
pub open spec fn is_pushed_text(pushed: Seq<char>, tag: Tag) -> bool {
    match tag.last_updated {
        Some(moment) => is_distance(pushed, moment),
        None => pushed == Seq::<char>::empty(),
    }
}

/// Whether `line` may be the row of `image` of `tag` at some time.
pub open spec fn is_image_row(line: Seq<char>, tag: Tag, image: Image) -> bool {
    exists|pushed: Seq<char>|
        #[trigger] is_pushed_text(pushed, tag) && line == row_text(
            size_text(image.size),
            image.os@,
            image.architecture@,
            pushed,
            tag.name@,
        )
}

/// The row of `image` of `tag`, with `pushed` saying when the tag was last
/// pushed.
fn image_row(tag: &Tag, image: &Image, pushed: &str) -> (line: String)
    requires
        is_pushed_text(pushed@, *tag),
    ensures
        is_image_row(line@, *tag, *image),
{
    let size = size_in_words(image.size);
    row(size.as_str(), image.os.as_str(), image.architecture.as_str(), pushed, tag.name.as_str())
}

/// The place of an image on a page: the index of its tag, and its index
/// among the images of that tag.
pub type Place = (int, int);

/// The places of the images of the tags before `tag`, and of the first
/// `image` images of `tag`, in the order of the page.
pub open spec fn places(tags: Seq<Tag>, tag: int, image: int) -> Seq<Place>
    decreases tag,
{
    if tag <= 0 {
        Seq::new(image as nat, |j: int| (0int, j))
    } else {
        places(tags, tag - 1, tags[tag - 1].images@.len() as int) + Seq::new(
            image as nat,
            |j: int| (tag, j),
        )
    }
}

/// The places of all images of a page.
pub open spec fn all_places(tags: Seq<Tag>) -> Seq<Place> {
    places(tags, tags.len() as int, 0)
}

/// What came of looking at some images of a page.
pub struct Scan {
    /// The places of the images that are listed.
    pub listed: Seq<Place>,
    /// How many more images may be listed.
    pub pending: nat,
    /// Whether an image was met after the last one that may be listed.
    pub stopped: bool,
}

/// Looks at the images at `at`, one after the other, with `pending` images
/// still to list. An image that is met when none is left to list ends the
/// listing; until then, every image that passes the filter is listed.
pub open spec fn scan(tags: Seq<Tag>, at: Seq<Place>, filter: FilterView, pending: nat) -> Scan
    decreases at.len(),
{
    if at.len() == 0 {
        Scan { listed: Seq::empty(), pending, stopped: false }
    } else {
        let before = scan(tags, at.drop_last(), filter, pending);
        let (tag, image) = at.last();
        if before.stopped {
            before
        } else if before.pending == 0 {
            Scan { stopped: true, ..before }
        } else if filter.passes(tags[tag].images@[image]) {
            Scan {
                listed: before.listed.push(at.last()),
                pending: (before.pending - 1) as nat,
                stopped: false,
            }
        } else {
            before
        }
    }
}

/// The place after the places up to an image is that of the image.
proof fn places_grow_by_image(tags: Seq<Tag>, tag: int, image: int)
    requires
        0 <= tag,
        0 <= image,
    ensures
        places(tags, tag, image + 1) == places(tags, tag, image).push((tag, image)),
        places(tags, tag, image + 1).drop_last() == places(tags, tag, image),
{
    assert(Seq::new((image + 1) as nat, |j: int| (tag, j)) =~= Seq::new(
        image as nat,
        |j: int| (tag, j),
    ).push((tag, image)));
    assert(places(tags, tag, image + 1) =~= places(tags, tag, image).push((tag, image)));
    assert(places(tags, tag, image).push((tag, image)).drop_last() =~= places(tags, tag, image));
}

/// The places up to the end of a tag are the places up to the next tag.
proof fn places_grow_by_tag(tags: Seq<Tag>, tag: int)
    requires
        0 <= tag,
    ensures
        places(tags, tag + 1, 0) == places(tags, tag, tags[tag].images@.len() as int),
{
    assert(places(tags, tag + 1, 0) =~= places(tags, tag, tags[tag].images@.len() as int));
}

/// A listing as contracts see it.
pub struct ListingView {
    pub filter: FilterView,
    /// The largest number of images to list, over all repositories.
    pub limit: nat,
    /// How many more images may be listed.
    pub pending: nat,
    /// The number of the page that is asked for next.
    pub page: nat,
}

impl ListingView {
    /// Whether another page of the same repository is asked for after
    /// `response`: not after a page without tags, nor once an image was met
    /// that may not be listed.
    pub open spec fn wants_more(self, response: Response) -> bool {
        &&& response.results@.len() > 0
        &&& !scan(response.results@, all_places(response.results@), self.filter, self.pending).stopped
        &&& self.page < usize::MAX
    }

    /// The listing after the page `response`.
    pub open spec fn page_step(self, response: Response) -> ListingView {
        ListingView {
            pending: scan(
                response.results@,
                all_places(response.results@),
                self.filter,
                self.pending,
            ).pending,
            page: if self.wants_more(response) {
                self.page + 1
            } else {
                self.page
            },
            ..self
        }
    }
}

/// Whether `rows` are rows of the images at `listed`, one for each, in
/// their order.
pub open spec fn rows_match(rows: Seq<String>, tags: Seq<Tag>, listed: Seq<Place>) -> bool {
    &&& rows.len() == listed.len()
    &&& forall|k: int|
        0 <= k < listed.len() ==> is_image_row(
            (#[trigger] rows[k])@,
            tags[listed[k].0],
            tags[listed[k].0].images@[listed[k].1],
        )
}

/// The lines that head the first page of a repository: how many tags it
/// has, and the header of the listing. Later pages have no heading.
pub open spec fn heading_matches(
    lines: Seq<String>,
    page: nat,
    count: nat,
    repository: Seq<char>,
) -> bool {
    if page == 1 {
        &&& lines.len() == 2
        &&& lines[0]@ == count_line_text(count, repository)
        &&& lines[1]@ == header_text()
    } else {
        lines.len() == 0
    }
}

/// Whether `lines` may be printed at some time for the page `response` of
/// the tags of `repository`, taken by a listing in the state `listing`: the
/// heading, then the rows of the images that are listed.
pub open spec fn is_listing(
    lines: Seq<String>,
    listing: ListingView,
    repository: Seq<char>,
    response: Response,
) -> bool {
    exists|heading: Seq<String>, rows: Seq<String>|
        #![trigger heading + rows]
        lines == heading + rows && heading_matches(
            heading,
            listing.page,
            response.count as nat,
            repository,
        ) && rows_match(
            rows,
            response.results@,
            scan(
                response.results@,
                all_places(response.results@),
                listing.filter,
                listing.pending,
            ).listed,
        )
}

/// What is printed for a page of tags.
#[derive(Debug)]
pub struct Listed {
    /// The lines to print, in their order.
    pub lines: Vec<String>,
    /// Whether another page of the same repository is to be asked for.
    pub more: bool,
}

/// A listing of tags: it goes through the repositories one after the
/// other, and through the pages of each.
pub struct Listing {
    os: Option<String>,
    arch: Option<String>,
    limit: usize,
    pending: usize,
    page: usize,
}

impl View for Listing {
    type V = ListingView;

    closed spec fn view(&self) -> ListingView {
        ListingView {
            filter: FilterView { os: string_view(self.os), arch: string_view(self.arch) },
            limit: self.limit as nat,
            pending: self.pending as nat,
            page: self.page as nat,
        }
    }
}

impl Listing {
    /// The listing that `options` ask for, on a machine whose operating
    /// system and architecture the compiler calls `target_os` and
    /// `target_arch`. It starts at page 1 with the whole limit to list.
    pub fn new(options: &TagsOptions, target_os: &str, target_arch: &str) -> (listing: Listing)
        ensures
            listing@ == (ListingView {
                filter: filter_of(*options, target_os@, target_arch@),
                limit: options.limit as nat,
                pending: options.limit as nat,
                page: 1,
            }),
    {
        let (os, arch) = if options.current_machine {
            (machine_os(target_os), machine_arch(target_arch))
        } else {
            (options.operating_system.clone(), options.architecture.clone())
        };
        Listing { os, arch, limit: options.limit, pending: options.limit, page: 1 }
    }

    /// How many more images may be listed.
    pub fn pending(&self) -> (pending: usize)
        ensures
            pending == self@.pending,
    {
        self.pending
    }

    /// The number of the page that is asked for next.
    pub fn page(&self) -> (page: usize)
        ensures
            page == self@.page,
    {
        self.page
    }

    /// Turns to the next repository: its pages are counted from 1 again.
    /// What is left of the limit stays as it is.
    pub fn begin(&mut self)
        ensures
            final(self)@ == (ListingView { page: 1, ..old(self)@ }),
    {
        self.page = 1;
    }

    /// The address of the page that is asked for next, of the tags of
    /// `repository`.
    pub fn url(&self, repository: &str) -> (url: String)
        ensures
            url@ == tags_url_text(repository@, self@.page, self@.limit),
    {
        tags_url(repository, self.page, self.limit)
    }

    /// Takes a page of the tags of `repository` and says what to print for
    /// it: on the first page of a repository the line with the number of
    /// its tags and the header; then a row for each image that is listed, in
    /// the order of the page.
    pub fn on_page(&mut self, repository: &str, response: &Response) -> (listed: Listed)
        ensures
            final(self)@ == old(self)@.page_step(*response),
            listed.more == old(self)@.wants_more(*response),
            is_listing(listed.lines@, old(self)@, repository@, *response),
    {
        let mut lines: Vec<String> = Vec::new();
        if self.page == 1 {
            lines.push(count_line(response.count, repository));
            lines.push(header());
        }
        let tags = &response.results;
        let ghost start = self@;
        let ghost head = lines@.len();
        let ghost heading = lines@;
        let mut pending: usize = self.pending;
        let mut stopped = false;
        let mut t: usize = 0;
        while t < tags.len()
            invariant
                t <= tags.len(),
                tags == &response.results,
                self@ == start,
                lines@.len() >= head,
                lines@.take(head as int) == heading,
                stopped == scan(tags@, places(tags@, t as int, 0), start.filter, start.pending).stopped,
                pending == scan(tags@, places(tags@, t as int, 0), start.filter, start.pending).pending,
                rows_match(
                    lines@.skip(head as int),
                    tags@,
                    scan(tags@, places(tags@, t as int, 0), start.filter, start.pending).listed,
                ),
            decreases tags.len() - t,
        {
            let tag = &tags[t];
            let pushed = match &tag.last_updated {
                Some(moment) => moment.to_human(),
                None => String::new(),
            };
            let mut i: usize = 0;
            while i < tag.images.len()
                invariant
                    t < tags.len(),
                    i <= tag.images.len(),
                    tags == &response.results,
                    tag == &tags[t as int],
                    is_pushed_text(pushed@, *tag),
                    self@ == start,
                    lines@.len() >= head,
                    lines@.take(head as int) == heading,
                    stopped == scan(
                        tags@,
                        places(tags@, t as int, i as int),
                        start.filter,
                        start.pending,
                    ).stopped,
                    pending == scan(
                        tags@,
                        places(tags@, t as int, i as int),
                        start.filter,
                        start.pending,
                    ).pending,
                    rows_match(
                        lines@.skip(head as int),
                        tags@,
                        scan(
                            tags@,
                            places(tags@, t as int, i as int),
                            start.filter,
                            start.pending,
                        ).listed,
                    ),
                decreases tag.images.len() - i,
            {
                let image = &tag.images[i];
                let ghost before = scan(
                    tags@,
                    places(tags@, t as int, i as int),
                    start.filter,
                    start.pending,
                );
                let ghost rows = lines@.skip(head as int);
                proof {
                    places_grow_by_image(tags@, t as int, i as int);
                }
                if !stopped {
                    if pending == 0 {
                        stopped = true;
                    } else if self.passes(image) {
                        pending -= 1;
                        lines.push(image_row(tag, image, pushed.as_str()));
                        proof {
                            let row = lines@.last();
                            assert(lines@.skip(head as int) =~= rows.push(row));
                            assert(lines@.take(head as int) =~= heading);
                            let listed = before.listed.push((t as int, i as int));
                            assert forall|k: int| 0 <= k < listed.len() implies is_image_row(
                                (#[trigger] lines@.skip(head as int)[k])@,
                                tags@[listed[k].0],
                                tags@[listed[k].0].images@[listed[k].1],
                            ) by {
                                if k < before.listed.len() {
                                    assert(lines@.skip(head as int)[k] == rows[k]);
                                }
                            }
                        }
                    }
                }
                i += 1;
            }
            proof {
                places_grow_by_tag(tags@, t as int);
            }
            t += 1;
        }
        let more = tags.len() > 0 && !stopped && self.page < usize::MAX;
        self.pending = pending;
        if more {
            self.page = self.page + 1;
        }
        proof {
            assert(lines@ =~= heading + lines@.skip(head as int));
        }
        Listed { lines, more }
    }

    /// Whether `image` passes the filter.
    fn passes(&self, image: &Image) -> (passes: bool)
        ensures
            passes == self@.filter.passes(*image),
    {
        let os_fits = match &self.os {
            Some(os) => same(os.as_str(), image.os.as_str()),
            None => true,
        };
        let arch_fits = match &self.arch {
            Some(arch) => same(arch.as_str(), image.architecture.as_str()),
            None => true,
        };
        os_fits && arch_fits
    }
}

} // verus!
