//! The display loop: it takes the pages one by one, keeps every hit shown so
//! far, and answers what the user types at the prompt.

use crate::hubapi::Summary;
use crate::search::SearchResult;
use crate::text::{
    decimal_text, decimal_text_is_read_back, parse_number, parsed_number, trim, trimmed,
    NumberError,
};
use vstd::prelude::*;

verus! {

/// Where the display loop stands.
#[derive(Debug, Clone, Copy, PartialEq, Eq, Structural)]
pub enum Phase {
    /// The next page is awaited.
    AwaitingPage,
    /// A page has been shown and the user is asked what to do.
    AwaitingInput,
    /// Nothing more will be shown.
    Done,
}

/// The state of the display loop, as contracts see it.
pub struct ConsumerView {
    /// The largest number of hits to show.
    pub limit: nat,
    /// Whether the user is asked after each page.
    pub interactive: bool,
    pub phase: Phase,
    /// Every hit shown so far, in the order shown.
    pub found: Seq<Summary>,
    /// The number of pages shown.
    pub pages: nat,
    /// The number of hits that the page shown last reported over all pages.
    pub total: nat,
}

/// The hits of a page; none where the page or its list is absent.
pub open spec fn items_of(page: Option<SearchResult>) -> Seq<Summary> {
    match page {
        Some(result) => match result.summaries {
            Some(items) => items@,
            None => Seq::empty(),
        },
        None => Seq::empty(),
    }
}

/// How many hits of a page of `available` hits are shown when `found` hits
/// have been shown before: all of them, unless the limit is reached within
/// the page. A hit is shown before the limit is looked at, so the first hit
/// of a page is always shown.
pub open spec fn taken(found: nat, limit: nat, available: nat) -> nat {
    if limit <= found + 1 {
        if available >= 1 {
            1
        } else {
            0
        }
    } else if available <= limit - found {
        available
    } else {
        (limit - found) as nat
    }
}

impl ConsumerView {
    /// The state before the first page.
    pub open spec fn start(limit: nat, interactive: bool) -> ConsumerView {
        ConsumerView {
            limit,
            interactive,
            phase: Phase::AwaitingPage,
            found: Seq::empty(),
            pages: 0,
            total: 0,
        }
    }

    /// The state after `page` has arrived; `None` stands for the end of the
    /// stream. A page without hits ends the loop. Of any other page the hits
    /// are shown up to the limit; then the loop ends if the limit is reached,
    /// asks the user if it is interactive, and awaits the next page if not.
    pub open spec fn page_step(self, page: Option<SearchResult>) -> ConsumerView {
        let items = items_of(page);
        if items.len() == 0 {
            ConsumerView { phase: Phase::Done, ..self }
        } else {
            let found = self.found + items.take(
                taken(self.found.len(), self.limit, items.len()) as int,
            );
            ConsumerView {
                phase: if found.len() >= self.limit {
                    Phase::Done
                } else if self.interactive {
                    Phase::AwaitingInput
                } else {
                    Phase::AwaitingPage
                },
                found,
                pages: self.pages + 1,
                total: page->0.count as nat,
                ..self
            }
        }
    }

    /// What a line typed at the prompt selects: the hit with that number,
    /// where the line is the number of a hit shown so far.
    pub open spec fn selection(self, line: Seq<char>) -> Option<int> {
        match parsed_number(trimmed(line)) {
            Ok(number) => if 1 <= number <= self.found.len() {
                Some(number - 1)
            } else {
                None
            },
            Err(_) => None,
        }
    }

    /// The state after `line` was typed at the prompt. A blank line asks for
    /// the next page, the number of a hit ends the loop, and anything else
    /// changes nothing.
    pub open spec fn input_step(self, line: Seq<char>) -> ConsumerView {
        if trimmed(line).len() == 0 {
            ConsumerView { phase: Phase::AwaitingPage, ..self }
        } else if self.selection(line) is Some {
            ConsumerView { phase: Phase::Done, ..self }
        } else {
            self
        }
    }

    /// Whether `reply` is the answer to `line`, typed at the prompt in this
    /// state: `More` to a blank line; the slug of the hit to the number of a
    /// hit shown so far; `NotFound` to any other number; and to a line that
    /// is no number the line, without the white space around it, with the
    /// reason.
    pub open spec fn answers(self, line: Seq<char>, reply: Reply) -> bool {
        if trimmed(line).len() == 0 {
            reply == Reply::More
        } else {
            match parsed_number(trimmed(line)) {
                Ok(number) => if 1 <= number <= self.found.len() {
                    reply matches Reply::Details(slug) && slug@ == self.found[number - 1].slug@
                } else {
                    reply == Reply::NotFound
                },
                Err(error) => reply matches Reply::Invalid(text, reason) && text@ == trimmed(line)
                    && reason == error,
            }
        }
    }

    /// The state after the loop was fed with `pages`, one after the other,
    /// for as long as it awaited a page.
    pub open spec fn run(self, pages: Seq<Option<SearchResult>>) -> ConsumerView
        decreases pages.len(),
    {
        if pages.len() == 0 || self.phase != Phase::AwaitingPage {
            self
        } else {
            self.page_step(pages[0]).run(pages.drop_first())
        }
    }

    /// What holds of every state that the loop reaches.
    pub open spec fn reachable(self) -> bool {
        &&& self.pages <= self.found.len()
        &&& self.pages == 0 ==> self.found.len() == 0 && self.phase != Phase::AwaitingInput
        &&& self.found.len() <= self.limit || self.found.len() <= 1
        &&& self.pages > 0 && self.phase != Phase::Done ==> self.found.len() < self.limit
        &&& self.phase == Phase::AwaitingInput ==> self.interactive
    }
}

/// The hits that a stream of pages offers: those of its pages in their
/// order, up to the first page without hits.
pub open spec fn hits(pages: Seq<Option<SearchResult>>) -> Seq<Summary>
    decreases pages.len(),
{
    if pages.len() == 0 || items_of(pages[0]).len() == 0 {
        Seq::empty()
    } else {
        items_of(pages[0]) + hits(pages.drop_first())
    }
}

/// The smaller of two numbers.
pub open spec fn least(a: nat, b: nat) -> nat {
    if a <= b {
        a
    } else {
        b
    }
}

/// A loop that asks no user and has room under its limit goes on to show
/// the hits that the stream offers, in their order, up to the limit.
proof fn run_shows_hits_up_to_limit(s: ConsumerView, pages: Seq<Option<SearchResult>>)
    requires
        !s.interactive,
        s.phase == Phase::AwaitingPage,
        s.found.len() < s.limit,
    ensures
        s.run(pages).found == s.found + hits(pages).take(
            least((s.limit - s.found.len()) as nat, hits(pages).len()) as int,
        ),
    decreases pages.len(),
{
    let room = (s.limit - s.found.len()) as nat;
    if pages.len() == 0 {
        assert(s.run(pages).found =~= s.found + hits(pages).take(0));
    } else if items_of(pages[0]).len() == 0 {
        let next = s.page_step(pages[0]);
        assert(next.run(pages.drop_first()) == next);
        assert(s.run(pages).found =~= s.found + hits(pages).take(0));
    } else {
        let items = items_of(pages[0]);
        let rest = pages.drop_first();
        let next = s.page_step(pages[0]);
        if next.phase == Phase::Done {
            assert(next.run(rest) == next);
            assert(items.take(room as int) =~= hits(pages).take(room as int));
        } else {
            run_shows_hits_up_to_limit(next, rest);
            assert(items.take(items.len() as int) =~= items);
            assert(s.run(pages).found =~= s.found + hits(pages).take(
                least(room, hits(pages).len()) as int,
            ));
        }
    }
}

/// Without a user to ask, and with a limit of one or more, the hits shown
/// are the hits that the stream offers, in their order, up to the limit: as
/// many as the smaller of the two numbers.
pub proof fn shows_hits_up_to_limit(limit: nat, pages: Seq<Option<SearchResult>>)
    requires
        limit >= 1,
    ensures
        ConsumerView::start(limit, false).run(pages).found == hits(pages).take(
            least(limit, hits(pages).len()) as int,
        ),
        ConsumerView::start(limit, false).run(pages).found.len() == least(
            limit,
            hits(pages).len(),
        ),
{
    let s = ConsumerView::start(limit, false);
    run_shows_hits_up_to_limit(s, pages);
    assert(s.found + hits(pages).take(least(limit, hits(pages).len()) as int) =~= hits(
        pages,
    ).take(least(limit, hits(pages).len()) as int));
}

/// Whatever the limit, a page leaves the loop in a state as `reachable`
/// describes it: the hits shown are never more than the limit allows, but
/// for the first hit, which is shown before the limit is looked at.
pub proof fn never_shows_more_than_limit(s: ConsumerView, page: Option<SearchResult>)
    requires
        s.reachable(),
        s.phase == Phase::AwaitingPage,
    ensures
        s.page_step(page).reachable(),
        s.page_step(page).found.len() <= s.limit || s.page_step(page).found.len() <= 1,
{
}

/// The hits shown stay where they are: a page adds its hits behind those
/// shown before, and a line typed at the prompt adds and removes none. So
/// the number of a hit is the same for as long as the loop lives.
pub proof fn shown_hits_stay_in_place(
    s: ConsumerView,
    page: Option<SearchResult>,
    line: Seq<char>,
)
    ensures
        s.found.is_prefix_of(s.page_step(page).found),
        s.input_step(line).found == s.found,
{
}

/// A loop that asks no user never waits for one, and it ends only at a page
/// without hits or when the limit is reached.
pub proof fn batch_loop_runs_to_completion(s: ConsumerView, page: Option<SearchResult>)
    requires
        !s.interactive,
    ensures
        s.page_step(page).phase != Phase::AwaitingInput,
        s.page_step(page).phase == Phase::Done <==> items_of(page).len() == 0 || s.page_step(
            page,
        ).found.len() >= s.limit,
{
}

/// A number that is not the number of a hit shown so far ends nothing: the
/// loop stays as it is, still awaiting input, and the answer is `NotFound`.
pub proof fn selection_out_of_range_asks_again(s: ConsumerView, line: Seq<char>, number: nat)
    requires
        s.phase == Phase::AwaitingInput,
        parsed_number(trimmed(line)) == Ok::<nat, NumberError>(number),
        number < 1 || number > s.found.len(),
    ensures
        s.input_step(line) == s,
        s.input_step(line).phase == Phase::AwaitingInput,
        s.answers(line, Reply::NotFound),
{
}

/// The number under which a hit is shown is the handle by which it is
/// selected: typing the number of a hit, as the table writes it, ends the
/// loop with the slug of that very hit, however many pages were shown since.
pub proof fn shown_number_selects_its_hit(s: ConsumerView, number: nat, slug: String)
    requires
        s.found.len() <= usize::MAX,
        1 <= number <= s.found.len(),
        slug@ == s.found[number - 1].slug@,
    ensures
        s.selection(decimal_text(number)) == Some(number - 1),
        s.input_step(decimal_text(number)).phase == Phase::Done,
        s.input_step(decimal_text(number)).found == s.found,
        s.answers(decimal_text(number), Reply::Details(slug)),
{
    decimal_text_is_read_back(number);
}

/// A line that is neither blank nor a number changes nothing either.
pub proof fn unreadable_line_asks_again(s: ConsumerView, line: Seq<char>)
    requires
        s.phase == Phase::AwaitingInput,
        trimmed(line).len() > 0,
        parsed_number(trimmed(line)) is Err,
    ensures
        s.input_step(line) == s,
        s.input_step(line).phase == Phase::AwaitingInput,
{
}

/// What the display loop shows of a page.
#[derive(Debug, Clone, Copy, PartialEq, Eq, Structural)]
pub struct Rendered {
    /// Whether the header of the table precedes the rows.
    pub header: bool,
    /// How many hits were shown before this page.
    pub first: usize,
    /// How many hits of this page are shown.
    pub count: usize,
    /// The number of the page, counted from 1 in the order shown.
    pub page: usize,
}

/// The answer to a line typed at the prompt.
#[derive(Debug, PartialEq, Eq)]
pub enum Reply {
    /// Show the next page.
    More,
    /// Show the details of the repository with this slug.
    Details(String),
    /// The line is no number: say so and ask again.
    Invalid(String, NumberError),
    /// No hit has this number: say so and ask again.
    NotFound,
}

/// The display loop.
pub struct Consumer {
    limit: usize,
    interactive: bool,
    phase: Phase,
    found: Vec<Summary>,
    pages: usize,
    total: usize,
}

impl View for Consumer {
    type V = ConsumerView;

    closed spec fn view(&self) -> ConsumerView {
        ConsumerView {
            limit: self.limit as nat,
            interactive: self.interactive,
            phase: self.phase,
            found: self.found@,
            pages: self.pages as nat,
            total: self.total as nat,
        }
    }
}

impl Consumer {
    /// A loop that has shown nothing yet. Without a `limit` it shows as many
    /// hits as the machine can count.
    pub fn new(limit: Option<usize>, interactive: bool) -> (consumer: Consumer)
        ensures
            consumer@ == ConsumerView::start(
                match limit {
                    Some(n) => n as nat,
                    None => usize::MAX as nat,
                },
                interactive,
            ),
            consumer@.reachable(),
    {
        Consumer {
            limit: match limit {
                Some(n) => n,
                None => usize::MAX,
            },
            interactive,
            phase: Phase::AwaitingPage,
            found: Vec::new(),
            pages: 0,
            total: 0,
        }
    }

    /// Where the loop stands.
    pub fn phase(&self) -> (phase: Phase)
        ensures
            phase == self@.phase,
    {
        self.phase
    }

    /// Whether the user is asked after each page.
    pub fn interactive(&self) -> (interactive: bool)
        ensures
            interactive == self@.interactive,
    {
        self.interactive
    }

    /// Every hit shown so far, in the order shown. The hit with the number
    /// `n` stands at `n - 1`, for as long as the loop lives.
    pub fn found(&self) -> (found: &Vec<Summary>)
        ensures
            found@ == self@.found,
    {
        &self.found
    }

    /// The number of pages shown so far.
    pub fn pages(&self) -> (pages: usize)
        ensures
            pages == self@.pages,
    {
        self.pages
    }

    /// The number of hits over all pages, as the page shown last reported it.
    pub fn total(&self) -> (total: usize)
        ensures
            total == self@.total,
    {
        self.total
    }

    /// Takes the next page, or the end of the stream, and says what to show
    /// of it: the header on the first page and on every page of an
    /// interactive loop, and the hits up to the limit. Nothing is shown of a
    /// page without hits.
    pub fn on_page(&mut self, page: Option<SearchResult>) -> (shown: Rendered)
        requires
            old(self)@.reachable(),
            old(self)@.phase == Phase::AwaitingPage,
        ensures
            final(self)@ == old(self)@.page_step(page),
            final(self)@.reachable(),
            shown.first == old(self)@.found.len(),
            shown.count == final(self)@.found.len() - old(self)@.found.len(),
            shown.count == taken(
                old(self)@.found.len(),
                old(self)@.limit,
                items_of(page).len(),
            ),
            shown.header == (shown.count > 0 && (old(self)@.interactive || shown.first == 0)),
            shown.page == final(self)@.pages,
    {
        let first: usize = self.found.len();
        let (count, items) = match page {
            Some(result) => match result.summaries {
                Some(items) => (result.count, items),
                None => (result.count, Vec::new()),
            },
            None => (0, Vec::new()),
        };
        let mut items = items;
        assert(items@ =~= items_of(page));
        if items.len() == 0 {
            self.phase = Phase::Done;
            return Rendered { header: false, first, count: 0, page: self.pages };
        }
        let room: usize = if self.limit <= first {
            1
        } else {
            self.limit - first
        };
        if items.len() > room {
            items.truncate(room);
        }
        let shown: usize = items.len();
        assert(shown == taken(first as nat, self.limit as nat, items_of(page).len()));
        assert(items@ =~= items_of(page).take(shown as int));
        self.found.append(&mut items);
        self.pages = self.pages + 1;
        self.total = count;
        self.phase = if self.found.len() >= self.limit {
            Phase::Done
        } else if self.interactive {
            Phase::AwaitingInput
        } else {
            Phase::AwaitingPage
        };
        Rendered { header: self.interactive || first == 0, first, count: shown, page: self.pages }
    }

    /// Takes a line typed at the prompt. A blank line asks for the next
    /// page. The number of a hit shown so far ends the loop and asks for the
    /// details of that hit. Anything else changes nothing and is answered
    /// with the reason, so that the user is asked again.
    pub fn on_input(&mut self, line: &str) -> (reply: Reply)
        requires
            old(self)@.reachable(),
            old(self)@.phase == Phase::AwaitingInput,
        ensures
            final(self)@ == old(self)@.input_step(line@),
            final(self)@.reachable(),
            old(self)@.answers(line@, reply),
    {
        let text = trim(line);
        if text.as_str().unicode_len() == 0 {
            self.phase = Phase::AwaitingPage;
            return Reply::More;
        }
        match parse_number(text.as_str()) {
            Ok(number) => {
                if 1 <= number && number <= self.found.len() {
                    self.phase = Phase::Done;
                    Reply::Details(self.found[number - 1].slug.clone())
                } else {
                    Reply::NotFound
                }
            },
            Err(reason) => Reply::Invalid(text, reason),
        }
    }
}

} // verus!
