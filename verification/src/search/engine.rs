//! The retrieval engine: producer, prefetch channel and display loop as one
//! machine. It says what to do next; its caller does it and reports back.
//!
//! The display loop comes first: a page that waits is shown before another
//! is asked for. Pages are fetched ahead only while the loop waits, for a
//! page or for the user, and only while the channel has room for them.

use crate::options::SearchOptions;
use crate::search::channel::{ChannelView, Page, PrefetchChannel};
use crate::search::consumer::{
    hits, items_of, least, shows_hits_up_to_limit, Consumer, ConsumerView, Phase, Rendered, Reply,
};
use crate::search::fetcher::{search_headers, search_query, PageRequest};
use crate::search::producer::{Producer, ProducerView};
use crate::search::{SearchResult, DEFAULT_SEARCH_URL, PAGES_QUEUE_SIZE};
use crate::text::{join, joined, pair_views, trimmed, views};
use vstd::prelude::*;

verus! {

/// What the engine may ask for, without what goes with the request.
#[derive(Debug, Clone, Copy, PartialEq, Eq, Structural)]
pub enum Step {
    /// Send a request for a page.
    Fetch,
    /// Print the hits of a page.
    Show,
    /// Print the prompt.
    Prompt,
    /// Wait for a page or for a line.
    Wait,
    /// End the command.
    Stop,
}

/// What the engine asks its caller to do.
#[derive(Debug)]
pub enum Action {
    /// Send this request, and hand the page that it returns to `fetched`.
    /// Go on without waiting for it.
    Fetch(PageRequest),
    /// Print the header, if it is due, and the rows of the hits that were
    /// taken from a page.
    Show(Rendered),
    /// Print the prompt, with this number of hits over all pages.
    Prompt(usize),
    /// Wait for what comes first: the page of the request under way, if
    /// `page` is set, or a line typed by the user, if `line` is set. Hand it
    /// to `fetched` or to `typed`.
    Wait { page: bool, line: bool },
    /// Nothing is left to do.
    Stop,
}

impl Action {
    /// Which step the action asks for.
    pub open spec fn step(self) -> Step {
        match self {
            Action::Fetch(_) => Step::Fetch,
            Action::Show(_) => Step::Show,
            Action::Prompt(_) => Step::Prompt,
            Action::Wait { .. } => Step::Wait,
            Action::Stop => Step::Stop,
        }
    }
}

/// The engine as contracts see it.
pub struct SearchView {
    pub producer: ProducerView,
    pub channel: ChannelView,
    pub consumer: ConsumerView,
    /// Whether the prompt has been printed for the line that is awaited.
    pub prompted: bool,
}

/// The channel after its receiving end was closed.
pub open spec fn closed_channel() -> ChannelView {
    ChannelView { queue: Seq::empty(), closed: true }
}

impl SearchView {
    /// The engine before anything was asked for.
    pub open spec fn start(
        url: Seq<char>,
        terms: Seq<char>,
        page_size: nat,
        limit: nat,
        interactive: bool,
    ) -> SearchView {
        SearchView {
            producer: ProducerView::start(url, terms, page_size),
            channel: ChannelView { queue: Seq::empty(), closed: false },
            consumer: ConsumerView::start(limit, interactive),
            prompted: false,
        }
    }

    /// What holds of the engine at all times. The channel holds two pages at
    /// most. While it is open, the pages in it are the ones that follow the
    /// pages shown, in their order, and the producer asks for the one after
    /// them; a page under way will find room. The channel is closed exactly
    /// when the display loop is done.
    pub open spec fn coherent(self) -> bool {
        &&& self.producer.valid()
        &&& self.channel.bounded()
        &&& self.consumer.reachable()
        &&& self.channel.closed <==> self.consumer.phase == Phase::Done
        &&& self.producer.stopped ==> self.channel.closed
        &&& self.prompted ==> self.consumer.phase == Phase::AwaitingInput
        &&& !self.channel.closed ==> {
            &&& self.producer.next_page == self.consumer.pages + self.channel.queue.len() + 1
            &&& forall|i: int|
                0 <= i < self.channel.queue.len() ==> (#[trigger] self.channel.queue[i]).number
                    == self.consumer.pages + 1 + i
            &&& self.producer.fetching ==> self.channel.queue.len() < PAGES_QUEUE_SIZE
        }
    }

    /// Whether a page can be asked for ahead of its use: the producer is
    /// free and the channel has room for the page.
    pub open spec fn can_prefetch(self) -> bool {
        self.producer.idle() && self.channel.queue.len() < PAGES_QUEUE_SIZE
    }

    /// What the engine asks for in this state.
    pub open spec fn step(self) -> Step {
        match self.consumer.phase {
            Phase::Done => Step::Stop,
            Phase::AwaitingPage => if self.channel.queue.len() > 0 {
                if items_of(Some(self.channel.queue[0].result)).len() > 0 {
                    Step::Show
                } else {
                    Step::Stop
                }
            } else if self.producer.fetching {
                Step::Wait
            } else if self.producer.idle() {
                Step::Fetch
            } else {
                Step::Stop
            },
            Phase::AwaitingInput => if !self.prompted {
                Step::Prompt
            } else if self.can_prefetch() {
                Step::Fetch
            } else {
                Step::Wait
            },
        }
    }

    /// The engine after the display loop took `page`, or the end of the
    /// stream: the channel is closed if the loop is done with that.
    pub open spec fn display(self, page: Option<SearchResult>) -> SearchView {
        let consumer = self.consumer.page_step(page);
        SearchView {
            consumer,
            channel: if consumer.phase == Phase::Done {
                closed_channel()
            } else {
                ChannelView { queue: self.channel.queue.drop_first(), closed: false }
            },
            ..self
        }
    }

    /// The engine after it has asked for what `step` names.
    pub open spec fn advance(self) -> SearchView {
        match self.consumer.phase {
            Phase::Done => self,
            Phase::AwaitingPage => if self.channel.queue.len() > 0 {
                self.display(Some(self.channel.queue[0].result))
            } else if self.producer.fetching {
                self
            } else if self.producer.idle() {
                SearchView { producer: self.producer.fetch_step(), ..self }
            } else {
                self.display(None)
            },
            Phase::AwaitingInput => if !self.prompted {
                SearchView { prompted: true, ..self }
            } else if self.can_prefetch() {
                SearchView { producer: self.producer.fetch_step(), ..self }
            } else {
                self
            },
        }
    }

    /// The engine after the request under way has returned `result`. The
    /// page goes into the channel under its number; if the channel is closed
    /// by then, the page is dropped and the producer stops.
    pub open spec fn fetched(self, result: SearchResult) -> SearchView {
        if self.channel.closed {
            SearchView { producer: self.producer.sent_step(false), ..self }
        } else {
            SearchView {
                producer: self.producer.sent_step(true),
                channel: ChannelView {
                    queue: self.channel.queue.push(
                        Page { number: self.producer.next_page as usize, result },
                    ),
                    closed: false,
                },
                ..self
            }
        }
    }

    /// Whether nothing waits and nothing is under way: the state between
    /// two pages of a search that asks no user.
    pub open spec fn at_rest(self) -> bool {
        self.channel.queue.len() == 0 && !self.producer.fetching && !self.prompted
    }

    /// One round of a search that asks no user, with a registry that
    /// returns the page `registry(n)` for the number `n`: the next page is
    /// asked for, arrives, and is shown.
    pub open spec fn round(self, registry: spec_fn(nat) -> SearchResult) -> SearchView {
        self.advance().fetched(registry(self.producer.next_page)).advance()
    }

    /// Up to `count` rounds, for as long as the display loop awaits a page.
    pub open spec fn rounds(self, registry: spec_fn(nat) -> SearchResult, count: nat) -> SearchView
        decreases count,
    {
        if count == 0 || self.consumer.phase != Phase::AwaitingPage {
            self
        } else {
            self.round(registry).rounds(registry, (count - 1) as nat)
        }
    }

    /// The engine after the user has typed `line` at the prompt. Whatever
    /// the line, the prompt is due again if the loop still awaits input; the
    /// channel is closed if the line selected a hit.
    pub open spec fn typed(self, line: Seq<char>) -> SearchView {
        let consumer = self.consumer.input_step(line);
        SearchView {
            consumer,
            channel: if consumer.phase == Phase::Done {
                closed_channel()
            } else {
                self.channel
            },
            prompted: false,
            ..self
        }
    }
}

/// Asking for the next thing keeps the engine coherent.
pub proof fn advance_stays_coherent(s: SearchView)
    requires
        s.coherent(),
    ensures
        s.advance().coherent(),
{
    if s.consumer.phase == Phase::AwaitingPage && s.channel.queue.len() > 0 {
        let t = s.advance();
        if !t.channel.closed {
            assert forall|i: int| 0 <= i < t.channel.queue.len() implies (
            #[trigger] t.channel.queue[i]).number == t.consumer.pages + 1 + i by {
                assert(t.channel.queue[i] == s.channel.queue[i + 1]);
            }
        }
    }
}

/// Taking a fetched page keeps the engine coherent.
pub proof fn fetched_stays_coherent(s: SearchView, result: SearchResult)
    requires
        s.coherent(),
        s.producer.fetching,
    ensures
        s.fetched(result).coherent(),
{
}

/// Taking a typed line keeps the engine coherent.
pub proof fn typed_stays_coherent(s: SearchView, line: Seq<char>)
    requires
        s.coherent(),
        s.consumer.phase == Phase::AwaitingInput,
    ensures
        s.typed(line).coherent(),
{
}

/// The channel never holds more than two pages, and a page is asked for
/// only when it will find room: the pages that wait and the page under way
/// are never more than two.
pub proof fn lookahead_is_bounded(s: SearchView)
    requires
        s.coherent(),
    ensures
        s.channel.queue.len() <= PAGES_QUEUE_SIZE,
        !s.channel.closed && s.producer.fetching ==> s.channel.queue.len() + 1 <= PAGES_QUEUE_SIZE,
        s.step() == Step::Fetch ==> s.channel.queue.len() < PAGES_QUEUE_SIZE,
{
}

/// Pages are shown in the order of their numbers, from 1 on, and none is
/// left out: the page shown next is the one that has waited longest, its
/// number is one more than the number of pages shown before, and the page
/// asked for next is the one after all pages fetched.
pub proof fn pages_are_shown_in_order(s: SearchView)
    requires
        s.coherent(),
    ensures
        s.step() == Step::Show ==> s.channel.queue[0].number == s.consumer.pages + 1
            && s.advance().consumer.pages == s.consumer.pages + 1,
        s.step() != Step::Show ==> s.advance().consumer.pages == s.consumer.pages,
        s.step() == Step::Fetch ==> s.producer.next_page == s.consumer.pages
            + s.channel.queue.len() + 1,
{
}

/// A search that asks no user never prompts and never waits for a line:
/// when it waits, then for the page of a request that is under way. It ends
/// only at a page without hits, at the end of the stream, or at the limit.
pub proof fn batch_search_never_asks(s: SearchView)
    requires
        s.coherent(),
        !s.consumer.interactive,
    ensures
        s.consumer.phase != Phase::AwaitingInput,
        s.step() != Step::Prompt,
        s.step() == Step::Wait ==> s.producer.fetching,
        !s.advance().consumer.interactive,
        s.consumer.phase != Phase::Done && s.advance().consumer.phase == Phase::Done ==> {
            ||| s.channel.queue.len() == 0 && !s.producer.idle()
            ||| s.channel.queue.len() > 0 && items_of(Some(s.channel.queue[0].result)).len() == 0
            ||| s.advance().consumer.found.len() >= s.consumer.limit
        },
{
}

/// The pages that a registry returns for the numbers from `first` on, as
/// the stream that the display loop is fed with.
pub open spec fn stream(registry: spec_fn(nat) -> SearchResult, first: nat, count: nat) -> Seq<
    Option<SearchResult>,
> {
    Seq::new(count, |i: int| Some(registry((first + i) as nat)))
}

/// In a round of a search that asks no user, the page asked for is the one
/// after the pages shown, and the display loop takes just that page. After
/// the round the engine is at rest again.
proof fn round_shows_the_next_page(s: SearchView, registry: spec_fn(nat) -> SearchResult)
    requires
        s.coherent(),
        s.at_rest(),
        s.consumer.phase == Phase::AwaitingPage,
        s.producer.next_page < usize::MAX,
    ensures
        s.step() == Step::Fetch,
        s.producer.next_page == s.consumer.pages + 1,
        s.round(registry).consumer == s.consumer.page_step(
            Some(registry(s.producer.next_page)),
        ),
        s.round(registry).producer.next_page == s.producer.next_page + 1,
        s.round(registry).coherent(),
        s.round(registry).at_rest(),
{
    let result = registry(s.producer.next_page);
    let asked = s.advance();
    advance_stays_coherent(s);
    let arrived = asked.fetched(result);
    fetched_stays_coherent(asked, result);
    assert(arrived.channel.queue.len() == 1);
    assert(arrived.channel.queue[0].result == result);
    let shown = arrived.advance();
    advance_stays_coherent(arrived);
    if shown.consumer.phase != Phase::Done {
        assert(shown.channel.queue =~= Seq::<Page>::empty());
    }
}

/// Round by round, a search that asks no user feeds its display loop with
/// the pages of the registry in the order of their numbers.
proof fn rounds_feed_the_stream(s: SearchView, registry: spec_fn(nat) -> SearchResult, count: nat)
    requires
        s.coherent(),
        s.at_rest(),
        s.producer.next_page + count <= usize::MAX,
    ensures
        s.rounds(registry, count).consumer == s.consumer.run(
            stream(registry, s.producer.next_page, count),
        ),
    decreases count,
{
    let pages = stream(registry, s.producer.next_page, count);
    if count > 0 && s.consumer.phase == Phase::AwaitingPage {
        round_shows_the_next_page(s, registry);
        let next = s.round(registry);
        rounds_feed_the_stream(next, registry, (count - 1) as nat);
        assert(pages[0] == Some(registry(s.producer.next_page)));
        assert(pages.drop_first() =~= stream(
            registry,
            next.producer.next_page,
            (count - 1) as nat,
        ));
    }
}

/// A search that asks no user, with a limit of one or more, shows the hits
/// that the registry offers on its pages 1, 2, 3 and so on, in their order,
/// up to the first page without hits and up to the limit: as many hits as
/// the smaller of the two numbers.
pub proof fn batch_search_shows_hits_up_to_limit(
    url: Seq<char>,
    terms: Seq<char>,
    page_size: nat,
    limit: nat,
    registry: spec_fn(nat) -> SearchResult,
    count: nat,
)
    requires
        limit >= 1,
        page_size <= usize::MAX,
        count < usize::MAX,
    ensures
        ({
            let end = SearchView::start(url, terms, page_size, limit, false).rounds(
                registry,
                count,
            );
            let offered = hits(stream(registry, 1, count));
            &&& end.consumer.found == offered.take(least(limit, offered.len()) as int)
            &&& end.consumer.found.len() == least(limit, offered.len())
        }),
{
    let s = SearchView::start(url, terms, page_size, limit, false);
    rounds_feed_the_stream(s, registry, count);
    shows_hits_up_to_limit(limit, stream(registry, 1, count));
}

/// A line that selects nothing and asks for nothing leaves everything as it
/// was, the channel too, and the prompt is printed again.
pub proof fn bad_line_is_asked_again(s: SearchView, line: Seq<char>)
    requires
        s.coherent(),
        s.consumer.phase == Phase::AwaitingInput,
        trimmed(line).len() > 0,
        s.consumer.selection(line) is None,
    ensures
        s.typed(line).consumer == s.consumer,
        s.typed(line).channel == s.channel,
        s.typed(line).producer == s.producer,
        s.typed(line).step() == Step::Prompt,
{
}

/// Once the display loop is done, the channel is closed and empty, nothing
/// more is asked for, and a page that still arrives is dropped.
pub proof fn done_stops_everything(s: SearchView, result: SearchResult)
    requires
        s.coherent(),
        s.consumer.phase == Phase::Done,
    ensures
        s.channel == closed_channel(),
        s.step() == Step::Stop,
        s.advance() == s,
        s.fetched(result).channel == closed_channel(),
        s.fetched(result).producer.stopped,
{
    assert(s.channel.queue =~= Seq::empty());
}

/// The retrieval engine.
pub struct Search {
    producer: Producer,
    channel: PrefetchChannel,
    consumer: Consumer,
    prompted: bool,
}

impl View for Search {
    type V = SearchView;

    closed spec fn view(&self) -> SearchView {
        SearchView {
            producer: self.producer@,
            channel: self.channel@,
            consumer: self.consumer@,
            prompted: self.prompted,
        }
    }
}

impl Search {
    /// An engine for the search that `options` describe: for the terms,
    /// joined by blanks, at the given place or the default one, up to the
    /// given limit. It asks the user after each page if `interactive` is
    /// set, and asks the registry for `page_size` hits with each page.
    pub fn new(options: SearchOptions, interactive: bool, page_size: usize) -> (search: Search)
        ensures
            search@ == SearchView::start(
                match options.search_url {
                    Some(url) => url@,
                    None => DEFAULT_SEARCH_URL@,
                },
                joined(views(options.terms@)),
                page_size as nat,
                match options.limit {
                    Some(limit) => limit as nat,
                    None => usize::MAX as nat,
                },
                interactive,
            ),
            search@.coherent(),
    {
        let terms = join(&options.terms);
        Search {
            producer: Producer::new(options.search_url, terms, page_size),
            channel: PrefetchChannel::new(),
            consumer: Consumer::new(options.limit, interactive),
            prompted: false,
        }
    }

    /// The display loop, with the hits shown so far.
    pub fn consumer(&self) -> (consumer: &Consumer)
        ensures
            consumer@ == self@.consumer,
    {
        &self.consumer
    }

    /// Where the display loop stands.
    pub fn phase(&self) -> (phase: Phase)
        ensures
            phase == self@.consumer.phase,
    {
        self.consumer.phase()
    }

    /// Whether a request is under way.
    pub fn fetching(&self) -> (fetching: bool)
        ensures
            fetching == self@.producer.fetching,
    {
        self.producer.fetching()
    }

    /// The number of fetched pages that wait to be shown.
    pub fn waiting(&self) -> (pages: usize)
        ensures
            pages == self@.channel.queue.len(),
    {
        self.channel.len()
    }

    /// Says what to do next, and moves on to the state in which that has
    /// been asked for. A request is for the page after those fetched so far.
    /// The page shown is the one that has waited longest, and its number is
    /// one more than the number of pages shown before.
    pub fn next_action(&mut self) -> (action: Action)
        requires
            old(self)@.coherent(),
        ensures
            final(self)@ == old(self)@.advance(),
            final(self)@.coherent(),
            action.step() == old(self)@.step(),
            match action {
                Action::Fetch(request) => {
                    &&& request.url@ == old(self)@.producer.url
                    &&& request.page == old(self)@.producer.next_page
                    &&& pair_views(request.headers@) == search_headers()
                    &&& pair_views(request.query@) == search_query(
                        old(self)@.producer.terms,
                        old(self)@.producer.page_size,
                        old(self)@.producer.next_page,
                    )
                },
                Action::Show(shown) => {
                    &&& shown.page == old(self)@.consumer.pages + 1
                    &&& shown.page == old(self)@.channel.queue[0].number
                    &&& shown.first == old(self)@.consumer.found.len()
                    &&& shown.count == final(self)@.consumer.found.len() - shown.first
                    &&& shown.header == (old(self)@.consumer.interactive || shown.first == 0)
                },
                Action::Prompt(total) => total == old(self)@.consumer.total,
                Action::Wait { page, line } => {
                    &&& page == old(self)@.producer.fetching
                    &&& line == (old(self)@.consumer.phase == Phase::AwaitingInput)
                },
                Action::Stop => true,
            },
    {
        proof {
            advance_stays_coherent(self@);
        }
        match self.consumer.phase() {
            Phase::Done => Action::Stop,
            Phase::AwaitingPage => {
                if self.channel.len() > 0 {
                    match self.channel.receive() {
                        Some(page) => {
                            let shown = self.consumer.on_page(Some(page.result));
                            if self.consumer.phase() == Phase::Done {
                                self.channel.close();
                            }
                            if shown.count > 0 {
                                Action::Show(shown)
                            } else {
                                Action::Stop
                            }
                        },
                        None => Action::Stop,
                    }
                } else if self.producer.fetching() {
                    Action::Wait { page: true, line: false }
                } else if self.producer.idle() {
                    Action::Fetch(self.producer.fetch())
                } else {
                    let _ = self.consumer.on_page(None);
                    self.channel.close();
                    Action::Stop
                }
            },
            Phase::AwaitingInput => {
                if !self.prompted {
                    self.prompted = true;
                    Action::Prompt(self.consumer.total())
                } else if self.producer.idle() && !self.channel.is_full() {
                    Action::Fetch(self.producer.fetch())
                } else {
                    Action::Wait { page: self.producer.fetching(), line: true }
                }
            },
        }
    }

    /// Takes the page that the request under way has returned. It waits in
    /// the channel until the display loop comes to it; once the loop is
    /// done, it is dropped.
    pub fn fetched(&mut self, result: SearchResult)
        requires
            old(self)@.coherent(),
            old(self)@.producer.fetching,
        ensures
            final(self)@ == old(self)@.fetched(result),
            final(self)@.coherent(),
    {
        proof {
            fetched_stays_coherent(self@, result);
        }
        let page = Page { number: self.producer.next_page(), result };
        match self.channel.send(page) {
            Ok(()) => self.producer.sent(true),
            Err(_) => self.producer.sent(false),
        }
    }

    /// Takes the line that the user has typed at the prompt, and answers it.
    pub fn typed(&mut self, line: &str) -> (reply: Reply)
        requires
            old(self)@.coherent(),
            old(self)@.consumer.phase == Phase::AwaitingInput,
        ensures
            final(self)@ == old(self)@.typed(line@),
            final(self)@.coherent(),
            old(self)@.consumer.answers(line@, reply),
    {
        proof {
            typed_stays_coherent(self@, line@);
        }
        let reply = self.consumer.on_input(line);
        self.prompted = false;
        if self.consumer.phase() == Phase::Done {
            self.channel.close();
        }
        reply
    }
}

} // verus!
