//! The producer: it asks for the pages in their order, one at a time, from
//! page 1 upward, until a page of its is refused.

use crate::search::fetcher::{search_headers, search_query, search_request, PageRequest};
use crate::text::pair_views;
use crate::search::DEFAULT_SEARCH_URL;
use vstd::prelude::*;
use vstd::string::StringExecFns;

verus! {

/// The producer as contracts see it.
pub struct ProducerView {
    /// Where the requests go.
    pub url: Seq<char>,
    /// What is searched for.
    pub terms: Seq<char>,
    /// How many hits are asked for with each page.
    pub page_size: nat,
    /// The number of the page that is asked for next, or is being fetched.
    pub next_page: nat,
    /// Whether a request is under way.
    pub fetching: bool,
    /// Whether a page was refused, which ends the producer.
    pub stopped: bool,
}

impl ProducerView {
    /// The producer before its first request.
    pub open spec fn start(url: Seq<char>, terms: Seq<char>, page_size: nat) -> ProducerView {
        ProducerView { url, terms, page_size, next_page: 1, fetching: false, stopped: false }
    }

    /// What holds of the producer at all times.
    pub open spec fn valid(self) -> bool {
        &&& 1 <= self.next_page <= usize::MAX
        &&& self.page_size <= usize::MAX
        &&& self.fetching ==> !self.stopped && self.next_page < usize::MAX
    }

    /// Whether the producer can ask for a page: it is not waiting for one,
    /// has not stopped, and can still count the page after this one.
    pub open spec fn idle(self) -> bool {
        !self.fetching && !self.stopped && self.next_page < usize::MAX
    }

    /// The producer after it has asked for its next page.
    pub open spec fn fetch_step(self) -> ProducerView {
        ProducerView { fetching: true, ..self }
    }

    /// The producer after it has handed on the page it fetched: it goes on
    /// to the next page if the page was taken, and stops if it was refused.
    pub open spec fn sent_step(self, accepted: bool) -> ProducerView {
        if accepted {
            ProducerView { fetching: false, next_page: self.next_page + 1, ..self }
        } else {
            ProducerView { fetching: false, stopped: true, ..self }
        }
    }

    /// The producer after `accepted` pages were fetched and taken.
    pub open spec fn after(self, accepted: nat) -> ProducerView
        decreases accepted,
    {
        if accepted == 0 {
            self
        } else {
            self.after((accepted - 1) as nat).fetch_step().sent_step(true)
        }
    }
}

/// The pages are asked for in their order: after `accepted` pages, counted
/// from the start, the next request is for the page `accepted + 1`. So the
/// requests begin with page 1, and no number is left out or asked for twice.
pub proof fn producer_counts_pages(
    url: Seq<char>,
    terms: Seq<char>,
    page_size: nat,
    accepted: nat,
)
    ensures
        ProducerView::start(url, terms, page_size).after(accepted).next_page == accepted + 1,
        !ProducerView::start(url, terms, page_size).after(accepted).fetching,
        !ProducerView::start(url, terms, page_size).after(accepted).stopped,
    decreases accepted,
{
    if accepted > 0 {
        producer_counts_pages(url, terms, page_size, (accepted - 1) as nat);
    }
}

/// The producer.
pub struct Producer {
    url: String,
    terms: String,
    page_size: usize,
    next_page: usize,
    fetching: bool,
    stopped: bool,
}

impl View for Producer {
    type V = ProducerView;

    closed spec fn view(&self) -> ProducerView {
        ProducerView {
            url: self.url@,
            terms: self.terms@,
            page_size: self.page_size as nat,
            next_page: self.next_page as nat,
            fetching: self.fetching,
            stopped: self.stopped,
        }
    }
}

impl Producer {
    /// A producer that searches for `terms` at `search_url`, or at the
    /// default place, and asks for `page_size` hits with each page.
    pub fn new(search_url: Option<String>, terms: String, page_size: usize) -> (producer: Producer)
        ensures
            producer@ == ProducerView::start(
                match search_url {
                    Some(url) => url@,
                    None => DEFAULT_SEARCH_URL@,
                },
                terms@,
                page_size as nat,
            ),
            producer@.valid(),
    {
        let url = match search_url {
            Some(url) => url,
            None => String::from_str(DEFAULT_SEARCH_URL),
        };
        Producer { url, terms, page_size, next_page: 1, fetching: false, stopped: false }
    }

    /// Whether the producer can ask for a page.
    pub fn idle(&self) -> (idle: bool)
        ensures
            idle == self@.idle(),
    {
        !self.fetching && !self.stopped && self.next_page < usize::MAX
    }

    /// Whether a request is under way.
    pub fn fetching(&self) -> (fetching: bool)
        ensures
            fetching == self@.fetching,
    {
        self.fetching
    }

    /// The number of the page that is asked for next, or is being fetched.
    pub fn next_page(&self) -> (page: usize)
        ensures
            page == self@.next_page,
    {
        self.next_page
    }

    /// Asks for the next page: the request is for the page `next_page`, and
    /// the producer waits for it.
    pub fn fetch(&mut self) -> (request: PageRequest)
        requires
            old(self)@.valid(),
            old(self)@.idle(),
        ensures
            final(self)@ == old(self)@.fetch_step(),
            final(self)@.valid(),
            request.url@ == old(self)@.url,
            request.page == old(self)@.next_page,
            pair_views(request.headers@) == search_headers(),
            pair_views(request.query@) == search_query(
                old(self)@.terms,
                old(self)@.page_size,
                old(self)@.next_page,
            ),
    {
        self.fetching = true;
        search_request(self.url.as_str(), self.terms.as_str(), self.page_size, self.next_page)
    }

    /// Takes note of what became of the page that was fetched: the producer
    /// goes on to the next page if the channel took it, and stops for good
    /// if the channel refused it.
    pub fn sent(&mut self, accepted: bool)
        requires
            old(self)@.valid(),
            old(self)@.fetching,
        ensures
            final(self)@ == old(self)@.sent_step(accepted),
            final(self)@.valid(),
    {
        self.fetching = false;
        if accepted {
            self.next_page = self.next_page + 1;
        } else {
            self.stopped = true;
        }
    }
}

} // verus!
