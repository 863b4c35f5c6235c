//! The prefetch channel: a first-in, first-out queue of fetched pages that
//! holds two pages at most and can be closed from its receiving end.

use crate::search::{SearchResult, PAGES_QUEUE_SIZE};
use vstd::prelude::*;

verus! {

/// A fetched page, with the number under which it was requested.
#[derive(Debug)]
pub struct Page {
    pub number: usize,
    pub result: SearchResult,
}

/// The channel as contracts see it.
pub struct ChannelView {
    /// The pages sent and not yet received, oldest first.
    pub queue: Seq<Page>,
    /// Whether the receiving end has been closed.
    pub closed: bool,
}

impl ChannelView {
    /// The channel never holds more pages than its capacity, and none once
    /// it is closed.
    pub open spec fn bounded(self) -> bool {
        &&& self.queue.len() <= PAGES_QUEUE_SIZE
        &&& self.closed ==> self.queue.len() == 0
    }
}

/// Why a page was not taken by the channel. The page comes back.
#[derive(Debug)]
pub enum SendError {
    /// The channel holds as many pages as it can: the sender has to wait.
    Full(Page),
    /// The receiving end is closed: the sender has to stop.
    Closed(Page),
}

/// The prefetch channel.
pub struct PrefetchChannel {
    queue: Vec<Page>,
    closed: bool,
}

impl View for PrefetchChannel {
    type V = ChannelView;

    closed spec fn view(&self) -> ChannelView {
        ChannelView { queue: self.queue@, closed: self.closed }
    }
}

impl PrefetchChannel {
    /// An open channel without pages.
    pub fn new() -> (channel: PrefetchChannel)
        ensures
            channel@.queue == Seq::<Page>::empty(),
            !channel@.closed,
            channel@.bounded(),
    {
        PrefetchChannel { queue: Vec::new(), closed: false }
    }

    /// The number of pages that wait in the channel.
    pub fn len(&self) -> (len: usize)
        ensures
            len == self@.queue.len(),
    {
        self.queue.len()
    }

    /// Whether the receiving end has been closed.
    pub fn is_closed(&self) -> (closed: bool)
        ensures
            closed == self@.closed,
    {
        self.closed
    }

    /// Whether the channel holds as many pages as it can.
    pub fn is_full(&self) -> (full: bool)
        ensures
            full == (self@.queue.len() >= PAGES_QUEUE_SIZE),
    {
        self.queue.len() >= PAGES_QUEUE_SIZE
    }

    /// Puts `page` behind the pages that wait. A closed channel and a full
    /// channel hand the page back and stay as they are.
    pub fn send(&mut self, page: Page) -> (sent: Result<(), SendError>)
        requires
            old(self)@.bounded(),
        ensures
            final(self)@.bounded(),
            old(self)@.closed ==> sent == Err::<(), SendError>(SendError::Closed(page))
                && final(self)@ == old(self)@,
            !old(self)@.closed && old(self)@.queue.len() >= PAGES_QUEUE_SIZE ==> sent == Err::<
                (),
                SendError,
            >(SendError::Full(page)) && final(self)@ == old(self)@,
            !old(self)@.closed && old(self)@.queue.len() < PAGES_QUEUE_SIZE ==> sent is Ok
                && final(self)@ == (ChannelView {
                queue: old(self)@.queue.push(page),
                closed: false,
            }),
    {
        if self.closed {
            Err(SendError::Closed(page))
        } else if self.queue.len() >= PAGES_QUEUE_SIZE {
            Err(SendError::Full(page))
        } else {
            self.queue.push(page);
            Ok(())
        }
    }

    /// Takes the page that has waited longest; `None` when none waits.
    pub fn receive(&mut self) -> (page: Option<Page>)
        requires
            old(self)@.bounded(),
        ensures
            final(self)@.bounded(),
            old(self)@.queue.len() == 0 ==> page is None && final(self)@ == old(self)@,
            old(self)@.queue.len() > 0 ==> page == Some(old(self)@.queue[0]) && final(self)@ == (
            ChannelView { queue: old(self)@.queue.drop_first(), closed: old(self)@.closed }),
    {
        if self.queue.len() == 0 {
            None
        } else {
            let page = self.queue.remove(0);
            assert(self.queue@ =~= old(self)@.queue.drop_first());
            Some(page)
        }
    }

    /// Closes the receiving end. The pages that wait are dropped, and every
    /// later `send` is refused.
    pub fn close(&mut self)
        ensures
            final(self)@ == (ChannelView { queue: Seq::empty(), closed: true }),
            final(self)@.bounded(),
    {
        self.queue.clear();
        self.closed = true;
    }
}

} // verus!
