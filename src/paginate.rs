//! Walking a paginated API one page at a time.
//!
//! [`Pager`] makes the decisions of a stream of items over a paginated API;
//! the runtime that drives it sends the requests and hands back what came.
use std::collections::VecDeque;

use vstd::prelude::*;
use vstd::string::StringExecFns;

verus! {

/// A failure to fetch a page.
#[derive(Debug, Clone)]
pub struct PaginationError {
    message: String,
    source: Option<String>,
}

impl PaginationError {
    /// What went wrong.
    pub closed spec fn message_spec(&self) -> Seq<char> {
        self.message@
    }

    /// The message of the error that caused this one, if any.
    pub closed spec fn source_spec(&self) -> Option<Seq<char>> {
        match self.source {
            Some(s) => Some(s@),
            None => None,
        }
    }

    /// A page request that failed with `message`, and the message of the
    /// error that caused it, if any.
    pub fn new(message: String, source: Option<String>) -> (r: Self)
        ensures
            r.message_spec() == message@,
            r.source_spec() == match source {
                Some(s) => Some(s@),
                None => None::<Seq<char>>,
            },
    {
        PaginationError { message, source }
    }

    /// The error's text: `Pagination error: ` and the message.
    pub fn text(&self) -> (r: String)
        ensures
            r@ == "Pagination error: "@ + self.message_spec(),
    {
        let mut out = "Pagination error: ".to_owned();
        out.append(self.message.as_str());
        out
    }

    /// The message of the error that caused this one, if any.
    pub fn source(&self) -> (r: Option<&str>)
        ensures
            r is Some <==> self.source_spec() is Some,
            r is Some ==> r.unwrap()@ == self.source_spec().unwrap(),
    {
        match &self.source {
            Some(s) => Some(s.as_str()),
            None => None,
        }
    }
}

/// One page of a response: its items, and the pagination fields beside them.
#[derive(Debug, Clone)]
pub struct PaginatedData<T, P> {
    /// The items of this page.
    pub data: Vec<T>,
    /// Pagination information.
    pub paginate: P,
}

impl<T, P> PaginatedData<T, P> {
    /// Take the items of this page, leaving none behind.
    pub fn items(&mut self) -> (r: Vec<T>)
        ensures
            r@ == old(self).data@,
            final(self).data@.len() == 0,
            final(self).paginate == old(self).paginate,
    {
        let mut items = Vec::new();
        std::mem::swap(&mut self.data, &mut items);
        items
    }
}

/// Where a paginated stream stands.
#[derive(Debug)]
pub enum PageState<T> {
    /// The next page is to be requested.
    Query,
    /// Items of the last page remain to be handed out.
    Buffered(VecDeque<T>),
    /// A page request is running.
    Requesting,
    /// The stream has ended.
    Done,
}

/// What the driver of a [`Pager`] does after a poll.
#[derive(Debug)]
pub enum PollStep<T> {
    /// Hand out this item.
    Item(T),
    /// The stream has ended.
    Finished,
    /// Send the request for the next page, then poll again.
    Fetch,
    /// Poll again.
    Again,
    /// A request is running: wait for its outcome.
    Waiting,
}

/// The decisions of a stream of items over a paginated API.
#[derive(Debug)]
pub struct Pager<T> {
    state: PageState<T>,
    more: bool,
}

impl<T> Pager<T> {
    /// The items waiting to be handed out.
    pub closed spec fn buffered(&self) -> Seq<T> {
        match self.state {
            PageState::Buffered(q) => q@,
            _ => Seq::empty(),
        }
    }

    /// The next page is to be requested.
    pub closed spec fn querying(&self) -> bool {
        self.state is Query
    }

    /// A request is running.
    pub closed spec fn requesting(&self) -> bool {
        self.state is Requesting
    }

    /// The stream has ended.
    pub closed spec fn done(&self) -> bool {
        self.state is Done
    }

    /// Items of a page are being handed out.
    pub closed spec fn draining(&self) -> bool {
        self.state is Buffered
    }

    /// A request for a further page is known.
    pub closed spec fn has_more(&self) -> bool {
        self.more
    }

    /// A stream whose first page is yet to be requested.
    pub fn new() -> (r: Self)
        ensures
            r.querying(),
            r.has_more(),
    {
        Pager { state: PageState::Query, more: true }
    }

    /// The next step of the stream.
    ///
    /// A stream ends when no further page is known. Items of a page come
    /// out in the page's order; once they are all out, the next page is
    /// requested.
    pub fn poll(&mut self) -> (r: PollStep<T>)
        ensures
            old(self).querying() && !old(self).has_more() ==> r is Finished && final(self).done(),
            old(self).querying() && old(self).has_more() ==> r is Fetch
                && final(self).requesting() && final(self).has_more(),
            old(self).draining() && old(self).buffered().len() > 0 ==> r == PollStep::Item(
                old(self).buffered()[0],
            ) && final(self).draining()
                && final(self).buffered() == old(self).buffered().drop_first()
                && final(self).has_more() == old(self).has_more(),
            old(self).draining() && old(self).buffered().len() == 0 ==> r is Again
                && final(self).querying() && final(self).has_more() == old(self).has_more(),
            old(self).requesting() ==> r is Waiting && *final(self) == *old(self),
            old(self).done() ==> r is Finished && final(self).done(),
    {
        match &mut self.state {
            PageState::Query => {
                if self.more {
                    self.state = PageState::Requesting;
                    PollStep::Fetch
                } else {
                    self.state = PageState::Done;
                    PollStep::Finished
                }
            },
            PageState::Buffered(items) => {
                match items.pop_front() {
                    Some(item) => PollStep::Item(item),
                    None => {
                        self.state = PageState::Query;
                        PollStep::Again
                    },
                }
            },
            PageState::Requesting => PollStep::Waiting,
            PageState::Done => PollStep::Finished,
        }
    }

    /// A page arrived with `items`; `next` tells whether it names a further page.
    pub fn page(&mut self, items: Vec<T>, next: bool)
        requires
            old(self).requesting(),
        ensures
            final(self).draining(),
            final(self).buffered() == items@,
            final(self).has_more() == (old(self).has_more() && next),
    {
        let mut queue: VecDeque<T> = VecDeque::new();
        let mut items = items;
        let ghost all = items@;
        while items.len() > 0
            invariant
                queue@ + items@ == all,
            decreases items.len(),
        {
            let ghost before = items@;
            let item = items.remove(0);
            queue.push_back(item);
            assert(queue@ + items@ =~= all) by {
                assert(before =~= seq![item] + items@);
            }
        }
        assert(queue@ =~= all);
        self.state = PageState::Buffered(queue);
        self.more = self.more && next;
    }

    /// The request could not be built, or the API answered with no page:
    /// the stream ends.
    pub fn stop(&mut self)
        ensures
            final(self).done(),
    {
        self.state = PageState::Done;
    }
}

} // verus!
