//! The queue between the key reader and the search worker: bounded, in
//! order, read by one consumer.

use vstd::prelude::*;
use crate::state::{Query, State};

verus! {

/// How many queries the session's queue holds before a sender has to wait.
pub const QUERY_CAPACITY: usize = 10;

/// Why a query was not queued. Either way the query comes back.
#[derive(Debug, PartialEq, Eq)]
pub enum SendError {
    /// The queue is full: the sender has to wait for the worker.
    Full(State),
    /// The queue was closed.
    Closed(State),
}

/// What the consumer finds at the head of the queue.
#[derive(Debug, PartialEq, Eq)]
pub enum Received {
    /// The oldest query.
    Query(State),
    /// Nothing yet; more may come.
    Empty,
    /// Nothing, and nothing will come.
    Closed,
}

/// The queue of query snapshots.
#[derive(Debug)]
pub struct QueryChannel {
    queue: Vec<State>,
    capacity: usize,
    closed: bool,
}

/// The queries of `queue` as contracts see them.
pub open spec fn queries(queue: Seq<State>) -> Seq<Query> {
    queue.map_values(|state: State| state@)
}

impl QueryChannel {
    /// The queries waiting, oldest first.
    pub closed spec fn pending(&self) -> Seq<Query> {
        queries(self.queue@)
    }

    /// How many queries may wait at once.
    pub closed spec fn capacity(&self) -> nat {
        self.capacity as nat
    }

    /// Whether the sending end was dropped.
    pub closed spec fn is_closed(&self) -> bool {
        self.closed
    }

    /// No more queries wait than the queue has room for.
    pub open spec fn well_formed(&self) -> bool {
        self.pending().len() <= self.capacity()
    }

    /// An open, empty queue with room for `capacity` queries.
    pub fn new(capacity: usize) -> (channel: QueryChannel)
        ensures
            channel.pending() == Seq::<Query>::empty(),
            channel.capacity() == capacity,
            !channel.is_closed(),
            channel.well_formed(),
    {
        let channel = QueryChannel { queue: Vec::new(), capacity, closed: false };
        assert(channel.pending() =~= Seq::<Query>::empty());
        channel
    }

    /// How many queries wait.
    pub fn len(&self) -> (count: usize)
        ensures
            count == self.pending().len(),
    {
        self.queue.len()
    }

    /// Whether the sending end was dropped.
    pub fn closed(&self) -> (closed: bool)
        ensures
            closed == self.is_closed(),
    {
        self.closed
    }

    /// Queues `query` behind all that wait, unless the queue is closed or
    /// full.
    pub fn send(&mut self, query: State) -> (sent: Result<(), SendError>)
        ensures
            final(self).capacity() == old(self).capacity(),
            final(self).is_closed() == old(self).is_closed(),
            old(self).well_formed() ==> final(self).well_formed(),
            sent is Ok <==> !old(self).is_closed() && old(self).pending().len() < old(self).capacity(),
            sent is Ok ==> final(self).pending() == old(self).pending().push(query@),
            sent is Err ==> final(self).pending() == old(self).pending(),
            sent matches Err(SendError::Closed(back)) ==> old(self).is_closed() && back == query,
            sent matches Err(SendError::Full(back)) ==> !old(self).is_closed() && back == query,
    {
        if self.closed {
            return Err(SendError::Closed(query));
        }
        if self.queue.len() >= self.capacity {
            return Err(SendError::Full(query));
        }
        self.queue.push(query);
        assert(self.pending() =~= old(self).pending().push(query@));
        Ok(())
    }

    /// Takes the oldest query. A closed queue still hands out what waits in
    /// it.
    pub fn recv(&mut self) -> (received: Received)
        ensures
            final(self).capacity() == old(self).capacity(),
            final(self).is_closed() == old(self).is_closed(),
            old(self).well_formed() ==> final(self).well_formed(),
            match received {
                Received::Query(query) => old(self).pending().len() > 0 && query@ == old(self).pending().first() && final(self).pending() == old(self).pending().drop_first(),
                Received::Empty => old(self).pending().len() == 0 && !old(self).is_closed()
                    && final(self).pending() == old(self).pending(),
                Received::Closed => old(self).pending().len() == 0 && old(self).is_closed()
                    && final(self).pending() == old(self).pending(),
            },
    {
        if self.queue.len() > 0 {
            let query = self.queue.remove(0);
            assert(self.pending() =~= old(self).pending().drop_first());
            Received::Query(query)
        } else if self.closed {
            Received::Closed
        } else {
            Received::Empty
        }
    }

    /// Drops the sending end: what waits stays, nothing more is taken in.
    pub fn close(&mut self)
        ensures
            final(self).is_closed(),
            final(self).capacity() == old(self).capacity(),
            final(self).pending() == old(self).pending(),
    {
        self.closed = true;
    }
}

/// What is left of `pending` once the `count` oldest queries are taken.
pub open spec fn after_receiving(pending: Seq<Query>, count: nat) -> Seq<Query>
    decreases count,
{
    if count == 0 || pending.len() == 0 {
        pending
    } else {
        after_receiving(pending.drop_first(), (count - 1) as nat)
    }
}

/// Taking `count` queries from the head takes the first `count`.
pub proof fn receiving_takes_the_head(pending: Seq<Query>, count: nat)
    requires
        count <= pending.len(),
    ensures
        after_receiving(pending, count) == pending.subrange(count as int, pending.len() as int),
    decreases count,
{
    if count == 0 {
        assert(pending.subrange(0, pending.len() as int) =~= pending);
    } else {
        receiving_takes_the_head(pending.drop_first(), (count - 1) as nat);
        assert(pending.drop_first().subrange(count - 1, pending.len() - 1) =~= pending.subrange(
            count as int,
            pending.len() as int,
        ));
    }
}

/// Queries leave the queue in the order in which they were sent: of two
/// sent one after the other, once all that waited before them are taken, the
/// first sent is at the head and the second right behind it.
pub proof fn queries_leave_in_order(pending: Seq<Query>, first: Query, second: Query)
    ensures
        after_receiving(pending.push(first).push(second), pending.len()) == seq![first, second],
        after_receiving(pending.push(first).push(second), pending.len() + 1) == seq![second],
        after_receiving(pending.push(first).push(second), pending.len() + 2) == Seq::<
            Query,
        >::empty(),
{
    let all = pending.push(first).push(second);
    receiving_takes_the_head(all, pending.len());
    receiving_takes_the_head(all, pending.len() + 1);
    receiving_takes_the_head(all, pending.len() + 2);
    assert(all.subrange(pending.len() as int, all.len() as int) =~= seq![first, second]);
    assert(all.subrange(pending.len() as int + 1, all.len() as int) =~= seq![second]);
    assert(all.subrange(pending.len() as int + 2, all.len() as int) =~= Seq::<Query>::empty());
}

} // verus!
