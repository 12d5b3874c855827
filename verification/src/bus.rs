//! The per-shard fan-out bus.
//!
//! One writer — the session loop — publishes relayed frames; any
//! number of subscribers read them independently. The bus retains only
//! a bounded window of recent messages: a subscriber that falls
//! behind the window is told exactly how many messages it missed, once,
//! and then reads on in order from the oldest retained message. The
//! publisher never waits for a slow subscriber.

use vstd::prelude::*;

use crate::session::BroadcastMessage;

verus! {

/// A single-writer, multi-reader lossy broadcast channel.
pub struct Bus {
    capacity: usize,
    dropped: u64,
    queue: Vec<BroadcastMessage>,
    hist: Ghost<Seq<BroadcastMessage>>,
}

/// One subscriber's read position: the index, in the bus's whole
/// publication history, of the next message it wants.
pub struct Subscriber {
    pub cursor: u64,
}

/// One read attempt by a subscriber.
pub enum BusPoll {
    /// The next message, in publication order.
    Item(BroadcastMessage),
    /// The subscriber fell behind the retained window: this many
    /// messages were dropped on its behalf.
    Lagged(u64),
    /// Nothing published beyond the subscriber's position yet.
    Empty,
}

impl Bus {
    /// Everything ever published on this bus, oldest first.
    pub closed spec fn published(&self) -> Seq<BroadcastMessage> {
        self.hist@
    }

    /// The publication index of the oldest message still retained.
    pub closed spec fn first_retained(&self) -> int {
        self.dropped as int
    }

    /// How many recent messages the bus retains for slow subscribers.
    pub closed spec fn spec_capacity(&self) -> int {
        self.capacity as int
    }

    /// The bus's internal consistency: the retained window is the tail
    /// of the publication history, never larger than the capacity.
    pub closed spec fn wf(&self) -> bool {
        &&& self.capacity > 0
        &&& self.queue@.len() <= self.capacity
        &&& self.hist@.len() == self.dropped + self.queue@.len()
        &&& self.hist@.len() <= u64::MAX
        &&& forall|i: int|
            0 <= i < self.queue@.len() ==> self.queue@[i] == self.hist@[self.dropped + i]
    }

    /// An empty bus retaining at most `capacity` messages.
    pub fn new(capacity: usize) -> (b: Bus)
        requires
            capacity > 0,
        ensures
            b.wf(),
            b.published().len() == 0,
            b.spec_capacity() == capacity,
    {
        Bus { capacity, dropped: 0, queue: Vec::new(), hist: Ghost(Seq::empty()) }
    }

    /// Publish one message: it is appended to the history, and if the
    /// retained window was full the oldest retained message is dropped.
    /// Publishing never waits.
    pub fn publish(&mut self, m: BroadcastMessage)
        requires
            old(self).wf(),
            old(self).published().len() < u64::MAX,
        ensures
            final(self).wf(),
            final(self).published() == old(self).published().push(m),
            final(self).spec_capacity() == old(self).spec_capacity(),
            final(self).first_retained() >= old(self).first_retained(),
    {
        if self.queue.len() == self.capacity {
            let _ = self.queue.remove(0);
            self.dropped = self.dropped + 1;
        }
        self.queue.push(m);
        proof {
            self.hist@ = self.hist@.push(m);
        }
    }

    /// Attach a new subscriber: it sees only messages published from
    /// now on.
    pub fn subscribe(&self) -> (s: Subscriber)
        requires
            self.wf(),
        ensures
            s.cursor == self.published().len(),
    {
        let position = self.dropped + self.queue.len() as u64;
        Subscriber { cursor: position }
    }

    /// One read attempt for `sub`, in the ghost model: what `poll`
    /// returns and where the cursor lands.
    pub open spec fn spec_poll(&self, cursor: int) -> (BusPoll, int) {
        if cursor < self.first_retained() {
            (BusPoll::Lagged((self.first_retained() - cursor) as u64), self.first_retained())
        } else if cursor < self.published().len() {
            (BusPoll::Item(self.published()[cursor]), cursor + 1)
        } else {
            (BusPoll::Empty, cursor)
        }
    }

    /// Read the next message for `sub`. A subscriber that fell behind
    /// the retained window is told how many messages it missed —
    /// exactly once — and resumes, in order and without duplicates,
    /// from the oldest retained message.
    pub fn poll(&self, sub: &mut Subscriber) -> (r: BusPoll)
        requires
            self.wf(),
            old(sub).cursor <= self.published().len(),
        ensures
            (r, final(sub).cursor as int) == self.spec_poll(old(sub).cursor as int),
            final(sub).cursor <= self.published().len(),
    {
        if sub.cursor < self.dropped {
            let missed = self.dropped - sub.cursor;
            sub.cursor = self.dropped;
            BusPoll::Lagged(missed)
        } else {
            let offset = sub.cursor - self.dropped;
            if (offset as usize) < self.queue.len() {
                let at = offset as usize;
                let m = BroadcastMessage {
                    payload: self.queue[at].payload.clone(),
                    sequence: self.queue[at].sequence,
                };
                sub.cursor = sub.cursor + 1;
                BusPoll::Item(m)
            } else {
                BusPoll::Empty
            }
        }
    }
}

/// A lag is indicated exactly once: the poll that reports a gap moves
/// the cursor back into the retained window, so the following poll on
/// an unchanged bus cannot report a gap again — it delivers the oldest
/// retained message (or finds the bus drained), in order.
pub proof fn lemma_lag_reported_once(b: Bus, cursor: int)
    requires
        b.wf(),
        0 <= cursor <= b.published().len(),
        b.spec_poll(cursor).0 is Lagged,
    ensures
        !(b.spec_poll(b.spec_poll(cursor).1).0 is Lagged),
        b.first_retained() < b.published().len() ==> b.spec_poll(b.spec_poll(cursor).1).0
            == BusPoll::Item(b.published()[b.first_retained()]),
{
}

/// Between gaps, delivery is the publication history itself: a poll
/// whose cursor is inside the retained window returns exactly the
/// message at that position and advances by one — no duplicate, no
/// reordering, no silent skip.
pub proof fn lemma_in_order_delivery(b: Bus, cursor: int)
    requires
        b.wf(),
        b.first_retained() <= cursor < b.published().len(),
    ensures
        b.spec_poll(cursor).0 == BusPoll::Item(b.published()[cursor]),
        b.spec_poll(cursor).1 == cursor + 1,
{
}

} // verus!
