//! The event bus: a multi-producer, multi-consumer broadcast topic of
//! packets. A publish is visible to every subscription active at publish
//! time; per subscriber, packets arrive in publish order; a subscriber that
//! falls more than the history bound behind is told how much it missed
//! instead of silently skipping.

use vstd::prelude::*;

use crate::packet::Packet;
use crate::packet::PacketView;

verus! {

/// The broadcast topic: the full publish log, and the bound on how far a
/// subscriber may fall behind before deliveries are dropped.
pub struct Bus {
    log: Vec<Packet>,
    capacity: usize,
}

/// Mathematical view of a bus: every packet ever published, in publish order.
pub struct BusView {
    pub log: Seq<PacketView>,
    pub capacity: nat,
}

impl View for Bus {
    type V = BusView;

    closed spec fn view(&self) -> BusView {
        BusView {
            log: self.log@.map_values(|p: Packet| p@),
            capacity: self.capacity as nat,
        }
    }
}

/// One subscription: a cursor into the bus's publish log, marking the next
/// packet this subscriber will observe.
pub struct Subscription {
    next: usize,
}

impl Subscription {
    /// The log position of the next packet this subscription will observe.
    pub closed spec fn cursor(&self) -> int {
        self.next as int
    }

    /// The cursor never points past the end of the log.
    pub open spec fn wf(&self, bus: &Bus) -> bool {
        0 <= self.cursor() <= bus@.log.len()
    }
}

/// What one poll of a subscription yields: nothing published yet (the caller
/// suspends), a dropped-segment notice with the number of packets missed, or
/// the next packet.
pub enum RecvOutcome {
    Pending,
    Lagged(usize),
    Delivered(Packet),
}

/// One observation step of a subscription: with the cursor at `pre`, the
/// packet at log position `idx` is handed out and the cursor advances to
/// `post`.
pub open spec fn delivery_step(log_len: int, pre: int, post: int, idx: int) -> bool {
    idx == pre && post == pre + 1 && 0 <= idx < log_len
}

impl Bus {
    /// A fresh bus with the given history bound and an empty log.
    pub fn new(capacity: usize) -> (r: Bus)
        requires
            capacity >= 1,
        ensures
            r@.log == Seq::<PacketView>::empty(),
            r@.capacity == capacity,
    {
        let r = Bus { log: Vec::new(), capacity };
        proof {
            assert(r@.log =~= Seq::<PacketView>::empty());
        }
        r
    }

    /// Publishes a packet: appends it to the log, making it visible to every
    /// current subscription. Never blocks the publisher.
    pub fn publish(&mut self, p: Packet)
        ensures
            final(self)@.log == old(self)@.log.push(p@),
            final(self)@.capacity == old(self)@.capacity,
    {
        let ghost pre = self@;
        self.log.push(p);
        proof {
            assert(self@.log =~= pre.log.push(self.log@.last()@));
        }
    }

    /// A subscription created now observes exactly the packets published
    /// after this call, never earlier ones.
    pub fn subscribe(&self) -> (r: Subscription)
        ensures
            r.cursor() == self@.log.len(),
            r.wf(self),
    {
        Subscription { next: self.log.len() }
    }
}

impl Subscription {
    /// One poll against the bus. Pending exactly when nothing new is
    /// published; a lag notice exactly when the subscriber fell further
    /// behind than the history bound, with the cursor skipped to the oldest
    /// retained packet; otherwise the packet at the cursor, with the cursor
    /// moved past it. The cursor never moves backward.
    pub fn poll(&mut self, bus: &Bus) -> (r: RecvOutcome)
        requires
            old(self).wf(bus),
        ensures
            final(self).wf(bus),
            final(self).cursor() >= old(self).cursor(),
            (r is Pending) <==> old(self).cursor() == bus@.log.len(),
            r is Pending ==> final(self).cursor() == old(self).cursor(),
            (r is Lagged) <==> bus@.log.len() - old(self).cursor() > bus@.capacity,
            r is Lagged ==> final(self).cursor() == bus@.log.len() - bus@.capacity,
            r is Lagged ==> r == RecvOutcome::Lagged(
                (bus@.log.len() - bus@.capacity - old(self).cursor()) as usize,
            ),
            (r is Delivered) <==> (old(self).cursor() < bus@.log.len()
                && bus@.log.len() - old(self).cursor() <= bus@.capacity),
            r matches RecvOutcome::Delivered(p) ==> p@ == bus@.log[old(self).cursor()]
                && final(self).cursor() == old(self).cursor() + 1
                && delivery_step(
                bus@.log.len() as int,
                old(self).cursor(),
                final(self).cursor(),
                old(self).cursor(),
            ),
    {
        let len = bus.log.len();
        if self.next == len {
            return RecvOutcome::Pending;
        }
        if len - self.next > bus.capacity {
            let missed = len - bus.capacity - self.next;
            self.next = len - bus.capacity;
            RecvOutcome::Lagged(missed)
        } else {
            let p = bus.log[self.next].clone();
            self.next = self.next + 1;
            RecvOutcome::Delivered(p)
        }
    }
}

/// For any two packets published in order — the earlier one standing at a
/// smaller position of the publish log — every subscription that delivers
/// both delivers the earlier one first: a delivery hands out exactly the
/// packet at the cursor and moves the cursor past it, and between the two
/// deliveries the cursor never moves backward, so the observed positions
/// strictly increase.
pub proof fn lemma_per_subscriber_fifo(
    log_len1: int,
    pre1: int,
    post1: int,
    i: int,
    log_len2: int,
    pre2: int,
    post2: int,
    j: int,
)
    requires
        delivery_step(log_len1, pre1, post1, i),
        post1 <= pre2,
        delivery_step(log_len2, pre2, post2, j),
    ensures
        i < j,
{
}

} // verus!
