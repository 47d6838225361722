//! The broadcast distributor: one publishing side and any number of
//! independently-paced subscriptions. The distributor retains a bounded
//! backlog of the most recent packets; a subscription that falls further
//! behind is never blocked and never blocks the publisher — its next read
//! reports the lag and it resumes at the oldest retained packet.

use vstd::prelude::*;

verus! {

/// Number of packets the distributor retains for subscribers that fall
/// behind; a subscription further behind than this skips forward.
pub const BACKLOG_CAPACITY: usize = 100;

/// Index of the oldest packet still retained when `len` packets have been
/// published: all but the last `BACKLOG_CAPACITY` are gone.
pub open spec fn backlog_lo(len: int) -> int {
    if len > BACKLOG_CAPACITY {
        len - BACKLOG_CAPACITY
    } else {
        0
    }
}

/// Where a subscription whose cursor is `next` actually resumes reading
/// from a history of `len` packets: at its cursor, unless the backlog has
/// already dropped that far back.
pub open spec fn readable_from(next: int, len: int) -> int {
    if next < backlog_lo(len) {
        backlog_lo(len)
    } else {
        next
    }
}

/// The packets a subscription with cursor `next` observes when it drains
/// the history `log` to the end: everything from its resume point on, in
/// publication order.
pub open spec fn observes(log: Seq<Seq<u8>>, next: int) -> Seq<Seq<u8>> {
    log.subrange(readable_from(next, log.len() as int), log.len() as int)
}

/// The byte sequences a run-time batch of packets holds, in order.
pub open spec fn views_of(packets: Seq<Vec<u8>>) -> Seq<Seq<u8>> {
    packets.map_values(|p: Vec<u8>| p@)
}

/// The fan-out channel between the compression stage and all connected
/// consumers. Conceptually it is the full sequence of packets ever
/// published plus a closed flag; it retains only the most recent
/// `BACKLOG_CAPACITY` packets for delivery.
pub struct Distributor {
    /// Retained window of the most recently published packets, oldest first.
    buf: Vec<Vec<u8>>,
    /// How many packets have been dropped from the front of the history.
    base: u64,
    /// Set once the publishing side has shut down.
    closed: bool,
    /// Every packet ever published, in publication order.
    hist: Ghost<Seq<Seq<u8>>>,
}

/// A handle held by one connected consumer: a cursor into the
/// distributor's history, starting at the moment of subscription.
pub struct Subscription {
    next: u64,
}

/// What one read on a subscription yields.
pub enum RecvResult {
    /// The next packet, in publication order.
    Packet(Vec<u8>),
    /// The subscription fell further behind than the backlog capacity; the
    /// count says how many packets were skipped. The next read resumes at
    /// the oldest retained packet.
    Lagged(u64),
    /// Nothing published yet beyond this cursor; the caller should wait.
    Empty,
    /// The publishing side has shut down and everything published has been
    /// delivered.
    Closed,
}

/// What the per-consumer stream adapter yields: the lag indicator is
/// absorbed by skipping forward, never surfaced and never terminal.
pub enum PollResult {
    /// The next packet this consumer should be sent.
    Item(Vec<u8>),
    /// Nothing available yet; the caller should suspend and poll again.
    Pending,
    /// The stream has ended: the publisher closed and the backlog is drained.
    Finished,
}

impl Subscription {
    /// The position in the distributor's history this subscription will
    /// read next.
    pub closed spec fn cursor(self) -> int {
        self.next as int
    }

    /// The cursor as a run-time value.
    pub fn position(&self) -> (r: u64)
        ensures
            r == self.cursor(),
    {
        self.next
    }
}

impl Distributor {
    /// The full sequence of packets published so far, oldest first.
    pub closed spec fn log(self) -> Seq<Seq<u8>> {
        self.hist@
    }

    /// Whether the publishing side has shut down.
    pub closed spec fn is_closed(self) -> bool {
        self.closed
    }

    /// Well-formedness: the retained window is exactly the most recent
    /// `BACKLOG_CAPACITY` packets of the history (all of it while the
    /// history is still short), element for element.
    pub closed spec fn inv(self) -> bool {
        &&& self.base + self.buf.len() == self.log().len()
        &&& self.log().len() <= u64::MAX
        &&& self.buf.len() <= BACKLOG_CAPACITY
        &&& self.log().len() > BACKLOG_CAPACITY ==> self.buf.len() == BACKLOG_CAPACITY
        &&& self.log().len() <= BACKLOG_CAPACITY ==> self.base == 0
        &&& forall|i: int|
            0 <= i < self.buf.len() ==> self.buf@[i]@ == self.log()[self.base + i]
    }

    /// Creates the process-wide distributor: nothing published, open.
    pub fn new() -> (d: Distributor)
        ensures
            d.inv(),
            d.log() == Seq::<Seq<u8>>::empty(),
            !d.is_closed(),
    {
        Distributor { buf: Vec::new(), base: 0, closed: false, hist: Ghost(Seq::empty()) }
    }

    /// How many packets have been published so far.
    pub fn published_count(&self) -> (r: u64)
        requires
            self.inv(),
        ensures
            r == self.log().len(),
    {
        self.base + self.buf.len() as u64
    }

    /// Whether the publishing side has shut down, as a run-time value.
    pub fn has_closed(&self) -> (r: bool)
        ensures
            r == self.is_closed(),
    {
        self.closed
    }

    /// Publishes one packet: it is appended to the history whatever any
    /// subscription is doing, and the oldest retained packet is dropped
    /// once the backlog is full. The publisher never waits on subscribers.
    pub fn publish(&mut self, packet: Vec<u8>)
        requires
            old(self).inv(),
            !old(self).is_closed(),
            old(self).log().len() < u64::MAX,
        ensures
            final(self).inv(),
            !final(self).is_closed(),
            final(self).log() == old(self).log().push(packet@),
    {
        let ghost p = packet@;
        if self.buf.len() == BACKLOG_CAPACITY {
            self.buf.remove(0);
            self.base = self.base + 1;
        }
        self.buf.push(packet);
        proof {
            self.hist@ = self.hist@.push(p);
        }
    }

    /// Shuts the publishing side down: the history is kept so that
    /// subscriptions can drain what remains, and every later read on a
    /// drained subscription reports the closure.
    pub fn close(&mut self)
        requires
            old(self).inv(),
        ensures
            final(self).inv(),
            final(self).is_closed(),
            final(self).log() == old(self).log(),
    {
        self.closed = true;
    }

    /// Creates a fresh subscription that observes the stream from this
    /// moment on: no replay of anything published before.
    pub fn subscribe(&self) -> (s: Subscription)
        requires
            self.inv(),
        ensures
            s.cursor() == self.log().len(),
    {
        Subscription { next: self.base + self.buf.len() as u64 }
    }

    /// One read on a subscription, in the distributor's own terms: the
    /// next packet in publication order if the cursor is still within the
    /// backlog; the lag indicator (and a skip to the oldest retained
    /// packet) if it is not; otherwise whether the channel is merely empty
    /// for now or closed for good. The distributor itself is untouched.
    pub fn recv(&self, sub: &mut Subscription) -> (r: RecvResult)
        requires
            self.inv(),
            old(sub).cursor() <= self.log().len(),
        ensures
            final(sub).cursor() <= self.log().len(),
            ({
                let lo = backlog_lo(self.log().len() as int);
                if old(sub).cursor() < lo {
                    r matches RecvResult::Lagged(n) && n == lo - old(sub).cursor()
                        && final(sub).cursor() == lo
                } else if old(sub).cursor() < self.log().len() {
                    r matches RecvResult::Packet(p) && p@ == self.log()[old(sub).cursor()]
                        && final(sub).cursor() == old(sub).cursor() + 1
                } else if self.is_closed() {
                    r matches RecvResult::Closed && final(sub).cursor() == old(sub).cursor()
                } else {
                    r matches RecvResult::Empty && final(sub).cursor() == old(sub).cursor()
                }
            }),
    {
        if sub.next < self.base {
            let skipped = self.base - sub.next;
            sub.next = self.base;
            RecvResult::Lagged(skipped)
        } else if sub.next - self.base < self.buf.len() as u64 {
            let idx = (sub.next - self.base) as usize;
            let p = clone_bytes(&self.buf[idx]);
            sub.next = sub.next + 1;
            RecvResult::Packet(p)
        } else if self.closed {
            RecvResult::Closed
        } else {
            RecvResult::Empty
        }
    }

    /// One step of the per-consumer stream adapter: like `recv`, but the
    /// lag indicator is treated as "skip forward, continue" — the read is
    /// retried transparently, so the consumer sees only packets, a request
    /// to wait, or the end of the stream.
    pub fn poll_next(&self, sub: &mut Subscription) -> (r: PollResult)
        requires
            self.inv(),
            old(sub).cursor() <= self.log().len(),
        ensures
            final(sub).cursor() <= self.log().len(),
            ({
                let start = readable_from(old(sub).cursor(), self.log().len() as int);
                if start < self.log().len() {
                    r matches PollResult::Item(p) && p@ == self.log()[start]
                        && final(sub).cursor() == start + 1
                } else if self.is_closed() {
                    r matches PollResult::Finished && final(sub).cursor() == old(sub).cursor()
                } else {
                    r matches PollResult::Pending && final(sub).cursor() == old(sub).cursor()
                }
            }),
    {
        if sub.next < self.base {
            sub.next = self.base;
        }
        if sub.next - self.base < self.buf.len() as u64 {
            let idx = (sub.next - self.base) as usize;
            let p = clone_bytes(&self.buf[idx]);
            sub.next = sub.next + 1;
            PollResult::Item(p)
        } else if self.closed {
            PollResult::Finished
        } else {
            PollResult::Pending
        }
    }

    /// Drains everything currently deliverable to this subscription, in
    /// publication order: exactly the packets `observes` describes, with
    /// the lag skip applied first if the subscription had fallen behind.
    pub fn collect_ready(&self, sub: &mut Subscription) -> (r: Vec<Vec<u8>>)
        requires
            self.inv(),
            old(sub).cursor() <= self.log().len(),
        ensures
            views_of(r@) == observes(self.log(), old(sub).cursor()),
            final(sub).cursor() == self.log().len(),
    {
        let ghost start = readable_from(old(sub).cursor(), self.log().len() as int);
        let mut next: u64 = sub.next;
        if next < self.base {
            next = self.base;
        }
        let mut out: Vec<Vec<u8>> = Vec::new();
        while next - self.base < self.buf.len() as u64
            invariant
                self.inv(),
                self.base <= next,
                0 <= start <= next <= self.log().len(),
                views_of(out@) =~= self.log().subrange(start, next as int),
            decreases self.log().len() - next,
        {
            let idx = (next - self.base) as usize;
            assert(self.buf@[idx as int]@ == self.log()[self.base + idx as int]);
            let ghost out_old = out@;
            let p = clone_bytes(&self.buf[idx]);
            let ghost pv = p@;
            out.push(p);
            next = next + 1;
            proof {
                assert(views_of(out_old).len() == out_old.len());
                assert(out_old.len() == next - 1 - start);
                assert forall|k: int| 0 <= k < out@.len() implies views_of(out@)[k]
                    == self.log().subrange(start, next as int)[k] by {
                    assert(views_of(out@)[k] == out@[k]@);
                    if k < out_old.len() {
                        assert(out@[k] == out_old[k]);
                        assert(views_of(out_old)[k] == out_old[k]@);
                    } else {
                        assert(out@[k]@ == pv);
                    }
                }
                assert(views_of(out@) =~= self.log().subrange(start, next as int));
            }
        }
        sub.next = next;
        assert(views_of(out@) =~= observes(self.log(), old(sub).cursor()));
        out
    }
}

/// Broadcast fan-out law: two subscriptions created before publication
/// begins stand at the same cursor, and as long as the packets published
/// since then stay within the backlog capacity, both observe exactly those
/// packets, all of them, in the identical publication order.
pub proof fn lemma_fanout(log: Seq<Seq<u8>>, a: int, b: int)
    requires
        0 <= a <= log.len(),
        a == b,
        log.len() - a <= BACKLOG_CAPACITY,
    ensures
        observes(log, a) == observes(log, b),
        observes(log, a) == log.subrange(a, log.len() as int),
        observes(log, a).len() == log.len() - a,
{
}

/// Lag recovery law: a subscription that has fallen further behind than
/// the backlog capacity is not terminated; it resumes at the oldest
/// retained packet and still observes every one of the
/// `BACKLOG_CAPACITY` packets the distributor kept, in publication order.
pub proof fn lemma_lag_recovery(log: Seq<Seq<u8>>, next: int)
    requires
        0 <= next < backlog_lo(log.len() as int),
    ensures
        observes(log, next) == log.subrange(backlog_lo(log.len() as int), log.len() as int),
        observes(log, next).len() == BACKLOG_CAPACITY,
{
}

/// Late subscription law: a subscription created when `c` packets had
/// already been published resumes no earlier than `c`, so every packet it
/// observes is one published at position `c` or later — it never sees a
/// packet published before it subscribed.
pub proof fn lemma_late_subscription(log: Seq<Seq<u8>>, c: int)
    requires
        0 <= c <= log.len(),
    ensures
        readable_from(c, log.len() as int) >= c,
        observes(log, c).len() == log.len() - readable_from(c, log.len() as int),
        forall|k: int|
            0 <= k < observes(log, c).len() ==> observes(log, c)[k] == log[readable_from(
                c,
                log.len() as int,
            ) + k],
{
}

/// Non-blocking publish law: publishing appends to the history whatever
/// any subscription's cursor is — the cursor does not appear in the
/// publisher's state change at all — and however many packets an undrained
/// subscription misses, what the distributor owes it never exceeds the
/// backlog capacity, so a consumer that never reads stalls nothing.
pub proof fn lemma_publish_unblocked(log: Seq<Seq<u8>>, more: Seq<Seq<u8>>, next: int)
    requires
        0 <= next <= log.len(),
    ensures
        (log + more).len() == log.len() + more.len(),
        observes(log + more, next).len() <= BACKLOG_CAPACITY,
{
}

/// A byte-for-byte copy of a packet, one copy per subscriber.
fn clone_bytes(v: &Vec<u8>) -> (r: Vec<u8>)
    ensures
        r@ == v@,
{
    let mut out: Vec<u8> = Vec::new();
    let mut i: usize = 0;
    while i < v.len()
        invariant
            i <= v@.len(),
            out@ == v@.subrange(0, i as int),
        decreases v@.len() - i,
    {
        out.push(v[i]);
        assert(out@ =~= v@.subrange(0, i + 1));
        i = i + 1;
    }
    assert(out@ =~= v@);
    out
}

} // verus!
