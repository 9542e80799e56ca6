//! The broadcaster: the shared counter plus the fan-out channel, and the
//! per-consumer subscription handles it hands out.

use vstd::prelude::*;
use crate::channel::{
    new_sender, receiver_birth, receiver_capacity, receiver_closed, receiver_log, receiver_pos,
    receiver_source, send_value, sender_capacity, sender_id, sender_log, subscribe_to,
    try_recv_value, try_recv_value_synced, Step,
};
use crate::counter::wrap_next;

verus! {

/// The process-wide core: a monotonic sequence counter and the broadcast
/// channel every push is published on. Built once, passed to both the push
/// and the subscribe call sites; subscriptions never outlive it usefully
/// (once it is dropped their streams close).
pub struct Broadcaster {
    next_value: i32,
    sender: tokio::sync::broadcast::Sender<i32>,
}

/// One consumer's live view into the broadcast channel from the moment of
/// its creation: an infinite, non-restartable stream of values, read one
/// observation at a time. Dropping it is the only teardown needed; the
/// channel then stops counting it as a fan-out target.
pub struct Subscription {
    receiver: tokio::sync::broadcast::Receiver<i32>,
}

impl Broadcaster {
    /// The value the next push will return and publish.
    pub closed spec fn counter(self) -> i32 {
        self.next_value
    }

    /// Every value published on this broadcaster's channel so far, in
    /// push order: the channel's sent sequence.
    pub closed spec fn history(self) -> Seq<i32> {
        sender_log(self.sender)
    }

    /// The identity of this broadcaster's channel: every subscription it
    /// hands out reads this channel and no other.
    pub closed spec fn chan(self) -> int {
        sender_id(self.sender)
    }

    /// The channel's buffer bound: the constructed capacity after tokio's
    /// rounding up to a power of two.
    pub closed spec fn capacity(self) -> nat {
        sender_capacity(self.sender)
    }

    /// Build the core with its construction-time parameters: the initial
    /// counter value and the channel's buffer capacity, which the channel
    /// rounds up to the next power of two. The capacity bound is the
    /// channel's own machine limit.
    pub fn new(initial: i32, capacity: usize) -> (b: Broadcaster)
        requires
            0 < capacity <= usize::MAX / 2,
        ensures
            b.counter() == initial,
            b.history() == Seq::<i32>::empty(),
            capacity <= b.capacity() < 2 * capacity,
            capacity & ((capacity - 1) as usize) == 0 ==> b.capacity() == capacity,
    {
        Broadcaster { next_value: initial, sender: new_sender(capacity) }
    }

    /// Advance the sequence and publish: hand the current counter value to
    /// every active subscription, step the counter to its wrapped
    /// successor, and report success whether or not anyone is subscribed.
    /// Never blocks on slow or absent consumers. Exclusive access to the
    /// broadcaster serializes pushes, which is what gives the single
    /// global order the counter establishes.
    pub fn push(&mut self) -> (r: bool)
        ensures
            r == true,
            final(self).counter() == wrap_next(old(self).counter()),
            final(self).history() == old(self).history().push(old(self).counter()),
            final(self).chan() == old(self).chan(),
            final(self).capacity() == old(self).capacity(),
    {
        let pair: (i32, i32) = crate::counter::advance(self.next_value);
        self.next_value = pair.1;
        send_value(&mut self.sender, pair.0);
        true
    }

    /// The counter as it stands: the value the next push will publish.
    pub fn counter_value(&self) -> (c: i32)
        ensures
            c == self.counter(),
    {
        self.next_value
    }

    /// Open a fresh subscription: a live stream on this broadcaster's own
    /// channel that begins at the moment of this call — its window into
    /// the published sequence opens at the current end of the history, so
    /// nothing pushed before it is ever replayed.
    pub fn subscribe(&self) -> (s: Subscription)
        ensures
            s.wf(),
            s.log() == Seq::<i32>::empty(),
            s.pos() == 0,
            s.source() == self.chan(),
            s.birth() == self.history().len(),
            s.capacity() == self.capacity(),
            !s.ended(),
    {
        Subscription { receiver: subscribe_to(&self.sender) }
    }
}

impl Subscription {
    /// The values the channel has offered this subscription so far, in
    /// push order; empty at creation, extended only at the end.
    pub closed spec fn log(self) -> Seq<i32> {
        receiver_log(self.receiver)
    }

    /// The cursor into `log`: the index of the next value this
    /// subscription would observe.
    pub closed spec fn pos(self) -> int {
        receiver_pos(self.receiver)
    }

    /// The channel this subscription reads: the one of the broadcaster
    /// that opened it, for its whole lifetime.
    pub closed spec fn source(self) -> int {
        receiver_source(self.receiver)
    }

    /// Where this subscription's window into the published sequence
    /// opens: the length of the broadcaster's history at creation, for
    /// its whole lifetime. Values pushed earlier lie below it.
    pub closed spec fn birth(self) -> int {
        receiver_birth(self.receiver)
    }

    /// The channel's buffer bound as this subscription sees it.
    pub closed spec fn capacity(self) -> nat {
        receiver_capacity(self.receiver)
    }

    /// Whether the stream has ended: the subscription has seen its channel
    /// closed — every sender gone, every offered value taken. Once ended
    /// it stays ended, with its log frozen.
    pub closed spec fn ended(self) -> bool {
        receiver_closed(self.receiver)
    }

    /// The unread backlog: offered values the subscription has not yet
    /// observed or skipped.
    pub open spec fn backlog(self) -> int {
        self.log().len() - self.pos()
    }

    /// The handle's invariant: the cursor stays inside its log, and the
    /// backlog never exceeds the channel's capacity — whatever lies beyond
    /// it has been dropped as lag.
    pub open spec fn wf(self) -> bool {
        &&& 0 <= self.pos() <= self.log().len()
        &&& self.backlog() <= self.capacity()
    }

    /// Take one observation from the stream: the adapter stage between the
    /// raw channel receive and the consumer's view. A delivered value is
    /// the log entry at the old cursor, so values arrive in push order and
    /// each log position is delivered at most once; a lag report skips the
    /// cursor forward by exactly the values lost, and is kept distinct so
    /// a consumer may surface it or, as the default policy does, drop it
    /// and read on.
    pub fn next_step(&mut self) -> (s: Step)
        requires
            old(self).wf(),
        ensures
            observes(*old(self), *final(self)),
            observation(*old(self), *final(self), s),
    {
        try_recv_value(&mut self.receiver)
    }

    /// Take one observation while holding the broadcaster it came from.
    /// The broadcaster owns its channel's only sender, and holding it
    /// shared for the whole call keeps every push out — so the observation
    /// is synced: the subscription's offered log is exactly the
    /// broadcaster's history from the window start, and the stream cannot
    /// end. A caught-up subscription is thus forced to observe, in push
    /// order, exactly what was pushed (see the fan-out laws).
    pub fn next_step_synced(&mut self, b: &Broadcaster) -> (s: Step)
        requires
            old(self).wf(),
            old(self).source() == b.chan(),
        ensures
            observes(*old(self), *final(self)),
            synced_observation(*old(self), *final(self), s, *b),
    {
        try_recv_value_synced(&mut self.receiver, &b.sender)
    }
}

/// What one call of `next_step` means, by outcome: a value is delivered
/// from the log, a lag skips forward, and a pending or closed stream
/// stands still.
pub open spec fn observation(pre: Subscription, post: Subscription, s: Step) -> bool {
    match s {
        Step::Value(v) => delivers(pre, post, v),
        Step::Lagged(n) => lags(pre, post, n),
        Step::Pending => idles(pre, post) && !post.ended(),
        Step::Closed => idles(pre, post) && post.ended(),
    }
}

/// One observation taken while the subscription's own broadcaster is held
/// shared, so that no push could interleave: everything `observation`
/// states, and moreover the offered log is exactly the broadcaster's
/// history from the subscription's window start, and the stream has not
/// ended — a stream never ends while its broadcaster lives.
pub open spec fn synced_observation(
    pre: Subscription,
    post: Subscription,
    s: Step,
    b: Broadcaster,
) -> bool {
    &&& observation(pre, post, s)
    &&& 0 <= pre.birth() <= b.history().len()
    &&& post.log() == b.history().subrange(pre.birth(), b.history().len() as int)
    &&& !post.ended()
    &&& !(s is Closed)
}

/// One observation relates a subscription's state before and after: its log
/// only grows at the end, its cursor never moves back, the handle stays
/// well formed, its channel, birth position and capacity never change, and
/// an ended stream stays ended with its log frozen. Every outcome of
/// `next_step` satisfies this.
pub open spec fn observes(pre: Subscription, post: Subscription) -> bool {
    &&& pre.wf()
    &&& post.wf()
    &&& pre.log().is_prefix_of(post.log())
    &&& pre.pos() <= post.pos()
    &&& post.source() == pre.source()
    &&& post.birth() == pre.birth()
    &&& post.capacity() == pre.capacity()
    &&& pre.ended() ==> post.ended() && post.log() == pre.log()
}

/// The observation delivered a value: exactly the log entry at the old
/// cursor, which advances by one — so no entry is delivered twice and
/// values arrive in the order they were pushed. A delivered value was
/// still buffered, so the remaining backlog is strictly below the
/// channel's capacity.
pub open spec fn delivers(pre: Subscription, post: Subscription, v: i32) -> bool {
    &&& observes(pre, post)
    &&& post.pos() == pre.pos() + 1
    &&& pre.pos() < post.log().len()
    &&& v == post.log()[pre.pos()]
    &&& post.backlog() < post.capacity()
}

/// The observation reported lag: the subscription fell behind and its
/// cursor jumped forward over exactly the `n > 0` values lost to it,
/// landing on the oldest value still buffered — a backlog of exactly the
/// channel's capacity.
pub open spec fn lags(pre: Subscription, post: Subscription, n: u64) -> bool {
    &&& observes(pre, post)
    &&& n > 0
    &&& post.pos() == pre.pos() + n
    &&& post.backlog() == post.capacity()
}

/// The observation yielded nothing: the cursor stands still, caught up
/// with everything the channel has offered.
pub open spec fn idles(pre: Subscription, post: Subscription) -> bool {
    &&& observes(pre, post)
    &&& post.pos() == pre.pos()
    &&& post.pos() == post.log().len()
}

} // verus!
