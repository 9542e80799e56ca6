//! The trusted boundary around tokio's broadcast channel.
//!
//! The channel is the fan-out primitive: one sender, many receivers, a
//! bounded buffer, and a lag signal for receivers that fall behind. Verus
//! does not read tokio, so this module declares the channel types and gives
//! each call the library makes a contract over a few names. On the sender:
//! `sender_log`, the values handed to send so far; `sender_id`, which
//! channel the handle belongs to; `sender_capacity`, the buffer bound the
//! channel was built with. On the receiver: `receiver_log`, the values the
//! channel has made available to this handle so far (in send order,
//! starting empty at subscription); `receiver_pos`, how far into that log
//! the handle has advanced, by reads and by lag skips; and `receiver_source`,
//! `receiver_birth` and `receiver_capacity`, the handle's channel, the
//! length of the sent sequence when the handle was created, and the
//! channel's buffer bound — all three fixed for the handle's lifetime.
//! Everything the rest of the library proves about delivery rests on these
//! contracts and on the tokio source they were read from.

use vstd::prelude::*;

verus! {

#[verifier::external_type_specification]
#[verifier::external_body]
#[verifier::reject_recursive_types(T)]
pub struct ExSender<T>(tokio::sync::broadcast::Sender<T>);

#[verifier::external_type_specification]
#[verifier::external_body]
#[verifier::reject_recursive_types(T)]
pub struct ExReceiver<T>(tokio::sync::broadcast::Receiver<T>);

/// The values handed to send on this channel so far, in order. A value is
/// appended whether or not a receiver is subscribed to take it (with none,
/// tokio discards it, and a later subscriber's window opens after it).
pub uninterp spec fn sender_log(s: tokio::sync::broadcast::Sender<i32>) -> Seq<i32>;

/// Which channel the sender handle belongs to. Nothing concrete is ever
/// claimed of it: the wrappers state only the equalities the tokio source
/// gives — sending leaves it unchanged, and a subscribed receiver belongs
/// to the same channel.
pub uninterp spec fn sender_id(s: tokio::sync::broadcast::Sender<i32>) -> int;

/// The buffer bound the channel was built with, after tokio's rounding of
/// the requested capacity up to a power of two.
pub uninterp spec fn sender_capacity(s: tokio::sync::broadcast::Sender<i32>) -> nat;

/// The values this receiver handle has been offered so far, in send order.
/// A handle starts with an empty log; each receive call may reveal values
/// sent since, appended at the end. Values sent before the handle existed
/// never enter its log.
pub uninterp spec fn receiver_log(r: tokio::sync::broadcast::Receiver<i32>) -> Seq<i32>;

/// The handle's cursor into `receiver_log`: the index of the next value it
/// would receive. It advances by one on each received value and jumps
/// forward over values lost to lag.
pub uninterp spec fn receiver_pos(r: tokio::sync::broadcast::Receiver<i32>) -> int;

/// The channel this receiver handle reads from: equal to the `sender_id`
/// of the sender it was subscribed on, and fixed for the handle's
/// lifetime.
pub uninterp spec fn receiver_source(r: tokio::sync::broadcast::Receiver<i32>) -> int;

/// How many values had been sent on the handle's channel when the handle
/// was created: the start of its window into the sent sequence, fixed for
/// the handle's lifetime. Values sent earlier lie below it and never reach
/// the handle.
pub uninterp spec fn receiver_birth(r: tokio::sync::broadcast::Receiver<i32>) -> int;

/// The channel's buffer bound as this handle sees it: equal to the
/// sender's, fixed for the handle's lifetime, and an upper bound on the
/// handle's unread backlog at every receive call.
pub uninterp spec fn receiver_capacity(r: tokio::sync::broadcast::Receiver<i32>) -> nat;

/// Whether this handle has seen its channel closed: every sender gone and
/// the offered values all taken. While the handle lives that cannot be
/// undone, and a closed channel's log never grows again.
pub uninterp spec fn receiver_closed(r: tokio::sync::broadcast::Receiver<i32>) -> bool;

/// One observation of a subscription's stream: the raw channel-receive
/// result, reshaped into the library's own step type. The lag count is kept
/// so a consumer may surface it, even though the default delivery policy
/// discards it.
#[derive(Clone, Copy, Debug, PartialEq, Eq, Structural)]
pub enum Step {
    /// The next value of the stream, delivered in send order.
    Value(i32),
    /// The subscription fell behind and this many values were dropped for
    /// it; the stream continues at the oldest value still buffered.
    Lagged(u64),
    /// Nothing is pending right now; the stream is still live.
    Pending,
    /// The channel is gone and every available value has been delivered.
    Closed,
}

impl Step {
    /// The default delivery policy of the stream handed to consumers: a
    /// delivered value is surfaced as a plain value, everything else — lag
    /// reports included — is dropped, and the consumer simply reads on.
    pub fn surfaced(self) -> (r: Option<i32>)
        ensures
            match self {
                Step::Value(v) => r == Some(v),
                Step::Lagged(_) => r is None,
                Step::Pending => r is None,
                Step::Closed => r is None,
            },
    {
        match self {
            Step::Value(v) => Some(v),
            Step::Lagged(_) => None,
            Step::Pending => None,
            Step::Closed => None,
        }
    }
}

/// Relies on tokio::sync::broadcast::channel: creates a channel with the
/// given capacity, rounded up to the next power of two, and hands back its
/// sender with nothing sent yet; panics only when the capacity is zero or
/// above `usize::MAX / 2`, which the precondition rules out. The initial
/// receiver is dropped, as late subscribers start fresh anyway.
#[verifier::external_body]
pub(crate) fn new_sender(capacity: usize) -> (s: tokio::sync::broadcast::Sender<i32>)
    requires
        0 < capacity <= usize::MAX / 2,
    ensures
        sender_log(s) == Seq::<i32>::empty(),
        capacity <= sender_capacity(s) < 2 * capacity,
        capacity & ((capacity - 1) as usize) == 0 ==> sender_capacity(s) == capacity,
{
    let (sender, _receiver) = tokio::sync::broadcast::channel(capacity);
    sender
}

/// Relies on tokio::sync::broadcast::Sender::send: publishes one value to
/// every receiver subscribed at this moment, never blocking, appending it
/// to the channel's sent sequence; with no receivers the value is
/// discarded, which is not an error here. The result (the receiver count,
/// or the value back) is dropped.
#[verifier::external_body]
pub(crate) fn send_value(s: &mut tokio::sync::broadcast::Sender<i32>, v: i32)
    ensures
        sender_log(*final(s)) == sender_log(*old(s)).push(v),
        sender_id(*final(s)) == sender_id(*old(s)),
        sender_capacity(*final(s)) == sender_capacity(*old(s)),
{
    let _ = s.send(v);
}

/// Relies on tokio::sync::broadcast::Sender::subscribe: the new receiver
/// reads the same channel, and sees only values sent after this call — its
/// log starts empty, its cursor at zero, and its window into the sent
/// sequence opens at the current end. The "max receivers" panic in tokio
/// fires only at `usize::MAX / 4` live handles, beyond what any process
/// can hold.
#[verifier::external_body]
pub(crate) fn subscribe_to(s: &tokio::sync::broadcast::Sender<i32>) -> (r: tokio::sync::broadcast::Receiver<i32>)
    ensures
        receiver_log(r) == Seq::<i32>::empty(),
        receiver_pos(r) == 0,
        receiver_source(r) == sender_id(*s),
        receiver_birth(r) == sender_log(*s).len(),
        receiver_capacity(r) == sender_capacity(*s),
        !receiver_closed(r),
{
    s.subscribe()
}

/// Relies on tokio::sync::broadcast::Receiver::try_recv, read against the
/// tokio source: the log only grows at the end (by values sent meanwhile),
/// the cursor never moves back nor past the log, and after the call the
/// unread backlog is at most the channel's capacity (anything beyond it
/// has been dropped as lag); a received value is the log entry at the old
/// cursor, which advances by one; a lag report skips the cursor forward by
/// exactly the number of values lost, leaving a backlog of exactly the
/// channel's capacity (the oldest value still buffered); empty and closed both mean the
/// cursor has caught up with the log, closed that no sender remains —
/// which, while the handle lives, cannot be undone and freezes the log.
/// The handle's channel, birth position and capacity never change.
#[verifier::external_body]
pub(crate) fn try_recv_value(r: &mut tokio::sync::broadcast::Receiver<i32>) -> (out: Step)
    ensures
        receiver_log(*old(r)).is_prefix_of(receiver_log(*final(r))),
        receiver_pos(*old(r)) <= receiver_pos(*final(r)) <= receiver_log(*final(r)).len(),
        receiver_log(*final(r)).len() - receiver_pos(*final(r)) <= receiver_capacity(*final(r)),
        receiver_source(*final(r)) == receiver_source(*old(r)),
        receiver_birth(*final(r)) == receiver_birth(*old(r)),
        receiver_capacity(*final(r)) == receiver_capacity(*old(r)),
        receiver_closed(*old(r)) ==> receiver_closed(*final(r)) && receiver_log(*final(r))
            == receiver_log(*old(r)),
        match out {
            Step::Value(v) => {
                &&& receiver_pos(*final(r)) == receiver_pos(*old(r)) + 1
                &&& receiver_pos(*old(r)) < receiver_log(*final(r)).len()
                &&& v == receiver_log(*final(r))[receiver_pos(*old(r))]
                &&& receiver_log(*final(r)).len() - receiver_pos(*final(r))
                    < receiver_capacity(*final(r))
            },
            Step::Lagged(n) => {
                &&& n > 0
                &&& receiver_pos(*final(r)) == receiver_pos(*old(r)) + n
                &&& receiver_log(*final(r)).len() - receiver_pos(*final(r))
                    == receiver_capacity(*final(r))
            },
            Step::Pending => {
                &&& receiver_pos(*final(r)) == receiver_pos(*old(r))
                &&& receiver_pos(*final(r)) == receiver_log(*final(r)).len()
                &&& !receiver_closed(*final(r))
            },
            Step::Closed => {
                &&& receiver_pos(*final(r)) == receiver_pos(*old(r))
                &&& receiver_pos(*final(r)) == receiver_log(*final(r)).len()
                &&& receiver_closed(*final(r))
            },
        },
{
    match r.try_recv() {
        Ok(v) => Step::Value(v),
        Err(tokio::sync::broadcast::error::TryRecvError::Lagged(n)) => Step::Lagged(n),
        Err(tokio::sync::broadcast::error::TryRecvError::Empty) => Step::Pending,
        Err(tokio::sync::broadcast::error::TryRecvError::Closed) => Step::Closed,
    }
}

/// Relies on tokio::sync::broadcast::Receiver::try_recv, called while the
/// channel's sender is held shared. The library never duplicates a sender,
/// so for the whole call nothing can be sent or dropped on the channel:
/// the values offered to the handle are exactly the channel's sent
/// sequence from the handle's window start ("all data sent ... will become
/// available on every active receiver in the same order as it was sent",
/// per the broadcast module's own documentation), and with the sender
/// alive neither the handle nor its channel can be closed. All other
/// clauses as for the plain receive above.
#[verifier::external_body]
pub(crate) fn try_recv_value_synced(
    r: &mut tokio::sync::broadcast::Receiver<i32>,
    sender: &tokio::sync::broadcast::Sender<i32>,
) -> (out: Step)
    requires
        receiver_source(*old(r)) == sender_id(*sender),
    ensures
        receiver_log(*old(r)).is_prefix_of(receiver_log(*final(r))),
        receiver_pos(*old(r)) <= receiver_pos(*final(r)) <= receiver_log(*final(r)).len(),
        receiver_log(*final(r)).len() - receiver_pos(*final(r)) <= receiver_capacity(*final(r)),
        receiver_source(*final(r)) == receiver_source(*old(r)),
        receiver_birth(*final(r)) == receiver_birth(*old(r)),
        receiver_capacity(*final(r)) == receiver_capacity(*old(r)),
        !receiver_closed(*old(r)),
        !receiver_closed(*final(r)),
        0 <= receiver_birth(*old(r)) <= sender_log(*sender).len(),
        receiver_log(*final(r)) == sender_log(*sender).subrange(
            receiver_birth(*old(r)),
            sender_log(*sender).len() as int,
        ),
        match out {
            Step::Value(v) => {
                &&& receiver_pos(*final(r)) == receiver_pos(*old(r)) + 1
                &&& receiver_pos(*old(r)) < receiver_log(*final(r)).len()
                &&& v == receiver_log(*final(r))[receiver_pos(*old(r))]
                &&& receiver_log(*final(r)).len() - receiver_pos(*final(r))
                    < receiver_capacity(*final(r))
            },
            Step::Lagged(n) => {
                &&& n > 0
                &&& receiver_pos(*final(r)) == receiver_pos(*old(r)) + n
                &&& receiver_log(*final(r)).len() - receiver_pos(*final(r))
                    == receiver_capacity(*final(r))
            },
            Step::Pending => {
                &&& receiver_pos(*final(r)) == receiver_pos(*old(r))
                &&& receiver_pos(*final(r)) == receiver_log(*final(r)).len()
            },
            Step::Closed => false,
        },
{
    let _ = sender;
    match r.try_recv() {
        Ok(v) => Step::Value(v),
        Err(tokio::sync::broadcast::error::TryRecvError::Lagged(n)) => Step::Lagged(n),
        Err(tokio::sync::broadcast::error::TryRecvError::Empty) => Step::Pending,
        Err(tokio::sync::broadcast::error::TryRecvError::Closed) => Step::Closed,
    }
}

} // verus!
