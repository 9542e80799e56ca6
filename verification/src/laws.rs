//! The delivery and monotonicity laws of the broadcaster, proved from the
//! contracts in `broadcaster` and the counter model in `counter`.

use vstd::prelude::*;
use crate::broadcaster::{
    delivers, observation, observes, synced_observation, Broadcaster, Subscription,
};
use crate::channel::Step;
use crate::counter::{counter_after, lemma_push_values_monotonic, push_value, wrap_next};

verus! {

/// Observations chain: if one observation takes a subscription from `a` to
/// `b` and another from `b` to `c`, then `a` to `c` is an observation too —
/// the log still only grew at the end and the cursor never moved back.
pub proof fn lemma_observes_transitive(a: Subscription, b: Subscription, c: Subscription)
    requires
        observes(a, b),
        observes(b, c),
    ensures
        observes(a, c),
{
    assert(a.log() =~= c.log().subrange(0, a.log().len() as int));
}

/// In-order, at-most-once delivery: two consecutive deliveries to one
/// subscription come from strictly increasing positions of its log, so the
/// earlier value stands before the later one in push order and no log entry
/// is ever delivered twice.
pub proof fn lemma_delivery_in_order(
    s0: Subscription,
    s1: Subscription,
    s2: Subscription,
    v1: i32,
    v2: i32,
)
    requires
        delivers(s0, s1, v1),
        delivers(s1, s2, v2),
    ensures
        s0.pos() < s1.pos() < s2.log().len(),
        v1 == s2.log()[s0.pos()],
        v2 == s2.log()[s1.pos()],
{
    s2.log().lemma_prefix_index_eq(s1.log());
    assert(s1.log()[s0.pos()] == s2.log()[s0.pos()]);
}

/// No replay: a value delivered under a synced observation is the
/// broadcaster's history entry at the subscription's window start plus its
/// cursor — an index at or past the window start. `subscribe` pins the
/// window start to the history length at creation and it never moves, so
/// no push from before the subscription existed is ever delivered.
pub proof fn lemma_no_replay(pre: Subscription, post: Subscription, b: Broadcaster, v: i32)
    requires
        synced_observation(pre, post, Step::Value(v), b),
    ensures
        pre.birth() <= pre.birth() + pre.pos() < b.history().len(),
        v == b.history()[pre.birth() + pre.pos()],
{
    assert(v == post.log()[pre.pos()]);
    assert(post.log()[pre.pos()] == b.history()[pre.birth() + pre.pos()]);
}

/// Fan-out completeness, as the synced model states it: when values stand
/// in the history past a subscription's cursor, and no more of them than
/// the channel's capacity are outstanding, the next synced observation is
/// forced to deliver — exactly the next pushed value, in push order;
/// neither a wait, nor a lag, nor an end is possible.
pub proof fn lemma_fanout_delivery(pre: Subscription, post: Subscription, s: Step, b: Broadcaster)
    requires
        synced_observation(pre, post, s, b),
        pre.birth() + pre.pos() < b.history().len(),
        b.history().len() - (pre.birth() + pre.pos()) <= pre.capacity(),
    ensures
        s matches Step::Value(v) && v == b.history()[pre.birth() + pre.pos()],
{
    assert(post.log().len() == b.history().len() - pre.birth());
    match s {
        Step::Value(v) => {
            assert(v == post.log()[pre.pos()]);
            assert(v == b.history()[pre.birth() + pre.pos()]);
        },
        Step::Lagged(n) => {
            assert(post.backlog() < post.capacity());
        },
        Step::Pending => {
            assert(pre.pos() == post.log().len());
        },
        Step::Closed => {},
    }
}

/// Backpressure: when a burst leaves more values outstanding for a
/// subscription than the channel's capacity holds, the next synced
/// observation is forced to be a lag report for exactly the overflow —
/// the slow reader, and it alone, loses values; the producer has long
/// returned.
pub proof fn lemma_overflow_forces_lag(pre: Subscription, post: Subscription, s: Step, b: Broadcaster)
    requires
        synced_observation(pre, post, s, b),
        b.history().len() - (pre.birth() + pre.pos()) > pre.capacity(),
    ensures
        s matches Step::Lagged(n) && n == b.history().len() - (pre.birth() + pre.pos())
            - pre.capacity(),
{
    assert(post.log().len() == b.history().len() - pre.birth());
}

/// Shared order: synced deliveries land at strictly increasing positions
/// of the one pushed history, so any two subscriptions observe the values
/// they share in the same relative order — the push order.
pub proof fn lemma_same_relative_order(
    s0: Subscription,
    s1: Subscription,
    s2: Subscription,
    b1: Broadcaster,
    b2: Broadcaster,
    v1: i32,
    v2: i32,
)
    requires
        synced_observation(s0, s1, Step::Value(v1), b1),
        synced_observation(s1, s2, Step::Value(v2), b2),
        b1.history().is_prefix_of(b2.history()),
    ensures
        s0.birth() + s0.pos() < s1.birth() + s1.pos() < b2.history().len(),
        v1 == b2.history()[s0.birth() + s0.pos()],
        v2 == b2.history()[s1.birth() + s1.pos()],
{
    lemma_no_replay(s0, s1, b1, v1);
    lemma_no_replay(s1, s2, b2, v2);
    b2.history().lemma_prefix_index_eq(b1.history());
    assert(b1.history()[s0.birth() + s0.pos()] == b2.history()[s0.birth() + s0.pos()]);
}

/// A closed stream is terminal: once a subscription has seen its channel
/// closed and taken everything offered, every later observation is again
/// `Closed` — no value, no lag and no pending wait can follow, and the
/// stream stays empty and ended.
pub proof fn lemma_closed_is_terminal(pre: Subscription, post: Subscription, s: Step)
    requires
        pre.ended(),
        pre.backlog() == 0,
        observation(pre, post, s),
    ensures
        s == Step::Closed,
        post.ended(),
        post.backlog() == 0,
{
}

/// A run of one subscription: `states` are its values before and after
/// each observation, `steps` what each observation returned; consecutive
/// states are related exactly as `next_step` relates them.
pub open spec fn run(states: Seq<Subscription>, steps: Seq<Step>) -> bool {
    &&& states.len() == steps.len() + 1
    &&& states[0].wf()
    &&& forall|k: int|
        0 <= k < steps.len() ==> observation(states[k], states[k + 1], #[trigger] steps[k])
}

/// Every state of a run is well formed.
pub proof fn lemma_run_state_wf(states: Seq<Subscription>, steps: Seq<Step>, k: int)
    requires
        run(states, steps),
        0 <= k < states.len(),
    ensures
        states[k].wf(),
{
    if k > 0 {
        assert(observation(states[k - 1], states[k], steps[k - 1]));
    }
}

/// Across any stretch of a run, the log only grows at the end and the
/// cursor never moves back.
pub proof fn lemma_run_observes(states: Seq<Subscription>, steps: Seq<Step>, i: int, j: int)
    requires
        run(states, steps),
        0 <= i <= j < states.len(),
    ensures
        observes(states[i], states[j]),
    decreases j - i,
{
    if i == j {
        lemma_run_state_wf(states, steps, i);
        assert(states[i].log() =~= states[i].log().subrange(0, states[i].log().len() as int));
    } else {
        lemma_run_observes(states, steps, i, j - 1);
        assert(observation(states[j - 1], states[j], steps[j - 1]));
        lemma_observes_transitive(states[i], states[j - 1], states[j]);
    }
}

/// Fan-out order over a whole run: any two values a subscription is
/// delivered stand in its final log at strictly increasing positions — so
/// every value is observed at most once, in push order, and (the log
/// having been empty at creation) no value from before the subscription
/// ever appears.
pub proof fn lemma_run_delivery_in_order(
    states: Seq<Subscription>,
    steps: Seq<Step>,
    i: int,
    j: int,
    vi: i32,
    vj: i32,
)
    requires
        run(states, steps),
        0 <= i < j < steps.len(),
        steps[i] == Step::Value(vi),
        steps[j] == Step::Value(vj),
    ensures
        0 <= states[i].pos() < states[j].pos() < states[states.len() - 1].log().len(),
        vi == states[states.len() - 1].log()[states[i].pos()],
        vj == states[states.len() - 1].log()[states[j].pos()],
{
    let last = states.len() - 1;
    assert(observation(states[i], states[i + 1], steps[i]));
    assert(observation(states[j], states[j + 1], steps[j]));
    assert(delivers(states[i], states[i + 1], vi));
    assert(delivers(states[j], states[j + 1], vj));
    lemma_run_observes(states, steps, i + 1, j);
    lemma_run_observes(states, steps, i + 1, last);
    lemma_run_observes(states, steps, j + 1, last);
    states[last].log().lemma_prefix_index_eq(states[i + 1].log());
    states[last].log().lemma_prefix_index_eq(states[j + 1].log());
    assert(vi == states[last].log()[states[i].pos()]);
    assert(vj == states[last].log()[states[j].pos()]);
}

/// A broadcaster matches the counter model for initial value `init`: its
/// history holds exactly the first pushes' values and its counter stands
/// where that many pushes leave it.
pub open spec fn pushed_from(b: Broadcaster, init: i32) -> bool {
    &&& b.counter() == counter_after(init, b.history().len() as nat)
    &&& forall|k: int|
        0 <= k < b.history().len() ==> b.history()[k] == push_value(init, k as nat)
}

/// A freshly built broadcaster matches the counter model for its own
/// initial value.
pub proof fn lemma_new_matches_model(b: Broadcaster, init: i32)
    requires
        b.counter() == init,
        b.history() == Seq::<i32>::empty(),
    ensures
        pushed_from(b, init),
{
}

/// One push keeps a broadcaster within the counter model: it appends the
/// counter value it found to the history and steps the counter to its
/// wrapped successor.
pub proof fn lemma_push_matches_model(pre: Broadcaster, post: Broadcaster, init: i32)
    requires
        pushed_from(pre, init),
        post.counter() == wrap_next(pre.counter()),
        post.history() == pre.history().push(pre.counter()),
    ensures
        pushed_from(post, init),
{
    let n = pre.history().len() as nat;
    assert(post.history()[n as int] == counter_after(init, n));
    assert(post.counter() == counter_after(init, (n + 1) as nat));
    assert(forall|k: int|
        0 <= k < post.history().len() ==> post.history()[k] == push_value(init, k as nat));
}

/// Monotonicity: while the counter has not wrapped, the published history
/// is strictly increasing — every push returned a value strictly greater
/// than every earlier push's value.
pub proof fn lemma_history_strictly_increasing(b: Broadcaster, init: i32, i: int, j: int)
    requires
        pushed_from(b, init),
        0 <= i < j < b.history().len(),
        init + b.history().len() <= i32::MAX + 1,
    ensures
        b.history()[i] < b.history()[j],
{
    lemma_push_values_monotonic(init, i as nat, j as nat);
}

} // verus!
