use fanout::broadcaster::{Broadcaster, Subscription};
use fanout::channel::Step;

fn drain(s: &mut Subscription) -> (Vec<i32>, Vec<u64>) {
    let mut vals: Vec<i32> = Vec::new();
    let mut lags: Vec<u64> = Vec::new();
    loop {
        match s.next_step() {
            Step::Value(v) => vals.push(v),
            Step::Lagged(n) => lags.push(n),
            Step::Pending | Step::Closed => break,
        }
    }
    (vals, lags)
}

#[test]
fn pushes_succeed_without_subscribers() {
    let mut b = Broadcaster::new(1, 32);
    assert_eq!(b.counter_value(), 1);
    assert!(b.push());
    assert_eq!(b.counter_value(), 2);
    assert!(b.push());
    assert_eq!(b.counter_value(), 3);
    assert!(b.push());
    assert_eq!(b.counter_value(), 4);
}

#[test]
fn subscriber_sees_values_in_push_order() {
    let mut b = Broadcaster::new(1, 32);
    let mut s1 = b.subscribe();
    assert!(b.push());
    assert_eq!(s1.next_step(), Step::Value(1));
    assert!(b.push());
    assert_eq!(s1.next_step(), Step::Value(2));
    assert_eq!(s1.next_step(), Step::Pending);
}

#[test]
fn late_subscriber_starts_at_subscription_time() {
    let mut b = Broadcaster::new(1, 32);
    let mut s1 = b.subscribe();
    assert!(b.push());
    let mut s2 = b.subscribe();
    assert!(b.push());
    let (v1, l1) = drain(&mut s1);
    let (v2, l2) = drain(&mut s2);
    assert_eq!(v1, vec![1, 2]);
    assert_eq!(v2, vec![2]);
    assert!(l1.is_empty());
    assert!(l2.is_empty());
}

#[test]
fn slow_subscriber_lags_and_skips() {
    let mut b = Broadcaster::new(1, 32);
    let mut s1 = b.subscribe();
    for _ in 0..40 {
        assert!(b.push());
    }
    let (vals, lags) = drain(&mut s1);
    assert!(vals.len() < 40);
    assert_eq!(lags, vec![8]);
    let expected: Vec<i32> = (9..=40).collect();
    assert_eq!(vals, expected);
}

#[test]
fn lag_skips_to_oldest_retained_value() {
    let mut b = Broadcaster::new(1, 2);
    let mut s1 = b.subscribe();
    assert!(b.push());
    assert!(b.push());
    assert!(b.push());
    assert_eq!(s1.next_step(), Step::Lagged(1));
    assert_eq!(s1.next_step(), Step::Value(2));
    assert_eq!(s1.next_step(), Step::Value(3));
    assert_eq!(s1.next_step(), Step::Pending);
}

#[test]
fn values_strictly_increase_until_wrap() {
    let mut b = Broadcaster::new(1, 32);
    let mut s1 = b.subscribe();
    for _ in 0..10 {
        assert!(b.push());
    }
    let (vals, lags) = drain(&mut s1);
    assert!(lags.is_empty());
    assert_eq!(vals.len(), 10);
    for w in vals.windows(2) {
        assert!(w[0] < w[1]);
    }
}

#[test]
fn no_replay_for_late_subscriber() {
    let mut b = Broadcaster::new(1, 32);
    for _ in 0..5 {
        assert!(b.push());
    }
    let mut s = b.subscribe();
    assert_eq!(s.next_step(), Step::Pending);
    assert!(b.push());
    let (vals, lags) = drain(&mut s);
    assert_eq!(vals, vec![6]);
    assert!(lags.is_empty());
}

#[test]
fn two_subscribers_receive_independently() {
    let mut b = Broadcaster::new(1, 32);
    let mut s1 = b.subscribe();
    let mut s2 = b.subscribe();
    assert!(b.push());
    assert!(b.push());
    assert!(b.push());
    let (v1, _) = drain(&mut s1);
    assert_eq!(v1, vec![1, 2, 3]);
    let (v2, _) = drain(&mut s2);
    assert_eq!(v2, vec![1, 2, 3]);
}

#[test]
fn stalled_subscriber_does_not_disturb_others() {
    let mut b = Broadcaster::new(1, 4);
    let _stalled = b.subscribe();
    let mut live = b.subscribe();
    for _ in 0..8 {
        assert!(b.push());
        match live.next_step() {
            Step::Value(_) => {}
            other => panic!("expected a value, got {:?}", other),
        }
    }
    assert_eq!(b.counter_value(), 9);
}

#[test]
fn counter_wraps_silently_at_the_top() {
    let mut b = Broadcaster::new(i32::MAX, 4);
    let mut s = b.subscribe();
    assert!(b.push());
    assert_eq!(b.counter_value(), i32::MIN);
    assert_eq!(s.next_step(), Step::Value(i32::MAX));
    assert!(b.push());
    assert_eq!(s.next_step(), Step::Value(i32::MIN));
}

#[test]
fn stream_closes_when_broadcaster_is_dropped() {
    let mut b = Broadcaster::new(1, 32);
    let mut s = b.subscribe();
    assert!(b.push());
    drop(b);
    assert_eq!(s.next_step(), Step::Value(1));
    assert_eq!(s.next_step(), Step::Closed);
    assert_eq!(s.next_step(), Step::Closed);
}

#[test]
fn capacity_rounds_up_to_a_power_of_two() {
    let mut b = Broadcaster::new(1, 3);
    let mut s = b.subscribe();
    for _ in 0..5 {
        assert!(b.push());
    }
    let (vals, lags) = drain(&mut s);
    assert_eq!(lags, vec![1]);
    assert_eq!(vals, vec![2, 3, 4, 5]);
}

#[test]
fn synced_reads_see_pushed_values_in_order() {
    let mut b = Broadcaster::new(1, 32);
    let mut s1 = b.subscribe();
    assert!(b.push());
    assert_eq!(s1.next_step_synced(&b), Step::Value(1));
    assert!(b.push());
    let mut s2 = b.subscribe();
    assert!(b.push());
    assert_eq!(s1.next_step_synced(&b), Step::Value(2));
    assert_eq!(s1.next_step_synced(&b), Step::Value(3));
    assert_eq!(s1.next_step_synced(&b), Step::Pending);
    assert_eq!(s2.next_step_synced(&b), Step::Value(3));
    assert_eq!(s2.next_step_synced(&b), Step::Pending);
}

#[test]
fn synced_reads_lag_like_plain_reads() {
    let mut b = Broadcaster::new(1, 2);
    let mut s = b.subscribe();
    for _ in 0..3 {
        assert!(b.push());
    }
    assert_eq!(s.next_step_synced(&b), Step::Lagged(1));
    assert_eq!(s.next_step_synced(&b), Step::Value(2));
    assert_eq!(s.next_step_synced(&b), Step::Value(3));
    assert_eq!(s.next_step_synced(&b), Step::Pending);
}

#[test]
fn default_policy_surfaces_only_values() {
    let mut b = Broadcaster::new(1, 2);
    let mut s = b.subscribe();
    assert!(b.push());
    assert!(b.push());
    assert!(b.push());
    assert_eq!(s.next_step().surfaced(), None);
    assert_eq!(s.next_step().surfaced(), Some(2));
    assert_eq!(s.next_step().surfaced(), Some(3));
    assert_eq!(s.next_step().surfaced(), None);
}

#[test]
fn fresh_subscription_is_pending() {
    let b = Broadcaster::new(7, 16);
    let mut s = b.subscribe();
    assert_eq!(s.next_step(), Step::Pending);
    assert_eq!(b.counter_value(), 7);
}
