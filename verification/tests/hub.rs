use screencast::frame::EncodedFrame;
use screencast::hub::BroadcastHub;

fn frame(tag: u8) -> EncodedFrame {
    EncodedFrame::new(vec![tag, tag, tag], 2, 2, 80)
}

#[test]
fn new_hub_has_no_subscribers() {
    let hub = BroadcastHub::new(2);
    assert_eq!(hub.subscriber_count(), 0);
    assert_eq!(hub.capacity(), 2);
    assert!(hub.can_attach());
}

#[test]
fn attach_gives_distinct_handles() {
    let mut hub = BroadcastHub::new(2);
    let a = hub.attach();
    let b = hub.attach();
    let c = hub.attach();
    assert_ne!(a, b);
    assert_ne!(b, c);
    assert_ne!(a, c);
    assert_ne!(a.id(), b.id());
    assert_eq!(hub.subscriber_count(), 3);
    assert!(hub.is_attached(a));
    assert_eq!(hub.pending(a), Some(0));
    assert_eq!(hub.lag(a), Some(0));
}

#[test]
fn handles_are_not_reused_after_detach() {
    let mut hub = BroadcastHub::new(2);
    let a = hub.attach();
    hub.detach(a);
    let b = hub.attach();
    assert_ne!(a, b);
    assert!(!hub.is_attached(a));
    assert!(hub.is_attached(b));
}

#[test]
fn publish_reaches_every_subscriber_in_order() {
    let mut hub = BroadcastHub::new(4);
    let a = hub.attach();
    let b = hub.attach();
    hub.publish(frame(1));
    hub.publish(frame(2));
    hub.publish(frame(3));
    for handle in [a, b] {
        assert_eq!(hub.pending(handle), Some(3));
        assert_eq!(hub.lag(handle), Some(0));
        assert_eq!(hub.next_frame(handle).unwrap().payload(), &vec![1u8, 1, 1]);
        assert_eq!(hub.next_frame(handle).unwrap().payload(), &vec![2u8, 2, 2]);
        assert_eq!(hub.next_frame(handle).unwrap().payload(), &vec![3u8, 3, 3]);
        assert!(hub.next_frame(handle).is_none());
    }
}

#[test]
fn publish_without_subscribers_is_no_error() {
    let mut hub = BroadcastHub::new(1);
    hub.publish(frame(1));
    assert_eq!(hub.subscriber_count(), 0);
    let a = hub.attach();
    // a frame published before attaching is not delivered
    assert_eq!(hub.pending(a), Some(0));
}

#[test]
fn idle_subscriber_lags_by_the_excess() {
    // N = 5 frames into a queue of k = 2: lag is N - k = 3
    let mut hub = BroadcastHub::new(2);
    let a = hub.attach();
    for tag in 1..=5u8 {
        hub.publish(frame(tag));
    }
    assert_eq!(hub.lag(a), Some(3));
    assert_eq!(hub.pending(a), Some(2));
    // the newest two, oldest first
    assert_eq!(hub.next_frame(a).unwrap().payload(), &vec![4u8, 4, 4]);
    assert_eq!(hub.next_frame(a).unwrap().payload(), &vec![5u8, 5, 5]);
    assert!(hub.next_frame(a).is_none());
    // taking frames out does not change the lag
    assert_eq!(hub.lag(a), Some(3));
}

#[test]
fn lag_counts_each_eviction_exactly() {
    for capacity in 1..=4usize {
        for published in 0..=9u8 {
            let mut hub = BroadcastHub::new(capacity);
            let a = hub.attach();
            for tag in 0..published {
                hub.publish(frame(tag));
            }
            let expected_lag = (published as u64).saturating_sub(capacity as u64);
            let expected_pending = std::cmp::min(published as usize, capacity);
            assert_eq!(hub.lag(a), Some(expected_lag));
            assert_eq!(hub.pending(a), Some(expected_pending));
        }
    }
}

#[test]
fn a_slow_subscriber_does_not_hold_back_a_fast_one() {
    let mut hub = BroadcastHub::new(2);
    let slow = hub.attach();
    let fast = hub.attach();
    for tag in 1..=6u8 {
        hub.publish(frame(tag));
        assert_eq!(hub.next_frame(fast).unwrap().payload(), &vec![tag, tag, tag]);
    }
    assert_eq!(hub.lag(fast), Some(0));
    assert_eq!(hub.pending(fast), Some(0));
    assert_eq!(hub.lag(slow), Some(4));
    assert_eq!(hub.pending(slow), Some(2));
}

#[test]
fn remaining_subscriber_keeps_receiving_after_other_detaches() {
    let mut hub = BroadcastHub::new(8);
    let a = hub.attach();
    let b = hub.attach();
    hub.publish(frame(1));
    hub.publish(frame(2));
    hub.detach(a);
    assert!(!hub.is_attached(a));
    assert_eq!(hub.subscriber_count(), 1);
    hub.publish(frame(3));
    hub.publish(frame(4));
    hub.publish(frame(5));
    assert_eq!(hub.pending(b), Some(5));
    assert_eq!(hub.lag(b), Some(0));
    for tag in 1..=5u8 {
        assert_eq!(hub.next_frame(b).unwrap().payload(), &vec![tag, tag, tag]);
    }
    assert!(hub.next_frame(b).is_none());
    // nothing is delivered to the detached handle
    assert_eq!(hub.pending(a), None);
    assert_eq!(hub.lag(a), None);
    assert!(hub.next_frame(a).is_none());
}

#[test]
fn detach_of_first_keeps_later_subscribers_intact() {
    let mut hub = BroadcastHub::new(2);
    let a = hub.attach();
    let b = hub.attach();
    let c = hub.attach();
    hub.publish(frame(1));
    hub.publish(frame(2));
    hub.publish(frame(3));
    let _ = hub.next_frame(c);
    hub.detach(a);
    assert_eq!(hub.lag(b), Some(1));
    assert_eq!(hub.pending(b), Some(2));
    assert_eq!(hub.lag(c), Some(1));
    assert_eq!(hub.pending(c), Some(1));
    assert_eq!(hub.next_frame(c).unwrap().payload(), &vec![3u8, 3, 3]);
}

#[test]
fn detach_twice_is_no_error() {
    let mut hub = BroadcastHub::new(2);
    let a = hub.attach();
    let b = hub.attach();
    hub.detach(a);
    hub.detach(a);
    assert_eq!(hub.subscriber_count(), 1);
    assert!(hub.is_attached(b));
}

#[test]
fn capacity_one_keeps_only_the_newest() {
    let mut hub = BroadcastHub::new(1);
    let a = hub.attach();
    hub.publish(frame(1));
    hub.publish(frame(2));
    assert_eq!(hub.lag(a), Some(1));
    assert_eq!(hub.next_frame(a).unwrap().payload(), &vec![2u8, 2, 2]);
}

#[test]
fn encoded_frame_getters_and_clone() {
    let f = EncodedFrame::new(vec![9, 8, 7], 640, 480, 55);
    assert_eq!(f.len(), 3);
    assert_eq!(f.width(), 640);
    assert_eq!(f.height(), 480);
    assert_eq!(f.quality(), 55);
    assert_eq!(f.encoding(), screencast::frame::Encoding::Jpeg);
    let g = f.clone();
    assert_eq!(g.payload(), f.payload());
    assert_eq!((g.width(), g.height(), g.quality()), (640, 480, 55));
    assert_eq!(f.into_payload(), vec![9, 8, 7]);
}

#[test]
fn handle_ids_count_the_handles_given() {
    let mut hub = BroadcastHub::new(2);
    let a = hub.attach();
    let b = hub.attach();
    hub.detach(a);
    let c = hub.attach();
    assert_eq!((a.id(), b.id(), c.id()), (0, 1, 2));
    assert!(hub.can_attach());
}
