use liquidation_relay::state::{reach_of, AppState, Delivery, DEFAULT_CAPACITY};
use liquidation_relay::types::{NormalizedEvent, StreamEvent};

fn order_update(timestamp: u64) -> NormalizedEvent {
    NormalizedEvent::Stream(StreamEvent {
        symbol: String::from("BTCUSDT"),
        side: String::from("SELL"),
        order_type: String::from("LIMIT"),
        time_in_force: String::from("IOC"),
        original_quantity: String::from("0.014"),
        filled_quantity: String::from("0.014"),
        cumulative_filled_quantity: String::from("0.014"),
        limit_price: String::from("9910"),
        average_price: String::from("9910.5"),
        status: String::from("FILLED"),
        timestamp,
    })
}

#[test]
fn default_capacity_is_1024() {
    assert_eq!(DEFAULT_CAPACITY, 1024);
    assert!(AppState::try_new(DEFAULT_CAPACITY).is_some());
}

#[test]
fn capacity_out_of_range_gives_no_bus() {
    assert!(AppState::try_new(0).is_none());
    assert!(AppState::try_new(usize::MAX).is_none());
    assert!(AppState::try_new(usize::MAX / 2 + 1).is_none());
    assert!(AppState::try_new(1).is_some());
    assert!(AppState::try_new(2).is_some());
}

#[test]
fn new_bus_has_no_subscriber() {
    let bus = AppState::new(16);
    assert_eq!(bus.subscriber_count(), 0);
    let first = bus.subscribe();
    assert_eq!(bus.subscriber_count(), 1);
    let second = bus.subscribe();
    assert_eq!(bus.subscriber_count(), 2);
    drop(first);
    assert_eq!(bus.subscriber_count(), 1);
    drop(second);
    assert_eq!(bus.subscriber_count(), 0);
}

#[test]
fn publish_without_subscribers_is_silent() {
    let bus = AppState::new(4);
    for timestamp in 0..100 {
        assert_eq!(bus.publish(order_update(timestamp)), 0);
    }
    let mut late = bus.subscribe();
    assert_eq!(late.try_recv_next(), Delivery::Empty);
}

#[test]
fn publish_returns_the_number_of_subscribers() {
    let bus = AppState::new(4);
    let _first = bus.subscribe();
    assert_eq!(bus.publish(order_update(1)), 1);
    let _second = bus.subscribe();
    let _third = bus.subscribe();
    assert_eq!(bus.publish(order_update(2)), 3);
}

#[test]
fn new_subscriber_sees_no_history() {
    let bus = AppState::new(8);
    let mut early = bus.subscribe();
    bus.publish(order_update(1));
    bus.publish(order_update(2));
    let mut late = bus.subscribe();
    bus.publish(order_update(3));
    assert_eq!(early.try_recv_next(), Delivery::Event(order_update(1)));
    assert_eq!(early.try_recv_next(), Delivery::Event(order_update(2)));
    assert_eq!(early.try_recv_next(), Delivery::Event(order_update(3)));
    assert_eq!(early.try_recv_next(), Delivery::Empty);
    assert_eq!(late.try_recv_next(), Delivery::Event(order_update(3)));
    assert_eq!(late.try_recv_next(), Delivery::Empty);
}

#[test]
fn every_subscriber_receives_each_event_once_in_order() {
    let bus = AppState::new(64);
    let mut cursors = vec![bus.subscribe(), bus.subscribe(), bus.subscribe()];
    let producer = bus.clone();
    for timestamp in 0..50 {
        assert_eq!(producer.publish(order_update(timestamp)), 3);
    }
    for cursor in cursors.iter_mut() {
        for timestamp in 0..50 {
            assert_eq!(cursor.try_recv_next(), Delivery::Event(order_update(timestamp)));
        }
        assert_eq!(cursor.try_recv_next(), Delivery::Empty);
    }
}

#[test]
fn lagging_subscriber_resumes_from_oldest_retained() {
    let bus = AppState::new(2);
    let mut slow = bus.subscribe();
    for timestamp in 1..=5 {
        bus.publish(order_update(timestamp));
    }
    assert_eq!(slow.try_recv_next(), Delivery::Lagged(3));
    assert_eq!(slow.try_recv_next(), Delivery::Event(order_update(4)));
    assert_eq!(slow.try_recv_next(), Delivery::Event(order_update(5)));
    assert_eq!(slow.try_recv_next(), Delivery::Empty);
    bus.publish(order_update(6));
    assert_eq!(slow.try_recv_next(), Delivery::Event(order_update(6)));
}

#[test]
fn subscriber_at_capacity_has_not_lagged() {
    let bus = AppState::new(4);
    let mut cursor = bus.subscribe();
    for timestamp in 1..=4 {
        bus.publish(order_update(timestamp));
    }
    for timestamp in 1..=4 {
        assert_eq!(cursor.try_recv_next(), Delivery::Event(order_update(timestamp)));
    }
    assert_eq!(cursor.try_recv_next(), Delivery::Empty);
}

#[test]
fn slow_subscriber_does_not_hold_the_others_up() {
    let bus = AppState::new(2);
    let mut slow = bus.subscribe();
    let mut fast = bus.subscribe();
    for timestamp in 1..=10 {
        assert_eq!(bus.publish(order_update(timestamp)), 2);
        assert_eq!(fast.try_recv_next(), Delivery::Event(order_update(timestamp)));
    }
    assert_eq!(slow.try_recv_next(), Delivery::Lagged(8));
    assert_eq!(slow.try_recv_next(), Delivery::Event(order_update(9)));
    assert_eq!(slow.try_recv_next(), Delivery::Event(order_update(10)));
}

#[test]
fn bus_closes_when_every_sending_half_is_gone() {
    let bus = AppState::new(4);
    let copy = bus.clone();
    let mut cursor = bus.subscribe();
    bus.publish(order_update(1));
    drop(bus);
    assert_eq!(cursor.try_recv_next(), Delivery::Event(order_update(1)));
    assert_eq!(cursor.try_recv_next(), Delivery::Empty);
    drop(copy);
    assert_eq!(cursor.try_recv_next(), Delivery::Closed);
}

#[test]
fn capacity_is_rounded_up_to_a_power_of_two() {
    for (asked, retained) in [(1u64, 1u64), (2, 2), (3, 4), (4, 4), (5, 8), (9, 16)] {
        let bus = AppState::new(asked as usize);
        let mut cursor = bus.subscribe();
        for timestamp in 1..=retained {
            bus.publish(order_update(timestamp));
        }
        for timestamp in 1..=retained {
            assert_eq!(cursor.try_recv_next(), Delivery::Event(order_update(timestamp)));
        }
        assert_eq!(cursor.try_recv_next(), Delivery::Empty);

        let bus = AppState::new(asked as usize);
        let mut cursor = bus.subscribe();
        for timestamp in 1..=retained + 1 {
            bus.publish(order_update(timestamp));
        }
        assert_eq!(cursor.try_recv_next(), Delivery::Lagged(1));
        for timestamp in 2..=retained + 1 {
            assert_eq!(cursor.try_recv_next(), Delivery::Event(order_update(timestamp)));
        }
        assert_eq!(cursor.try_recv_next(), Delivery::Empty);
    }
}

#[test]
fn cursor_is_on_the_bus_that_it_subscribed_to() {
    let first = AppState::new(4);
    let second = AppState::new(4);
    let mut on_first = first.subscribe();
    let mut on_second = second.subscribe();
    assert!(first.sender.same_channel(&first.clone().sender));
    assert!(!first.sender.same_channel(&second.sender));
    first.publish(order_update(1));
    assert_eq!(on_second.try_recv_next(), Delivery::Empty);
    assert_eq!(on_first.try_recv_next(), Delivery::Event(order_update(1)));
    second.publish(order_update(2));
    assert_eq!(on_first.try_recv_next(), Delivery::Empty);
    assert_eq!(on_second.try_recv_next(), Delivery::Event(order_update(2)));
}

#[test]
fn cursor_moves_by_what_it_delivers_and_by_what_it_reports_lost() {
    let bus = AppState::new(4);
    let mut cursor = bus.subscribe();
    let mut twin = bus.subscribe();
    for timestamp in 1..=9 {
        bus.publish(order_update(timestamp));
    }
    let mut passed: u64 = 0;
    loop {
        match cursor.try_recv_next() {
            Delivery::Event(event) => {
                passed += 1;
                assert_eq!(event, order_update(passed));
            }
            Delivery::Lagged(lost) => {
                assert!(lost >= 1);
                passed += lost;
            }
            Delivery::Empty => break,
            Delivery::Closed => panic!("the bus is open"),
        }
    }
    assert_eq!(passed, 9);
    assert_eq!(cursor.try_recv_next(), Delivery::Empty);
    assert_eq!(twin.try_recv_next(), Delivery::Lagged(5));
}

#[test]
fn reach_is_the_count_that_the_channel_gave() {
    assert_eq!(reach_of(Some(3)), 3);
    assert_eq!(reach_of(Some(usize::MAX)), usize::MAX);
    assert_eq!(reach_of(None), 0);
}

#[test]
fn clones_share_one_bus() {
    let bus = AppState::new(8);
    let first = bus.clone();
    let second = first.clone();
    assert!(bus.sender.same_channel(&first.sender));
    assert!(bus.sender.same_channel(&second.sender));
    let mut on_bus = bus.subscribe();
    let mut on_first = first.subscribe();
    let mut on_second = second.subscribe();
    assert_eq!(bus.subscriber_count(), 3);
    assert_eq!(second.subscriber_count(), 3);
    assert_eq!(first.publish(order_update(1)), 3);
    assert_eq!(second.publish(order_update(2)), 3);
    assert_eq!(bus.publish(order_update(3)), 3);
    for cursor in [&mut on_bus, &mut on_first, &mut on_second] {
        assert_eq!(cursor.try_recv_next(), Delivery::Event(order_update(1)));
        assert_eq!(cursor.try_recv_next(), Delivery::Event(order_update(2)));
        assert_eq!(cursor.try_recv_next(), Delivery::Event(order_update(3)));
        assert_eq!(cursor.try_recv_next(), Delivery::Empty);
    }
}

#[test]
fn clone_keeps_the_capacity() {
    let bus = AppState::new(2);
    let copy = bus.clone();
    let mut cursor = bus.subscribe();
    for timestamp in 1..=3 {
        copy.publish(order_update(timestamp));
    }
    assert_eq!(cursor.try_recv_next(), Delivery::Lagged(1));
    assert_eq!(cursor.try_recv_next(), Delivery::Event(order_update(2)));
    assert_eq!(cursor.try_recv_next(), Delivery::Event(order_update(3)));
}
