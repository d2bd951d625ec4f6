use bytes::Bytes;
use kv::actions::{ActionBroadcaster, Actions, Delivery};
use tokio::sync::broadcast::error::TryRecvError;
use tokio::sync::broadcast::Receiver;

fn next_text(subscriber: &mut Receiver<Actions>) -> String {
    subscriber.try_recv().unwrap().to_string()
}

#[test]
fn two_subscribers_that_keep_pace_see_the_same_order() {
    let feed = ActionBroadcaster::new();
    let mut first = feed.subscribe();
    let mut second = feed.subscribe();
    assert!(feed.insert("x", Bytes::from("1")).is_ok());
    assert_eq!(next_text(&mut first), "Insert { key: x, value: 1 }");
    assert_eq!(next_text(&mut second), "Insert { key: x, value: 1 }");
    assert!(feed.remove("x").is_ok());
    assert_eq!(next_text(&mut first), "Delete { key: x }");
    assert_eq!(next_text(&mut second), "Delete { key: x }");
    assert!(matches!(first.try_recv(), Err(TryRecvError::Empty)));
    assert!(matches!(second.try_recv(), Err(TryRecvError::Empty)));
}

#[test]
fn subscriber_that_reads_later_sees_the_order_of_publication() {
    let feed = ActionBroadcaster::new();
    let mut subscriber = feed.subscribe();
    feed.insert("x", Bytes::from("1")).unwrap();
    feed.remove("x").unwrap();
    assert_eq!(next_text(&mut subscriber), "Insert { key: x, value: 1 }");
    assert_eq!(next_text(&mut subscriber), "Delete { key: x }");
}

#[test]
fn subscriber_that_falls_behind_misses_the_oldest_records() {
    let feed = ActionBroadcaster::with_capacity(2);
    let mut slow = feed.subscribe();
    for n in 1..=5 {
        feed.get(&format!("k{}", n)).unwrap();
    }
    assert!(matches!(slow.try_recv(), Err(TryRecvError::Lagged(3))));
    assert_eq!(next_text(&mut slow), "Read { key: k4}");
    assert_eq!(next_text(&mut slow), "Read { key: k5}");
    assert!(matches!(slow.try_recv(), Err(TryRecvError::Empty)));
}

#[test]
fn slow_subscriber_does_not_hold_back_a_fast_one() {
    let feed = ActionBroadcaster::with_capacity(2);
    let mut slow = feed.subscribe();
    let mut fast = feed.subscribe();
    for n in 1..=6 {
        feed.get(&format!("k{}", n)).unwrap();
        assert_eq!(next_text(&mut fast), format!("Read {{ key: k{}}}", n));
    }
    let mut seen = Vec::new();
    let mut missed = 0;
    loop {
        match slow.try_recv() {
            Ok(record) => seen.push(record.to_string()),
            Err(TryRecvError::Lagged(count)) => missed += count,
            Err(_) => break,
        }
    }
    assert_eq!(seen, vec!["Read { key: k5}", "Read { key: k6}"]);
    assert_eq!(missed, 4);
}

#[test]
fn default_queue_keeps_at_least_ten_records() {
    let feed = ActionBroadcaster::default();
    let mut subscriber = feed.subscribe();
    for n in 0..10 {
        feed.remove(&format!("k{}", n)).unwrap();
    }
    for n in 0..10 {
        assert_eq!(next_text(&mut subscriber), format!("Delete {{ key: k{} }}", n));
    }
}

#[test]
fn subscriber_gets_nothing_published_before_it_came() {
    let feed = ActionBroadcaster::new();
    let mut early = feed.subscribe();
    feed.list_keys().unwrap();
    let mut late = feed.subscribe();
    feed.remove_all().unwrap();
    assert_eq!(next_text(&mut early), "List");
    assert_eq!(next_text(&mut early), "DeleteAll");
    assert_eq!(next_text(&mut late), "DeleteAll");
    assert!(matches!(late.try_recv(), Err(TryRecvError::Empty)));
}

#[test]
fn publishing_without_a_subscriber_is_no_error() {
    let feed = ActionBroadcaster::new();
    assert!(feed.send_heartbeat("10.0.0.1:4000").is_ok());
    assert!(feed.get("k").is_ok());
    assert!(feed.insert("k", Bytes::from("v")).is_ok());
    assert!(feed.remove("k").is_ok());
    assert!(feed.remove_with_prefix("k").is_ok());
    assert!(feed.remove_all().is_ok());
    assert!(feed.list_keys().is_ok());
    assert!(feed.list_keys_with_prefix("k").is_ok());
    assert!(matches!(
        feed.publish(Actions::List),
        Delivery::Unheard {
            record: Actions::List
        }
    ));
    let subscriber = feed.subscribe();
    drop(subscriber);
    match feed.publish(Actions::Delete {
        key: "k".to_string(),
    }) {
        Delivery::Unheard { record } => assert_eq!(record.to_string(), "Delete { key: k }"),
        Delivery::Queued { .. } => panic!("nobody is subscribed"),
    }
    assert!(feed.list_keys().is_ok());
}

#[test]
fn publish_counts_the_subscribers() {
    let feed = ActionBroadcaster::new();
    let _first = feed.subscribe();
    assert!(matches!(
        feed.publish(Actions::List),
        Delivery::Queued { subscribers: 1 }
    ));
    let _second = feed.clone().subscribe();
    assert!(matches!(
        feed.publish(Actions::DeleteAll),
        Delivery::Queued { subscribers: 2 }
    ));
    assert!(matches!(
        feed.clone().publish(Actions::DeleteAll),
        Delivery::Queued { subscribers: 2 }
    ));
}

#[test]
fn reached_is_the_count_or_the_record() {
    assert!(matches!(
        ActionBroadcaster::reached(Ok(3)),
        Delivery::Queued { subscribers: 3 }
    ));
    match ActionBroadcaster::reached(Err(Actions::Read {
        key: "k".to_string(),
    })) {
        Delivery::Unheard { record } => assert_eq!(record.to_string(), "Read { key: k}"),
        Delivery::Queued { .. } => panic!("the channel took nothing"),
    }
}

#[test]
fn queue_depth_is_what_the_feed_was_made_with() {
    assert_eq!(ActionBroadcaster::new().queue_depth(), 10);
    assert_eq!(ActionBroadcaster::default().queue_depth(), 10);
    assert_eq!(ActionBroadcaster::with_capacity(2).queue_depth(), 2);
    assert_eq!(ActionBroadcaster::with_capacity(100).clone().queue_depth(), 100);
}

#[test]
fn unread_records_up_to_the_queue_depth_are_all_kept() {
    for depth in [1, 2, 3, 10, 100] {
        let feed = ActionBroadcaster::with_capacity(depth);
        let mut subscriber = feed.subscribe();
        for n in 0..feed.queue_depth() {
            feed.get(&format!("k{}", n)).unwrap();
        }
        for n in 0..depth {
            assert_eq!(next_text(&mut subscriber), format!("Read {{ key: k{}}}", n));
        }
        assert!(matches!(subscriber.try_recv(), Err(TryRecvError::Empty)));
    }
}

#[test]
fn every_operation_publishes_its_own_record() {
    let feed = ActionBroadcaster::with_capacity(16);
    let mut subscriber = feed.subscribe();
    feed.send_heartbeat("10.0.0.1:4000").unwrap();
    feed.get("a").unwrap();
    feed.insert("b", Bytes::from("v")).unwrap();
    feed.remove("c").unwrap();
    feed.remove_with_prefix("d").unwrap();
    feed.remove_all().unwrap();
    feed.list_keys().unwrap();
    feed.list_keys_with_prefix("e").unwrap();
    let expected = [
        "Heartbeat from 10.0.0.1:4000",
        "Read { key: a}",
        "Insert { key: b, value: v }",
        "Delete { key: c }",
        "DeletePrefix { key: d }",
        "DeleteAll",
        "List",
        "ListPrefix { prefix: e}",
    ];
    for text in expected {
        assert_eq!(next_text(&mut subscriber), text);
    }
    assert!(matches!(subscriber.try_recv(), Err(TryRecvError::Empty)));
}

#[test]
fn clones_of_a_broadcaster_publish_to_one_feed() {
    let feed = ActionBroadcaster::new();
    let other = feed.clone();
    let mut subscriber = feed.subscribe();
    other.list_keys().unwrap();
    feed.remove_all().unwrap();
    assert_eq!(next_text(&mut subscriber), "List");
    assert_eq!(next_text(&mut subscriber), "DeleteAll");
}

#[test]
fn insertion_reaches_a_subscriber_with_its_key_and_its_bytes() {
    let feed = ActionBroadcaster::new();
    let mut subscriber = feed.subscribe();
    let raw = vec![0u8, 159, 255];
    feed.insert("k", Bytes::from(raw.clone())).unwrap();
    match subscriber.try_recv() {
        Ok(Actions::Insert { key, value }) => {
            assert_eq!(key, "k");
            assert_eq!(value.to_vec(), raw);
        }
        _ => panic!("an insertion was published"),
    }
    assert!(matches!(subscriber.try_recv(), Err(TryRecvError::Empty)));
}

#[test]
fn heartbeat_and_read_reach_a_subscriber_once_each() {
    let feed = ActionBroadcaster::new();
    let mut subscriber = feed.subscribe();
    feed.send_heartbeat("127.0.0.1:8080").unwrap();
    assert!(
        matches!(subscriber.try_recv(), Ok(Actions::Heartbeat { addr }) if addr == "127.0.0.1:8080")
    );
    assert!(matches!(subscriber.try_recv(), Err(TryRecvError::Empty)));
    feed.get("k").unwrap();
    assert!(matches!(subscriber.try_recv(), Ok(Actions::Read { key }) if key == "k"));
    assert!(matches!(subscriber.try_recv(), Err(TryRecvError::Empty)));
}
