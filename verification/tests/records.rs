use bytes::Bytes;
use kv::actions::Actions;
use kv::encoding::insert_line;
use kv::errors::KVError;
use kv::states::States;

fn every_action() -> Vec<(Actions, &'static str)> {
    vec![
        (
            Actions::Insert {
                key: "x".to_string(),
                value: Bytes::from("1"),
            },
            "Insert { key: x, value: 1 }",
        ),
        (
            Actions::Delete {
                key: "x".to_string(),
            },
            "Delete { key: x }",
        ),
        (
            Actions::DeletePrefix {
                key: "pre".to_string(),
            },
            "DeletePrefix { key: pre }",
        ),
        (Actions::DeleteAll, "DeleteAll"),
        (
            Actions::Read {
                key: "x".to_string(),
            },
            "Read { key: x}",
        ),
        (Actions::List, "List"),
        (
            Actions::ListPrefix {
                prefix: "pre".to_string(),
            },
            "ListPrefix { prefix: pre}",
        ),
        (
            Actions::Heartbeat {
                addr: "127.0.0.1:8080".to_string(),
            },
            "Heartbeat from 127.0.0.1:8080",
        ),
    ]
}

fn every_state() -> Vec<(States, &'static str)> {
    vec![
        (
            States::Insert {
                key: "x".to_string(),
                value: Bytes::from("1"),
            },
            "Insert { key: x, value: 1 }",
        ),
        (
            States::Delete {
                key: "x".to_string(),
            },
            "Delete { key: x }",
        ),
        (
            States::DeletePrefix {
                key: "pre".to_string(),
            },
            "DeletePrefix { key: pre }",
        ),
        (States::DeleteAll, "DeleteAll"),
        (
            States::Read {
                key: "x".to_string(),
            },
            "Read { key: x}",
        ),
        (States::List, "List"),
        (
            States::ListPrefix {
                prefix: "pre".to_string(),
            },
            "ListPrefix { prefix: pre}",
        ),
        (
            States::Heartbeat {
                addr: "[::1]:9".to_string(),
            },
            "Heartbeat from [::1]:9",
        ),
    ]
}

#[test]
fn action_text_is_the_variant_and_its_fields() {
    for (record, text) in every_action() {
        assert_eq!(record.to_string(), text);
    }
}

#[test]
fn action_bytes_are_the_bytes_of_the_text() {
    for (record, text) in every_action() {
        assert_eq!(record.to_bytes(), Bytes::from(text));
        assert_eq!(record.to_bytes().to_vec(), record.to_string().into_bytes());
    }
}

#[test]
fn state_text_is_the_variant_and_its_fields() {
    for (record, text) in every_state() {
        assert_eq!(record.to_string(), text);
    }
}

#[test]
fn state_bytes_are_the_bytes_of_the_text() {
    for (record, text) in every_state() {
        assert_eq!(record.to_bytes(), Bytes::from(text));
    }
}

#[test]
fn value_that_is_no_text_is_shown_with_replacement_marks() {
    let record = Actions::Insert {
        key: "k".to_string(),
        value: Bytes::from(vec![b'a', 0xff, b'b']),
    };
    assert_eq!(record.to_string(), "Insert { key: k, value: a\u{fffd}b }");
    assert_eq!(
        record.to_bytes().to_vec(),
        "Insert { key: k, value: a\u{fffd}b }".as_bytes().to_vec()
    );
    let state = States::Insert {
        key: "k".to_string(),
        value: Bytes::from(vec![0xc3]),
    };
    assert_eq!(state.to_string(), "Insert { key: k, value: \u{fffd} }");
}

#[test]
fn text_keeps_what_is_beyond_ascii() {
    let record = Actions::Insert {
        key: "cl\u{e9}".to_string(),
        value: Bytes::from("\u{4e16}\u{754c}"),
    };
    assert_eq!(
        record.to_string(),
        "Insert { key: cl\u{e9}, value: \u{4e16}\u{754c} }"
    );
    assert_eq!(
        record.to_bytes().to_vec(),
        "Insert { key: cl\u{e9}, value: \u{4e16}\u{754c} }"
            .as_bytes()
            .to_vec()
    );
}

#[test]
fn empty_fields_leave_the_frame_alone() {
    let record = Actions::Insert {
        key: String::new(),
        value: Bytes::new(),
    };
    assert_eq!(record.to_string(), "Insert { key: , value:  }");
    let read = Actions::Read { key: String::new() };
    assert_eq!(read.to_string(), "Read { key: }");
}

#[test]
fn record_clone_has_the_same_text() {
    for (record, text) in every_action() {
        assert_eq!(record.clone().to_string(), text);
    }
    for (record, text) in every_state() {
        assert_eq!(record.clone().to_string(), text);
    }
}

#[test]
fn every_error_reads_as_unavailable() {
    let unavailable = KVError::Unavailable {
        reason: "lock lost".to_string(),
    };
    assert_eq!(unavailable.to_string(), "data store unavailable");
    let feed = KVError::WALChannelError {
        source: tokio::sync::broadcast::error::SendError(Actions::List),
    };
    assert_eq!(feed.to_string(), "data store unavailable");
}

#[test]
fn makers_make_the_record_of_their_operation() {
    let raw = vec![0u8, 255, 7];
    match Actions::insertion("x", Bytes::from(raw.clone())) {
        Actions::Insert { key, value } => {
            assert_eq!(key, "x");
            assert_eq!(value.to_vec(), raw);
        }
        other => panic!("not an insertion: {}", other.to_string()),
    }
    assert!(matches!(Actions::deletion("x"), Actions::Delete { key } if key == "x"));
    assert!(matches!(Actions::prefix_deletion("p"), Actions::DeletePrefix { key } if key == "p"));
    assert!(matches!(Actions::full_deletion(), Actions::DeleteAll));
    assert!(matches!(Actions::read("x"), Actions::Read { key } if key == "x"));
    assert!(matches!(Actions::listing(), Actions::List));
    assert!(matches!(Actions::prefix_listing("p"), Actions::ListPrefix { prefix } if prefix == "p"));
    assert!(
        matches!(Actions::heartbeat("127.0.0.1:8080"), Actions::Heartbeat { addr } if addr == "127.0.0.1:8080")
    );
}

#[test]
fn makers_give_the_texts_of_their_records() {
    assert_eq!(
        Actions::insertion("x", Bytes::from("1")).to_string(),
        "Insert { key: x, value: 1 }"
    );
    assert_eq!(Actions::deletion("x").to_string(), "Delete { key: x }");
    assert_eq!(Actions::prefix_deletion("p").to_string(), "DeletePrefix { key: p }");
    assert_eq!(Actions::full_deletion().to_string(), "DeleteAll");
    assert_eq!(Actions::read("x").to_string(), "Read { key: x}");
    assert_eq!(Actions::listing().to_string(), "List");
    assert_eq!(Actions::prefix_listing("p").to_string(), "ListPrefix { prefix: p}");
    assert_eq!(
        Actions::heartbeat("127.0.0.1:8080").to_string(),
        "Heartbeat from 127.0.0.1:8080"
    );
}

#[test]
fn insert_line_frames_the_key_and_the_shown_value() {
    assert_eq!(insert_line("x", "1"), "Insert { key: x, value: 1 }");
    assert_eq!(insert_line("", ""), "Insert { key: , value:  }");
    assert_eq!(insert_line("k", "\u{fffd}"), "Insert { key: k, value: \u{fffd} }");
    assert_eq!(
        insert_line("a, value: b", "c"),
        "Insert { key: a, value: b, value: c }"
    );
}
