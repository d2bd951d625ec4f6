use bytes::Bytes;
use kv::wal::{Operations, WAL};

#[test]
fn test_wal_insert() {
    let mut wal = WAL::new();
    let key = "key";
    let value = Bytes::from("value");
    let pos = wal.insert(key, value);
    assert_eq!(
        *wal.get(pos).unwrap(),
        Operations::Insert {
            key: "key".to_string(),
            value: Bytes::from("value")
        }
    );
}

#[test]
fn test_wal_insert_with_rollover() {
    let test_len = 1;
    let mut wal = WAL::new_with_size(test_len);
    for i in 0..test_len * 2 {
        let key = format!("key{}", i);
        let value = Bytes::from(format!("value{}", i));
        let pos = wal.insert(&key, value);
        assert!(pos < test_len, "position should be less than 'test_len'");
        assert_eq!(
            *wal.get(pos).unwrap(),
            Operations::Insert {
                key: key.to_string(),
                value: Bytes::from(format!("value{}", i))
            }
        );
    }
    assert_eq!(wal.len(), test_len, "wal should have 'test_len' items");
}

#[test]
fn test_wal_all_operations() {
    let mut wal = WAL::new();
    let key = "key";
    let value = Bytes::from("value");
    let pos = wal.insert(key, value);
    assert_eq!(
        *wal.get(pos).unwrap(),
        Operations::Insert {
            key: "key".to_string(),
            value: Bytes::from("value")
        }
    );

    let pos = wal.delete(key);
    assert_eq!(
        *wal.get(pos).unwrap(),
        Operations::Delete {
            key: "key".to_string()
        }
    );
    let pos = wal.delete_prefix(key);
    assert_eq!(
        *wal.get(pos).unwrap(),
        Operations::DeletePrefix {
            prefix: "key".to_string()
        }
    );
    let pos = wal.delete_all();
    assert_eq!(*wal.get(pos).unwrap(), Operations::DeleteAll);
}

fn record(number: usize) -> Operations {
    Operations::Insert {
        key: format!("k{}", number),
        value: Bytes::from(format!("v{}", number)),
    }
}

#[test]
fn ring_of_two_keeps_the_last_two_of_four() {
    let mut wal = WAL::new_with_size(2);
    let slots: Vec<usize> = (1..=4).map(|n| wal.append(record(n))).collect();
    assert_eq!(slots, vec![0, 1, 0, 1]);
    assert_eq!(wal.len(), 2);
    assert_eq!(*wal.get(0).unwrap(), record(3));
    assert_eq!(*wal.get(1).unwrap(), record(4));
    assert_eq!(wal.get(2), None);
}

#[test]
fn ring_fills_its_slots_in_order_before_it_wraps() {
    let mut wal = WAL::new_with_size(3);
    assert_eq!(wal.capacity(), 3);
    assert_eq!(wal.len(), 0);
    assert_eq!(wal.get(0), None);
    assert_eq!(wal.append(record(0)), 0);
    assert_eq!(wal.len(), 1);
    assert_eq!(wal.append(record(1)), 1);
    assert_eq!(wal.append(record(2)), 2);
    assert_eq!(wal.len(), 3);
    assert_eq!(wal.append(record(3)), 0);
    assert_eq!(wal.len(), 3);
    assert_eq!(*wal.get(0).unwrap(), record(3));
    assert_eq!(*wal.get(1).unwrap(), record(1));
    assert_eq!(*wal.get(2).unwrap(), record(2));
}

#[test]
fn ring_slot_is_the_record_number_modulo_the_capacity() {
    let capacity = 7;
    let mut wal = WAL::new_with_size(capacity);
    for number in 0..50 {
        let slot = wal.append(record(number));
        assert!(slot < capacity);
        assert_eq!(slot, number % capacity);
        assert_eq!(*wal.get(slot).unwrap(), record(number));
    }
    for number in 43..50 {
        assert_eq!(*wal.get(number % capacity).unwrap(), record(number));
    }
}

#[test]
fn default_ring_has_a_thousand_slots() {
    let mut wal = WAL::default();
    assert_eq!(wal.capacity(), 1000);
    assert_eq!(WAL::new().capacity(), 1000);
    for number in 0..1000 {
        assert_eq!(wal.append(record(number)), number);
    }
    assert_eq!(wal.len(), 1000);
    assert_eq!(wal.delete_all(), 0);
    assert_eq!(wal.len(), 1000);
    assert_eq!(*wal.get(0).unwrap(), Operations::DeleteAll);
    assert_eq!(*wal.get(999).unwrap(), record(999));
}

#[test]
fn ring_clone_is_independent_of_its_source() {
    let mut wal = WAL::new_with_size(2);
    wal.insert("a", Bytes::from("1"));
    let mut copy = wal.clone();
    assert_eq!(copy.delete("a"), 1);
    assert_eq!(wal.len(), 1);
    assert_eq!(copy.len(), 2);
    assert_eq!(
        *copy.get(0).unwrap(),
        Operations::Insert {
            key: "a".to_string(),
            value: Bytes::from("1")
        }
    );
    assert_eq!(wal.delete_prefix("a"), 1);
    assert_eq!(
        *wal.get(1).unwrap(),
        Operations::DeletePrefix {
            prefix: "a".to_string()
        }
    );
    assert_eq!(
        *copy.get(1).unwrap(),
        Operations::Delete {
            key: "a".to_string()
        }
    );
}

#[test]
fn operation_clone_equals_its_source() {
    let source = record(5);
    assert_eq!(source.clone(), source);
    assert_eq!(Operations::DeleteAll.clone(), Operations::DeleteAll);
}
