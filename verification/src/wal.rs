//! A fixed-capacity ring log of the most recent store operations.
//!
//! The log fills its slots in order and then starts again at the first one,
//! so that it always holds the latest operations, at most as many as its
//! capacity.

use crate::payload::payload_bytes;
use bytes::Bytes;
use vstd::prelude::*;

verus! {

/// One mutation of the store, as the log keeps it.
#[derive(Debug, PartialEq, Eq)]
pub enum Operations {
    Insert { key: String, value: Bytes },
    Delete { key: String },
    DeletePrefix { prefix: String },
    DeleteAll,
}

/// What an [`Operations`] record holds, as plain text and bytes.
pub enum OperationsView {
    Insert { key: Seq<char>, value: Seq<u8> },
    Delete { key: Seq<char> },
    DeletePrefix { prefix: Seq<char> },
    DeleteAll,
}

impl View for Operations {
    type V = OperationsView;

    open spec fn view(&self) -> OperationsView {
        match self {
            Operations::Insert { key, value } => OperationsView::Insert {
                key: key@,
                value: payload_bytes(*value),
            },
            Operations::Delete { key } => OperationsView::Delete { key: key@ },
            Operations::DeletePrefix { prefix } => OperationsView::DeletePrefix { prefix: prefix@ },
            Operations::DeleteAll => OperationsView::DeleteAll,
        }
    }
}

impl Clone for Operations {
    fn clone(&self) -> (copy: Operations)
        ensures
            copy@ == self@,
    {
        match self {
            Operations::Insert { key, value } => Operations::Insert {
                key: key.clone(),
                value: value.clone(),
            },
            Operations::Delete { key } => Operations::Delete { key: key.clone() },
            Operations::DeletePrefix { prefix } => Operations::DeletePrefix {
                prefix: prefix.clone(),
            },
            Operations::DeleteAll => Operations::DeleteAll,
        }
    }
}

/// The state of a ring log: the records in slot order, the slot written
/// last, and the number of slots.
pub struct WalView {
    pub records: Seq<OperationsView>,
    pub position: nat,
    pub capacity: nat,
}

impl WalView {
    /// A log of `capacity` slots that holds nothing. Its position stands one
    /// past the last slot, so that the first record goes to slot 0.
    pub open spec fn fresh(capacity: nat) -> WalView {
        WalView { records: Seq::empty(), position: capacity, capacity }
    }

    /// The slot that the next record goes to.
    pub open spec fn next_position(self) -> nat {
        if self.position + 1 >= self.capacity {
            0
        } else {
            self.position + 1
        }
    }

    /// The log after one more record: it takes a new slot while there is
    /// one, and else replaces the record in the next slot.
    pub open spec fn append(self, operation: OperationsView) -> WalView {
        let slot = self.next_position();
        WalView {
            records: if self.records.len() < self.capacity {
                self.records.push(operation)
            } else {
                self.records.update(slot as int, operation)
            },
            position: slot,
            capacity: self.capacity,
        }
    }

    /// The log after the records of `operations`, first to last.
    pub open spec fn append_all(self, operations: Seq<OperationsView>) -> WalView
        decreases operations.len(),
    {
        if operations.len() == 0 {
            self
        } else {
            self.append_all(operations.drop_last()).append(operations.last())
        }
    }

    /// The states that a log can be in: while it fills, the position is the
    /// last slot in use; once full, it is any slot.
    pub open spec fn wf(self) -> bool {
        &&& self.capacity > 0
        &&& self.records.len() <= self.capacity
        &&& if self.records.len() == 0 {
            self.position == self.capacity
        } else {
            &&& self.position < self.records.len()
            &&& self.records.len() < self.capacity ==> self.position + 1 == self.records.len()
        }
    }
}

/// Appending keeps a log well formed, puts the record in the slot that
/// becomes the position, and leaves every other record where it was.
pub proof fn lemma_append_writes_one_slot(log: WalView, operation: OperationsView)
    requires
        log.wf(),
    ensures
        log.append(operation).wf(),
        log.append(operation).position < log.capacity,
        log.append(operation).records[log.append(operation).position as int] == operation,
        forall|slot: int|
            0 <= slot < log.records.len() && slot != log.append(operation).position
                ==> log.append(operation).records[slot] == log.records[slot],
{
}

/// The slot of record number `number`, counted from 0, in a log of
/// `capacity` slots that was filled from empty.
pub open spec fn slot_of(number: int, capacity: nat) -> int {
    number % (capacity as int)
}

/// Two record numbers less than a capacity apart go to different slots.
proof fn lemma_near_numbers_differ(earlier: int, later: int, capacity: int)
    requires
        0 <= earlier < later,
        later - earlier < capacity,
    ensures
        earlier % capacity != later % capacity,
{
    vstd::arithmetic::div_mod::lemma_fundamental_div_mod(earlier, capacity);
    vstd::arithmetic::div_mod::lemma_fundamental_div_mod(later, capacity);
    let q1 = earlier / capacity;
    let q2 = later / capacity;
    if earlier % capacity == later % capacity {
        assert(later - earlier == capacity * (q2 - q1)) by (nonlinear_arith)
            requires
                earlier == capacity * q1 + earlier % capacity,
                later == capacity * q2 + later % capacity,
                earlier % capacity == later % capacity,
        ;
        assert(false) by (nonlinear_arith)
            requires
                later - earlier == capacity * (q2 - q1),
                0 < later - earlier < capacity,
        ;
    }
}

/// The slot after that of record number `number` is the slot of the next
/// number.
proof fn lemma_next_slot(number: int, capacity: int)
    requires
        0 <= number,
        0 < capacity,
    ensures
        (number + 1) % capacity == (if number % capacity + 1 >= capacity {
            0
        } else {
            number % capacity + 1
        }),
{
    vstd::arithmetic::div_mod::lemma_fundamental_div_mod(number, capacity);
    vstd::arithmetic::div_mod::lemma_mod_division_less_than_divisor(number, capacity);
    let quotient = number / capacity;
    let rest = number % capacity;
    if rest + 1 >= capacity {
        assert(number + 1 == (quotient + 1) * capacity + 0) by (nonlinear_arith)
            requires
                number == capacity * quotient + rest,
                rest + 1 == capacity,
        ;
        vstd::arithmetic::div_mod::lemma_fundamental_div_mod_converse_mod(
            number + 1,
            capacity,
            quotient + 1,
            0,
        );
    } else {
        assert(number + 1 == quotient * capacity + (rest + 1)) by (nonlinear_arith)
            requires
                number == capacity * quotient + rest,
        ;
        vstd::arithmetic::div_mod::lemma_fundamental_div_mod_converse_mod(
            number + 1,
            capacity,
            quotient,
            rest + 1,
        );
    }
}

/// A log filled from empty holds the latest records, as many as it has
/// slots: record number `n`, counted from 0, stands in slot `n % capacity`
/// until the record `capacity` numbers later replaces it, and the position is
/// the slot of the last record.
pub proof fn lemma_ring_keeps_latest(capacity: nat, operations: Seq<OperationsView>)
    requires
        capacity > 0,
    ensures
        WalView::fresh(capacity).append_all(operations).wf(),
        WalView::fresh(capacity).append_all(operations).capacity == capacity,
        WalView::fresh(capacity).append_all(operations).records.len() == (if operations.len()
            < capacity {
            operations.len()
        } else {
            capacity
        }),
        operations.len() > 0 ==> WalView::fresh(capacity).append_all(operations).position
            == slot_of(operations.len() - 1, capacity),
        forall|n: int|
            0 <= n < operations.len() && operations.len() - n <= capacity ==> {
                &&& 0 <= #[trigger] slot_of(n, capacity)
                &&& slot_of(n, capacity) < WalView::fresh(capacity).append_all(
                    operations,
                ).records.len()
                &&& WalView::fresh(capacity).append_all(operations).records[slot_of(n, capacity)]
                    == operations[n]
            },
    decreases operations.len(),
{
    let log = WalView::fresh(capacity).append_all(operations);
    if operations.len() > 0 {
        let earlier = operations.drop_last();
        let before = WalView::fresh(capacity).append_all(earlier);
        let count = earlier.len() as int;
        lemma_ring_keeps_latest(capacity, earlier);
        lemma_append_writes_one_slot(before, operations.last());
        if count > 0 {
            lemma_next_slot(count - 1, capacity as int);
        }
        vstd::arithmetic::div_mod::lemma_small_mod(0, capacity);
        assert forall|n: int|
            0 <= n < operations.len() && operations.len() - n <= capacity implies 0
            <= #[trigger] slot_of(n, capacity) && slot_of(n, capacity) < log.records.len()
            && log.records[slot_of(n, capacity)] == operations[n] by {
            vstd::arithmetic::div_mod::lemma_mod_division_less_than_divisor(n, capacity as int);
            if n < capacity {
                vstd::arithmetic::div_mod::lemma_small_mod(n as nat, capacity);
            }
            if n < count {
                lemma_near_numbers_differ(n, count, capacity as int);
                assert(earlier[n] == operations[n]);
            }
        }
    }
}

/// The ring log. Its capacity is fixed when it is made.
pub struct WAL {
    data: Vec<Operations>,
    position: usize,
    maximum_size: usize,
}

impl View for WAL {
    type V = WalView;

    closed spec fn view(&self) -> WalView {
        WalView {
            records: self.data@.map_values(|operation: Operations| operation@),
            position: self.position as nat,
            capacity: self.maximum_size as nat,
        }
    }
}

impl Clone for WAL {
    fn clone(&self) -> (copy: WAL)
        ensures
            copy@ == self@,
    {
        proof {
            use_type_invariant(self);
        }
        let copy = WAL {
            data: self.data.clone(),
            position: self.position,
            maximum_size: self.maximum_size,
        };
        assert(copy@.records =~= self@.records);
        copy
    }
}

impl WAL {
    #[verifier::type_invariant]
    spec fn well_formed(&self) -> bool {
        self@.wf()
    }

    /// A log with the default capacity of 1000 records.
    pub fn new() -> (log: WAL)
        ensures
            log@ == WalView::fresh(1000),
    {
        WAL::default()
    }

    /// A log of `size` slots.
    pub fn new_with_size(size: usize) -> (log: WAL)
        requires
            size > 0,
        ensures
            log@ == WalView::fresh(size as nat),
    {
        let log = WAL { data: Vec::new(), position: size, maximum_size: size };
        assert(log@.records =~= Seq::empty());
        log
    }

    /// A log with the default capacity of 1000 records.
    pub fn default() -> (log: WAL)
        ensures
            log@ == WalView::fresh(1000),
    {
        WAL::new_with_size(1000)
    }

    /// The slot after `position` in a log of `maximum_size` slots, the first
    /// slot following the last.
    fn advance_position(position: usize, maximum_size: usize) -> (next: usize)
        requires
            maximum_size > 0,
            position <= maximum_size,
        ensures
            next == (if position + 1 >= maximum_size { 0 } else { position + 1 }),
            next < maximum_size,
    {
        if position >= maximum_size - 1 {
            0
        } else {
            position + 1
        }
    }

    /// Puts `operation` in a new slot while the log is filling, and in slot
    /// `position` once it is full.
    fn save_operation(
        data: &mut Vec<Operations>,
        position: usize,
        maximum_size: usize,
        operation: Operations,
    )
        requires
            old(data).len() <= maximum_size,
            old(data).len() == maximum_size ==> position < maximum_size,
        ensures
            final(data)@ == (if old(data).len() < maximum_size {
                old(data)@.push(operation)
            } else {
                old(data)@.update(position as int, operation)
            }),
    {
        if data.len() < maximum_size {
            data.push(operation);
        } else {
            data[position] = operation;
        }
    }

    /// Appends `operation` and returns the slot it went to. The slots are
    /// taken in order, the first again after the last, so a full log loses
    /// its oldest record to each new one.
    pub fn append(&mut self, operation: Operations) -> (slot: usize)
        ensures
            final(self)@ == old(self)@.append(operation@),
            slot == final(self)@.position,
            slot < final(self)@.capacity,
            slot < final(self)@.records.len(),
            final(self)@.records[slot as int] == operation@,
            final(self)@.records.len() <= final(self)@.capacity,
    {
        proof {
            use_type_invariant(&*self);
        }
        let ghost before = self@;
        let mut log = WAL { data: Vec::new(), position: self.maximum_size, maximum_size: self.maximum_size };
        std::mem::swap(self, &mut log);
        let WAL { mut data, position, maximum_size } = log;
        let slot = WAL::advance_position(position, maximum_size);
        WAL::save_operation(&mut data, slot, maximum_size, operation);
        let after = WAL { data, position: slot, maximum_size };
        proof {
            lemma_append_writes_one_slot(before, operation@);
            assert(after@.records =~= before.append(operation@).records);
        }
        *self = after;
        slot
    }

    /// Logs the insertion of `value` under `key`.
    pub fn insert(&mut self, key: &str, value: Bytes) -> (slot: usize)
        ensures
            final(self)@ == old(self)@.append(
                OperationsView::Insert { key: key@, value: payload_bytes(value) },
            ),
            slot == final(self)@.position,
            slot < final(self)@.capacity,
            slot < final(self)@.records.len(),
            final(self)@.records[slot as int] == (OperationsView::Insert {
                key: key@,
                value: payload_bytes(value),
            }),
    {
        self.append(Operations::Insert { key: key.to_owned(), value })
    }

    /// Logs the deletion of `key`.
    pub fn delete(&mut self, key: &str) -> (slot: usize)
        ensures
            final(self)@ == old(self)@.append(OperationsView::Delete { key: key@ }),
            slot == final(self)@.position,
            slot < final(self)@.capacity,
            slot < final(self)@.records.len(),
            final(self)@.records[slot as int] == (OperationsView::Delete { key: key@ }),
    {
        self.append(Operations::Delete { key: key.to_owned() })
    }

    /// Logs the deletion of every key that starts with `prefix`.
    pub fn delete_prefix(&mut self, prefix: &str) -> (slot: usize)
        ensures
            final(self)@ == old(self)@.append(OperationsView::DeletePrefix { prefix: prefix@ }),
            slot == final(self)@.position,
            slot < final(self)@.capacity,
            slot < final(self)@.records.len(),
            final(self)@.records[slot as int] == (OperationsView::DeletePrefix { prefix: prefix@ }),
    {
        self.append(Operations::DeletePrefix { prefix: prefix.to_owned() })
    }

    /// Logs the deletion of every key.
    pub fn delete_all(&mut self) -> (slot: usize)
        ensures
            final(self)@ == old(self)@.append(OperationsView::DeleteAll),
            slot == final(self)@.position,
            slot < final(self)@.capacity,
            slot < final(self)@.records.len(),
            final(self)@.records[slot as int] == OperationsView::DeleteAll,
    {
        self.append(Operations::DeleteAll)
    }

    /// The number of records that the log holds.
    pub fn len(&self) -> (count: usize)
        ensures
            count == self@.records.len(),
            count <= self@.capacity,
    {
        proof {
            use_type_invariant(self);
        }
        self.data.len()
    }

    /// The number of slots.
    pub fn capacity(&self) -> (slots: usize)
        ensures
            slots == self@.capacity,
            slots > 0,
    {
        proof {
            use_type_invariant(self);
        }
        self.maximum_size
    }

    /// The record in `slot`, if the slot is in use.
    pub fn get(&self, slot: usize) -> (found: Option<&Operations>)
        ensures
            match found {
                Some(operation) => slot < self@.records.len() && operation@
                    == self@.records[slot as int],
                None => slot >= self@.records.len(),
            },
    {
        if slot < self.data.len() {
            Some(&self.data[slot])
        } else {
            None
        }
    }
}

} // verus!
