//! The change feed: operation records and the broadcaster that publishes
//! them to every subscriber.

use crate::encoding::{
    delete_all_text, delete_prefix_text, delete_text, heartbeat_text, insert_text, list_prefix_text,
    list_text, read_text, render_delete, render_delete_all, render_delete_prefix, render_heartbeat,
    render_insert, render_list, render_list_prefix, render_read,
};
use crate::errors::KVError;
use crate::feed::send_record;
use crate::payload::{payload_bytes, payload_from_text};
use bytes::Bytes;
use tokio::sync::broadcast::{Receiver, Sender};
use vstd::prelude::*;

verus! {

/// One action performed against the store, or a heartbeat of the feed.
#[derive(Debug)]
pub enum Actions {
    Insert { key: String, value: Bytes },
    Delete { key: String },
    DeletePrefix { key: String },
    DeleteAll,
    Read { key: String },
    List,
    ListPrefix { prefix: String },
    Heartbeat { addr: String },
}

/// What an [`Actions`] record holds: its kind and its fields as plain text
/// and bytes.
pub enum ActionsView {
    Insert { key: Seq<char>, value: Seq<u8> },
    Delete { key: Seq<char> },
    DeletePrefix { key: Seq<char> },
    DeleteAll,
    Read { key: Seq<char> },
    List,
    ListPrefix { prefix: Seq<char> },
    Heartbeat { addr: Seq<char> },
}

/// The kinds of record.
pub enum Kind {
    Insert,
    Delete,
    DeletePrefix,
    DeleteAll,
    Read,
    List,
    ListPrefix,
    Heartbeat,
}

impl ActionsView {
    /// The record's kind.
    pub open spec fn kind(self) -> Kind {
        match self {
            ActionsView::Insert { .. } => Kind::Insert,
            ActionsView::Delete { .. } => Kind::Delete,
            ActionsView::DeletePrefix { .. } => Kind::DeletePrefix,
            ActionsView::DeleteAll => Kind::DeleteAll,
            ActionsView::Read { .. } => Kind::Read,
            ActionsView::List => Kind::List,
            ActionsView::ListPrefix { .. } => Kind::ListPrefix,
            ActionsView::Heartbeat { .. } => Kind::Heartbeat,
        }
    }

    /// The record's text: the variant's name, then its fields.
    pub open spec fn text(self) -> Seq<char> {
        match self {
            ActionsView::Insert { key, value } => insert_text(key, value),
            ActionsView::Delete { key } => delete_text(key),
            ActionsView::DeletePrefix { key } => delete_prefix_text(key),
            ActionsView::DeleteAll => delete_all_text(),
            ActionsView::Read { key } => read_text(key),
            ActionsView::List => list_text(),
            ActionsView::ListPrefix { prefix } => list_prefix_text(prefix),
            ActionsView::Heartbeat { addr } => heartbeat_text(addr),
        }
    }

    /// The record's byte form: the UTF-8 encoding of its text.
    pub open spec fn bytes(self) -> Seq<u8> {
        vstd::utf8::encode_utf8(self.text())
    }
}

/// What the literals of the layout hold.
proof fn lemma_layout()
    ensures
        "Insert { key: "@.len() == 14 && "Insert { key: "@[0] == 'I',
        "Delete { key: "@.len() == 14 && "Delete { key: "@[0] == 'D' && "Delete { key: "@[6] == ' ',
        "DeletePrefix { key: "@.len() == 20 && "DeletePrefix { key: "@[0] == 'D'
            && "DeletePrefix { key: "@[6] == 'P',
        "DeleteAll"@.len() == 9 && "DeleteAll"@[0] == 'D' && "DeleteAll"@[6] == 'A',
        "Read { key: "@.len() == 12 && "Read { key: "@[0] == 'R',
        "List"@.len() == 4 && "List"@[0] == 'L',
        "ListPrefix { prefix: "@.len() == 21 && "ListPrefix { prefix: "@[0] == 'L',
        "Heartbeat from "@.len() == 15 && "Heartbeat from "@[0] == 'H',
        " }"@.len() == 2,
        "}"@.len() == 1,
{
    reveal_strlit("Insert { key: ");
    reveal_strlit("Delete { key: ");
    reveal_strlit("DeletePrefix { key: ");
    reveal_strlit("DeleteAll");
    reveal_strlit("Read { key: ");
    reveal_strlit("List");
    reveal_strlit("ListPrefix { prefix: ");
    reveal_strlit("Heartbeat from ");
    reveal_strlit(" }");
    reveal_strlit("}");
}

/// A field between a label and a closing part can be read back: two such
/// texts with the same label and closing part are equal only if the fields
/// are.
proof fn lemma_field_read_back(
    label: Seq<char>,
    close: Seq<char>,
    one: Seq<char>,
    other: Seq<char>,
)
    requires
        label + one + close == label + other + close,
    ensures
        one == other,
{
    let left = label + one + close;
    let right = label + other + close;
    assert(left.len() == right.len());
    assert forall|at: int| 0 <= at < one.len() implies one[at] == other[at] by {
        assert(left[label.len() + at] == one[at]);
        assert(right[label.len() + at] == other[at]);
    }
}

/// The text of a record tells its kind: records of different kinds never
/// have the same text.
pub proof fn lemma_text_tells_kind(one: ActionsView, other: ActionsView)
    requires
        one.text() == other.text(),
    ensures
        one.kind() == other.kind(),
{
    lemma_layout();
    lemma_text_marks(one);
    lemma_text_marks(other);
}

/// Where the texts of the kinds differ: in the first character, in the
/// seventh for the three deletions, and in the length for the two listings.
proof fn lemma_text_marks(record: ActionsView)
    ensures
        record.text().len() >= 4,
        record.text()[0] == match record.kind() {
            Kind::Insert => 'I',
            Kind::Delete | Kind::DeletePrefix | Kind::DeleteAll => 'D',
            Kind::Read => 'R',
            Kind::List | Kind::ListPrefix => 'L',
            Kind::Heartbeat => 'H',
        },
        record.kind() == Kind::Delete ==> record.text().len() > 6 && record.text()[6] == ' ',
        record.kind() == Kind::DeletePrefix ==> record.text().len() > 6 && record.text()[6] == 'P',
        record.kind() == Kind::DeleteAll ==> record.text().len() > 6 && record.text()[6] == 'A',
        record.kind() == Kind::List ==> record.text().len() == 4,
        record.kind() == Kind::ListPrefix ==> record.text().len() > 4,
{
    lemma_layout();
}

/// The text of a record with one field tells the field: two records of a
/// kind other than insertion have the same text only if they are the same
/// record.
pub proof fn lemma_text_tells_field(one: ActionsView, other: ActionsView)
    requires
        one.text() == other.text(),
        !(one is Insert),
    ensures
        one == other,
{
    lemma_text_tells_kind(one, other);
    match one {
        ActionsView::Delete { key } => {
            lemma_field_read_back("Delete { key: "@, " }"@, key, other->Delete_key);
        },
        ActionsView::DeletePrefix { key } => {
            lemma_field_read_back("DeletePrefix { key: "@, " }"@, key, other->DeletePrefix_key);
        },
        ActionsView::Read { key } => {
            lemma_field_read_back("Read { key: "@, "}"@, key, other->Read_key);
        },
        ActionsView::ListPrefix { prefix } => {
            lemma_field_read_back("ListPrefix { prefix: "@, "}"@, prefix, other->prefix);
        },
        ActionsView::Heartbeat { addr } => {
            lemma_field_read_back("Heartbeat from "@, Seq::empty(), addr, other->addr);
        },
        _ => {},
    }
}

impl View for Actions {
    type V = ActionsView;

    open spec fn view(&self) -> ActionsView {
        match self {
            Actions::Insert { key, value } => ActionsView::Insert {
                key: key@,
                value: payload_bytes(*value),
            },
            Actions::Delete { key } => ActionsView::Delete { key: key@ },
            Actions::DeletePrefix { key } => ActionsView::DeletePrefix { key: key@ },
            Actions::DeleteAll => ActionsView::DeleteAll,
            Actions::Read { key } => ActionsView::Read { key: key@ },
            Actions::List => ActionsView::List,
            Actions::ListPrefix { prefix } => ActionsView::ListPrefix { prefix: prefix@ },
            Actions::Heartbeat { addr } => ActionsView::Heartbeat { addr: addr@ },
        }
    }
}

impl Clone for Actions {
    fn clone(&self) -> (copy: Actions)
        ensures
            copy@ == self@,
    {
        match self {
            Actions::Insert { key, value } => Actions::Insert { key: key.clone(), value: value.clone() },
            Actions::Delete { key } => Actions::Delete { key: key.clone() },
            Actions::DeletePrefix { key } => Actions::DeletePrefix { key: key.clone() },
            Actions::DeleteAll => Actions::DeleteAll,
            Actions::Read { key } => Actions::Read { key: key.clone() },
            Actions::List => Actions::List,
            Actions::ListPrefix { prefix } => Actions::ListPrefix { prefix: prefix.clone() },
            Actions::Heartbeat { addr } => Actions::Heartbeat { addr: addr.clone() },
        }
    }
}

impl Actions {
    /// The record of the insertion of `value` under `key`.
    pub fn insertion(key: &str, value: Bytes) -> (record: Actions)
        ensures
            record@ == (ActionsView::Insert { key: key@, value: payload_bytes(value) }),
    {
        Actions::Insert { key: key.to_owned(), value }
    }

    /// The record of the deletion of `key`.
    pub fn deletion(key: &str) -> (record: Actions)
        ensures
            record@ == (ActionsView::Delete { key: key@ }),
    {
        Actions::Delete { key: key.to_owned() }
    }

    /// The record of the deletion of every key that starts with `key`.
    pub fn prefix_deletion(key: &str) -> (record: Actions)
        ensures
            record@ == (ActionsView::DeletePrefix { key: key@ }),
    {
        Actions::DeletePrefix { key: key.to_owned() }
    }

    /// The record of the deletion of every key.
    pub fn full_deletion() -> (record: Actions)
        ensures
            record@ == ActionsView::DeleteAll,
    {
        Actions::DeleteAll
    }

    /// The record of the read of `key`. It holds the key alone, not the
    /// value that the read found.
    pub fn read(key: &str) -> (record: Actions)
        ensures
            record@ == (ActionsView::Read { key: key@ }),
    {
        Actions::Read { key: key.to_owned() }
    }

    /// The record of the listing of every key.
    pub fn listing() -> (record: Actions)
        ensures
            record@ == ActionsView::List,
    {
        Actions::List
    }

    /// The record of the listing of the keys that start with `prefix`.
    pub fn prefix_listing(prefix: &str) -> (record: Actions)
        ensures
            record@ == (ActionsView::ListPrefix { prefix: prefix@ }),
    {
        Actions::ListPrefix { prefix: prefix.to_owned() }
    }

    /// The record of a heartbeat from the peer at `addr`.
    pub fn heartbeat(addr: &str) -> (record: Actions)
        ensures
            record@ == (ActionsView::Heartbeat { addr: addr@ }),
    {
        Actions::Heartbeat { addr: addr.to_owned() }
    }

    /// The record as text.
    pub fn to_string(&self) -> (text: String)
        ensures
            text@ == self@.text(),
    {
        match self {
            Actions::Insert { key, value } => render_insert(key.as_str(), value),
            Actions::Delete { key } => render_delete(key.as_str()),
            Actions::DeletePrefix { key } => render_delete_prefix(key.as_str()),
            Actions::DeleteAll => render_delete_all(),
            Actions::Read { key } => render_read(key.as_str()),
            Actions::List => render_list(),
            Actions::ListPrefix { prefix } => render_list_prefix(prefix.as_str()),
            Actions::Heartbeat { addr } => render_heartbeat(addr.as_str()),
        }
    }

    /// The record as bytes: the UTF-8 encoding of its text, so decoding the
    /// bytes gives the text back.
    pub fn to_bytes(&self) -> (bytes: Bytes)
        ensures
            payload_bytes(bytes) == self@.bytes(),
            vstd::utf8::valid_utf8(payload_bytes(bytes)),
            vstd::utf8::decode_utf8(payload_bytes(bytes)) == self@.text(),
    {
        let text = self.to_string();
        proof {
            vstd::utf8::encode_utf8_valid_utf8(text@);
            vstd::utf8::encode_utf8_decode_utf8(text@);
        }
        payload_from_text(text)
    }
}

/// The publisher of the change feed.
///
/// Every record is published once and queued for each subscriber of the
/// moment, in the order of publication. Publishing never waits for a
/// subscriber: one that falls behind by more than the queue depth loses the
/// oldest records queued for it, is told how many it missed, and goes on with
/// the oldest record still kept. Clones of a broadcaster publish to the same
/// feed.
pub struct ActionBroadcaster {
    status_tx: Sender<Actions>,
    depth: usize,
}

/// What became of a published record.
#[derive(Debug)]
pub enum Delivery {
    /// The record was queued for this many subscribers, at least one.
    Queued { subscribers: usize },
    /// Nobody was subscribed: nothing was queued, and the record comes back.
    Unheard { record: Actions },
}

impl Clone for ActionBroadcaster {
    /// Another handle to the same feed.
    fn clone(&self) -> (copy: ActionBroadcaster)
        ensures
            copy.queue_depth() == self.queue_depth(),
    {
        ActionBroadcaster { status_tx: self.status_tx.clone(), depth: self.depth }
    }
}

impl ActionBroadcaster {
    /// The queue depth that the feed was made with: the number of records
    /// that it keeps, at the least, for a subscriber that does not read.
    pub closed spec fn spec_queue_depth(&self) -> usize {
        self.depth
    }

    /// The queue depth that the feed was made with.
    #[verifier::when_used_as_spec(spec_queue_depth)]
    pub fn queue_depth(&self) -> (depth: usize)
        ensures
            depth == self.spec_queue_depth(),
    {
        self.depth
    }

    /// A feed with the default queue depth of 10 records.
    pub fn new() -> (feed: ActionBroadcaster)
        ensures
            feed.queue_depth() == 10,
    {
        ActionBroadcaster::default()
    }

    /// A feed with the default queue depth of 10 records.
    pub fn default() -> (feed: ActionBroadcaster)
        ensures
            feed.queue_depth() == 10,
    {
        ActionBroadcaster::with_capacity(10)
    }

    /// A feed with a queue depth of `capacity` records. The channel keeps as
    /// many records as the next power of two, if `capacity` is none itself.
    /// The feed has no subscriber yet.
    pub fn with_capacity(capacity: usize) -> (feed: ActionBroadcaster)
        requires
            0 < capacity <= usize::MAX / 2,
        ensures
            feed.queue_depth() == capacity,
    {
        let (status_tx, _) = tokio::sync::broadcast::channel::<Actions>(capacity);
        ActionBroadcaster { status_tx, depth: capacity }
    }

    /// A new subscriber. It receives the records published from now on,
    /// none of those published before.
    pub fn subscribe(&self) -> Receiver<Actions> {
        self.status_tx.subscribe()
    }

    /// What became of a record, given what the channel answered: it was
    /// queued for the subscribers that the channel counted, or it came back
    /// for want of a subscriber.
    pub fn reached(sent: Result<usize, Actions>) -> (delivery: Delivery)
        ensures
            delivery == match sent {
                Ok(receivers) => (Delivery::Queued { subscribers: receivers }),
                Err(back) => (Delivery::Unheard { record: back }),
            },
    {
        match sent {
            Ok(receivers) => Delivery::Queued { subscribers: receivers },
            Err(back) => Delivery::Unheard { record: back },
        }
    }

    /// Publishes `record`: queues it for every subscriber of the moment and
    /// says for how many, or, with no subscriber, queues nothing and hands
    /// the record back unchanged, which is no failure. It never waits for a
    /// subscriber.
    pub fn publish(&self, record: Actions) -> (delivery: Delivery)
        ensures
            match delivery {
                Delivery::Queued { subscribers } => subscribers > 0,
                Delivery::Unheard { record: back } => back == record,
            },
    {
        ActionBroadcaster::reached(send_record(&self.status_tx, record))
    }

    /// Publishes a heartbeat from the peer at `addr`: the record that
    /// [`Actions::heartbeat`] makes of it.
    pub fn send_heartbeat(&self, addr: &str) -> (outcome: Result<(), KVError>)
        ensures
            outcome is Ok,
    {
        let _ = self.publish(Actions::heartbeat(addr));
        Ok(())
    }

    /// Publishes the read of `key`: the record that [`Actions::read`] makes
    /// of it.
    pub fn get(&self, key: &str) -> (outcome: Result<(), KVError>)
        ensures
            outcome is Ok,
    {
        let _ = self.publish(Actions::read(key));
        Ok(())
    }

    /// Publishes the insertion of `value` under `key`: the record that
    /// [`Actions::insertion`] makes of them.
    pub fn insert(&self, key: &str, value: Bytes) -> (outcome: Result<(), KVError>)
        ensures
            outcome is Ok,
    {
        let _ = self.publish(Actions::insertion(key, value));
        Ok(())
    }

    /// Publishes the deletion of `key`: the record that [`Actions::deletion`]
    /// makes of it.
    pub fn remove(&self, key: &str) -> (outcome: Result<(), KVError>)
        ensures
            outcome is Ok,
    {
        let _ = self.publish(Actions::deletion(key));
        Ok(())
    }

    /// Publishes the deletion of every key that starts with `key`: the
    /// record that [`Actions::prefix_deletion`] makes of it.
    pub fn remove_with_prefix(&self, key: &str) -> (outcome: Result<(), KVError>)
        ensures
            outcome is Ok,
    {
        let _ = self.publish(Actions::prefix_deletion(key));
        Ok(())
    }

    /// Publishes the deletion of every key: the record that
    /// [`Actions::full_deletion`] makes.
    pub fn remove_all(&self) -> (outcome: Result<(), KVError>)
        ensures
            outcome is Ok,
    {
        let _ = self.publish(Actions::full_deletion());
        Ok(())
    }

    /// Publishes the listing of every key: the record that
    /// [`Actions::listing`] makes.
    pub fn list_keys(&self) -> (outcome: Result<(), KVError>)
        ensures
            outcome is Ok,
    {
        let _ = self.publish(Actions::listing());
        Ok(())
    }

    /// Publishes the listing of the keys that start with `prefix`: the
    /// record that [`Actions::prefix_listing`] makes of it.
    pub fn list_keys_with_prefix(&self, prefix: &str) -> (outcome: Result<(), KVError>)
        ensures
            outcome is Ok,
    {
        let _ = self.publish(Actions::prefix_listing(prefix));
        Ok(())
    }
}

} // verus!
