//! The requests of a gateway, as calls on plain values.
//!
//! A request first performs its operation on the store and then publishes
//! the record of it to the change feed, so that no subscriber hears of a
//! change before it has taken effect. The store and the feed are shared with
//! every other request, so the contracts here state how a reply is made of
//! what the store answered, and not what the store held.

use crate::actions::{ActionBroadcaster, Actions};
use crate::db::{all_under, key_texts, KVStore};
use crate::payload::{payload_bytes, payload_from_text, payload_slice};
use bytes::Bytes;
use vstd::prelude::*;

verus! {

/// The largest request body that the gateway takes, in bytes.
pub const BODY_LIMIT: usize = 5_120_000;

/// The number of requests that the gateway serves at a time.
pub const CONCURRENCY_LIMIT: usize = 1024;

/// The seconds that a request is given before it counts as timed out.
pub const TIMEOUT_SECONDS: u64 = 10;

/// The statuses of the replies that are no plain success.
#[derive(Clone, Copy, Debug, PartialEq, Eq, Structural)]
pub enum Status {
    NotFound,
    RequestTimeout,
    ServiceUnavailable,
    InternalServerError,
}

impl Status {
    /// The status as an HTTP status code.
    pub open spec fn spec_code(self) -> u16 {
        match self {
            Status::NotFound => 404,
            Status::RequestTimeout => 408,
            Status::ServiceUnavailable => 503,
            Status::InternalServerError => 500,
        }
    }

    /// The status as an HTTP status code.
    #[verifier::when_used_as_spec(spec_code)]
    pub fn code(self) -> (code: u16)
        ensures
            code == self.spec_code(),
    {
        match self {
            Status::NotFound => 404,
            Status::RequestTimeout => 408,
            Status::ServiceUnavailable => 503,
            Status::InternalServerError => 500,
        }
    }
}

/// What went wrong in the layers in front of the service.
#[derive(Debug)]
pub enum Failure {
    /// The request took longer than it is given.
    TimedOut,
    /// The service takes no more requests for now.
    Overloaded,
    /// Anything else, with its description.
    Other { message: String },
}

/// The two encodings of the change feed.
#[derive(Clone, Copy, Debug, PartialEq, Eq, Structural)]
pub enum WalType {
    Textual,
    Binary,
}

/// One message of the change feed on its way to a subscriber.
#[derive(Debug, PartialEq, Eq)]
pub enum Frame {
    Text(String),
    Binary(Vec<u8>),
}

/// What a [`Frame`] holds.
pub enum FrameView {
    Text(Seq<char>),
    Binary(Seq<u8>),
}

impl View for Frame {
    type V = FrameView;

    open spec fn view(&self) -> FrameView {
        match self {
            Frame::Text(text) => FrameView::Text(text@),
            Frame::Binary(bytes) => FrameView::Binary(bytes@),
        }
    }
}

/// The kinds of message that a subscriber can send.
#[derive(Clone, Copy, Debug, PartialEq, Eq, Structural)]
pub enum ClientMessage {
    Close,
    Ping,
    Pong,
    Text,
    Binary,
}

/// What can happen in a subscriber's session.
pub enum SessionEvent {
    /// The subscriber sent a message.
    Client(ClientMessage),
    /// The subscriber's side of the connection ended or failed.
    ClientGone,
    /// The feed delivered a record.
    Record(Actions),
    /// The subscriber fell so far behind that it missed records.
    Lagged,
    /// The feed has no publisher left.
    FeedClosed,
    /// A message could not be sent to the subscriber.
    SendFailed,
}

/// What a session does next.
#[derive(Debug, PartialEq, Eq)]
pub enum SessionStep {
    /// Wait for the next event.
    Continue,
    /// Send the frame, then wait for the next event.
    Send(Frame),
    /// End the session.
    Close,
}

/// What a [`SessionStep`] holds.
pub enum SessionStepView {
    Continue,
    Send(FrameView),
    Close,
}

impl View for SessionStep {
    type V = SessionStepView;

    open spec fn view(&self) -> SessionStepView {
        match self {
            SessionStep::Continue => SessionStepView::Continue,
            SessionStep::Send(frame) => SessionStepView::Send(frame@),
            SessionStep::Close => SessionStepView::Close,
        }
    }
}

/// The body of a reply for an optional value: the value, or nothing.
pub open spec fn body_of(found: Option<Seq<u8>>) -> Seq<u8> {
    match found {
        Some(value) => value,
        None => Seq::empty(),
    }
}

/// The frame that carries a record in an encoding: its text, or the bytes of
/// its text.
pub open spec fn frame_of(record: crate::actions::ActionsView, mode: WalType) -> FrameView {
    match mode {
        WalType::Textual => FrameView::Text(record.text()),
        WalType::Binary => FrameView::Binary(record.bytes()),
    }
}

/// What a session does on an event: it forwards every record of the feed in
/// its encoding, goes on after any message of the subscriber but a close,
/// and ends on everything else.
pub open spec fn step_of(mode: WalType, event: SessionEvent) -> SessionStepView {
    match event {
        SessionEvent::Client(ClientMessage::Close) => SessionStepView::Close,
        SessionEvent::Client(_) => SessionStepView::Continue,
        SessionEvent::ClientGone => SessionStepView::Close,
        SessionEvent::Record(record) => SessionStepView::Send(frame_of(record@, mode)),
        SessionEvent::Lagged => SessionStepView::Close,
        SessionEvent::FeedClosed => SessionStepView::Close,
        SessionEvent::SendFailed => SessionStepView::Close,
    }
}

/// The answer to a liveness probe.
pub fn ping() -> (body: Bytes)
    ensures
        payload_bytes(body) == vstd::utf8::encode_utf8("pong"@),
{
    payload_from_text(String::from_str("pong"))
}

/// The body that answers a lookup or an insertion: the value that the store
/// returned, or an empty body if it returned none.
pub fn value_or_empty(found: Option<Bytes>) -> (body: Bytes)
    ensures
        payload_bytes(body) == body_of(crate::db::payload_of(found)),
{
    match found {
        Some(value) => value,
        None => Bytes::new(),
    }
}

/// The answer to a removal: the removed value, or `NotFound` if the key was
/// absent.
pub fn value_or_not_found(removed: Option<Bytes>) -> (reply: Result<Bytes, Status>)
    ensures
        match removed {
            Some(value) => reply matches Ok(body) && payload_bytes(body) == payload_bytes(value),
            None => reply == Err::<Bytes, Status>(Status::NotFound),
        },
{
    match removed {
        Some(value) => Ok(value),
        None => Err(Status::NotFound),
    }
}

/// Looks `key` up and publishes the read.
pub fn kv_get(key: &str, kvstore: &KVStore, actions: &ActionBroadcaster) -> Bytes {
    let found = kvstore.get(key);
    let _ = actions.get(key);
    value_or_empty(found)
}

/// Stores `bytes` under `key` and publishes the insertion. The reply is the
/// value that was replaced.
pub fn kv_set(key: &str, kvstore: &KVStore, actions: &ActionBroadcaster, bytes: Bytes) -> Bytes {
    let previous = kvstore.insert(key, bytes.clone());
    let _ = actions.insert(key, bytes);
    value_or_empty(previous)
}

/// Deletes `key` and publishes the deletion. The reply is the removed value;
/// the only failure is that the key was not found.
pub fn remove_key(key: &str, kvstore: &KVStore, actions: &ActionBroadcaster) -> (reply: Result<
    Bytes,
    Status,
>)
    ensures
        reply matches Err(status) ==> status == Status::NotFound,
{
    let removed = kvstore.remove(key);
    let _ = actions.remove(key);
    value_or_not_found(removed)
}

/// Deletes the keys that start with `key` and publishes the deletion. The
/// reply lists the deleted keys.
pub fn remove_prefix(key: &str, kvstore: &KVStore, actions: &ActionBroadcaster) -> (removed: Vec<
    String,
>)
    ensures
        all_under(removed@, key@),
        key_texts(removed@).no_duplicates(),
{
    let removed = kvstore.remove_with_prefix(key);
    let _ = actions.remove_with_prefix(key);
    removed
}

/// Deletes every key and publishes the deletion.
pub fn remove_all_keys(kvstore: &KVStore, actions: &ActionBroadcaster) {
    kvstore.remove_all();
    let _ = actions.remove_all();
}

/// Lists the keys and publishes the listing.
pub fn list_keys(kvstore: &KVStore, actions: &ActionBroadcaster) -> (listed: Vec<String>)
    ensures
        key_texts(listed@).no_duplicates(),
{
    let listed = kvstore.list_keys();
    let _ = actions.list_keys();
    listed
}

/// Lists the keys that start with `prefix` and publishes the listing.
pub fn list_keys_with_prefix(prefix: &str, kvstore: &KVStore, actions: &ActionBroadcaster) -> (listed:
    Vec<String>)
    ensures
        all_under(listed@, prefix@),
        key_texts(listed@).no_duplicates(),
{
    let listed = kvstore.list_keys_with_prefix(prefix);
    let _ = actions.list_keys_with_prefix(prefix);
    listed
}

/// The reply to a request that failed before it reached the service.
pub fn handle_error(error: &Failure) -> (reply: (Status, String))
    ensures
        reply.0 == match error {
            Failure::TimedOut => Status::RequestTimeout,
            Failure::Overloaded => Status::ServiceUnavailable,
            Failure::Other { .. } => Status::InternalServerError,
        },
        reply.1@ == match error {
            Failure::TimedOut => "request timed out"@,
            Failure::Overloaded => "service is overloaded, try again later"@,
            Failure::Other { message } => "Unhandled internal error: "@ + message@,
        },
{
    match error {
        Failure::TimedOut => (Status::RequestTimeout, String::from_str("request timed out")),
        Failure::Overloaded => (
            Status::ServiceUnavailable,
            String::from_str("service is overloaded, try again later"),
        ),
        Failure::Other { message } => {
            let mut text = String::from_str("Unhandled internal error: ");
            text.append(message.as_str());
            (Status::InternalServerError, text)
        },
    }
}

/// How a new subscriber is served: in the binary encoding if it asked for
/// octet streams, else as text; and the name it is known by, which is its
/// user agent if it gave one.
pub fn ws_handler(binary_requested: bool, user_agent: Option<&str>) -> (session: (WalType, String))
    ensures
        session.0 == (if binary_requested {
            WalType::Binary
        } else {
            WalType::Textual
        }),
        session.1@ == match user_agent {
            Some(agent) => agent@,
            None => "Unknown browser"@,
        },
{
    let agent = match user_agent {
        Some(agent) => agent.to_owned(),
        None => String::from_str("Unknown browser"),
    };
    let mode = if binary_requested {
        WalType::Binary
    } else {
        WalType::Textual
    };
    (mode, agent)
}

/// The payload of the ping that opens a session.
pub fn greeting() -> (payload: Vec<u8>)
    ensures
        payload@ == seq![1u8, 2u8, 3u8],
{
    let mut payload: Vec<u8> = Vec::new();
    payload.push(1);
    payload.push(2);
    payload.push(3);
    payload
}

/// The frame that carries `record` in the encoding `mode`.
pub fn frame(record: &Actions, mode: WalType) -> (out: Frame)
    ensures
        out@ == frame_of(record@, mode),
{
    match mode {
        WalType::Textual => Frame::Text(record.to_string()),
        WalType::Binary => {
            let bytes = record.to_bytes();
            Frame::Binary(vstd::slice::slice_to_vec(payload_slice(&bytes)))
        },
    }
}

/// What a session in the encoding `mode` does on `event`.
pub fn wal_handler(mode: WalType, event: SessionEvent) -> (step: SessionStep)
    ensures
        step@ == step_of(mode, event),
{
    match event {
        SessionEvent::Client(ClientMessage::Close) => SessionStep::Close,
        SessionEvent::Client(_) => SessionStep::Continue,
        SessionEvent::ClientGone => SessionStep::Close,
        SessionEvent::Record(record) => SessionStep::Send(frame(&record, mode)),
        SessionEvent::Lagged => SessionStep::Close,
        SessionEvent::FeedClosed => SessionStep::Close,
        SessionEvent::SendFailed => SessionStep::Close,
    }
}

} // verus!
