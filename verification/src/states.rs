//! State records: the operations of the service as a session reports them.
//!
//! A state record holds what an action record of the same kind holds, and
//! has the same text and bytes.

use crate::actions::ActionsView;
use crate::encoding::{
    render_delete, render_delete_all, render_delete_prefix, render_heartbeat, render_insert,
    render_list, render_list_prefix, render_read,
};
use crate::payload::{payload_bytes, payload_from_text};
use bytes::Bytes;
use vstd::prelude::*;

verus! {

/// One operation of the service, or a heartbeat.
#[derive(Debug)]
pub enum States {
    Insert { key: String, value: Bytes },
    Delete { key: String },
    DeletePrefix { key: String },
    DeleteAll,
    Read { key: String },
    List,
    ListPrefix { prefix: String },
    Heartbeat { addr: String },
}

impl View for States {
    type V = ActionsView;

    open spec fn view(&self) -> ActionsView {
        match self {
            States::Insert { key, value } => ActionsView::Insert {
                key: key@,
                value: payload_bytes(*value),
            },
            States::Delete { key } => ActionsView::Delete { key: key@ },
            States::DeletePrefix { key } => ActionsView::DeletePrefix { key: key@ },
            States::DeleteAll => ActionsView::DeleteAll,
            States::Read { key } => ActionsView::Read { key: key@ },
            States::List => ActionsView::List,
            States::ListPrefix { prefix } => ActionsView::ListPrefix { prefix: prefix@ },
            States::Heartbeat { addr } => ActionsView::Heartbeat { addr: addr@ },
        }
    }
}

impl Clone for States {
    fn clone(&self) -> (copy: States)
        ensures
            copy@ == self@,
    {
        match self {
            States::Insert { key, value } => States::Insert { key: key.clone(), value: value.clone() },
            States::Delete { key } => States::Delete { key: key.clone() },
            States::DeletePrefix { key } => States::DeletePrefix { key: key.clone() },
            States::DeleteAll => States::DeleteAll,
            States::Read { key } => States::Read { key: key.clone() },
            States::List => States::List,
            States::ListPrefix { prefix } => States::ListPrefix { prefix: prefix.clone() },
            States::Heartbeat { addr } => States::Heartbeat { addr: addr.clone() },
        }
    }
}

impl States {
    /// The record as text.
    pub fn to_string(&self) -> (text: String)
        ensures
            text@ == self@.text(),
    {
        match self {
            States::Insert { key, value } => render_insert(key.as_str(), value),
            States::Delete { key } => render_delete(key.as_str()),
            States::DeletePrefix { key } => render_delete_prefix(key.as_str()),
            States::DeleteAll => render_delete_all(),
            States::Read { key } => render_read(key.as_str()),
            States::List => render_list(),
            States::ListPrefix { prefix } => render_list_prefix(prefix.as_str()),
            States::Heartbeat { addr } => render_heartbeat(addr.as_str()),
        }
    }

    /// The record as bytes: the UTF-8 encoding of its text, so decoding the
    /// bytes gives the text back.
    pub fn to_bytes(&self) -> (bytes: Bytes)
        ensures
            payload_bytes(bytes) == self@.bytes(),
            vstd::utf8::valid_utf8(payload_bytes(bytes)),
            vstd::utf8::decode_utf8(payload_bytes(bytes)) == self@.text(),
    {
        let text = self.to_string();
        proof {
            vstd::utf8::encode_utf8_valid_utf8(text@);
            vstd::utf8::encode_utf8_decode_utf8(text@);
        }
        payload_from_text(text)
    }
}

} // verus!
