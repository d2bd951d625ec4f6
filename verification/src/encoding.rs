//! The text layout of operation records.
//!
//! A record's text is its variant's name followed by its fields. The byte
//! form of a record is the UTF-8 encoding of that text, so both forms are
//! functions of the record's fields alone.

use crate::payload::{payload_bytes, payload_slice};
use crate::text::{decode_lossy, lossy_text};
use bytes::Bytes;
use vstd::prelude::*;

verus! {

/// Text of an insertion of a value that is shown as `shown`.
pub open spec fn insert_line_text(key: Seq<char>, shown: Seq<char>) -> Seq<char> {
    "Insert { key: "@ + key + ", value: "@ + shown + " }"@
}

/// Text of an insertion: the key, and the value decoded lossily.
pub open spec fn insert_text(key: Seq<char>, value: Seq<u8>) -> Seq<char> {
    insert_line_text(key, lossy_text(value))
}

/// Text of the deletion of one key.
pub open spec fn delete_text(key: Seq<char>) -> Seq<char> {
    "Delete { key: "@ + key + " }"@
}

/// Text of the deletion of every key under a prefix.
pub open spec fn delete_prefix_text(prefix: Seq<char>) -> Seq<char> {
    "DeletePrefix { key: "@ + prefix + " }"@
}

/// Text of the deletion of every key.
pub open spec fn delete_all_text() -> Seq<char> {
    "DeleteAll"@
}

/// Text of the read of one key.
pub open spec fn read_text(key: Seq<char>) -> Seq<char> {
    "Read { key: "@ + key + "}"@
}

/// Text of the listing of every key.
pub open spec fn list_text() -> Seq<char> {
    "List"@
}

/// Text of the listing of the keys under a prefix.
pub open spec fn list_prefix_text(prefix: Seq<char>) -> Seq<char> {
    "ListPrefix { prefix: "@ + prefix + "}"@
}

/// Text of a heartbeat from the peer at `addr`.
pub open spec fn heartbeat_text(addr: Seq<char>) -> Seq<char> {
    "Heartbeat from "@ + addr
}

/// A label, one field and a closing part, joined in that order.
fn frame_field(label: &str, field: &str, close: &str) -> (text: String)
    ensures
        text@ == label@ + field@ + close@,
{
    let mut text = String::from_str(label);
    text.append(field);
    text.append(close);
    text
}

/// The text of an insertion under `key` of a value that is shown as
/// `shown`.
pub fn insert_line(key: &str, shown: &str) -> (text: String)
    ensures
        text@ == insert_line_text(key@, shown@),
        text@ == "Insert { key: "@ + key@ + ", value: "@ + shown@ + " }"@,
{
    let mut text = frame_field("Insert { key: ", key, ", value: ");
    text.append(shown);
    text.append(" }");
    text
}

pub(crate) fn render_insert(key: &str, value: &Bytes) -> (text: String)
    ensures
        text@ == insert_text(key@, payload_bytes(*value)),
{
    let shown = decode_lossy(payload_slice(value));
    insert_line(key, shown.as_str())
}

pub(crate) fn render_delete(key: &str) -> (text: String)
    ensures
        text@ == delete_text(key@),
{
    frame_field("Delete { key: ", key, " }")
}

pub(crate) fn render_delete_prefix(prefix: &str) -> (text: String)
    ensures
        text@ == delete_prefix_text(prefix@),
{
    frame_field("DeletePrefix { key: ", prefix, " }")
}

pub(crate) fn render_delete_all() -> (text: String)
    ensures
        text@ == delete_all_text(),
{
    String::from_str("DeleteAll")
}

pub(crate) fn render_read(key: &str) -> (text: String)
    ensures
        text@ == read_text(key@),
{
    frame_field("Read { key: ", key, "}")
}

pub(crate) fn render_list() -> (text: String)
    ensures
        text@ == list_text(),
{
    String::from_str("List")
}

pub(crate) fn render_list_prefix(prefix: &str) -> (text: String)
    ensures
        text@ == list_prefix_text(prefix@),
{
    frame_field("ListPrefix { prefix: ", prefix, "}")
}

pub(crate) fn render_heartbeat(addr: &str) -> (text: String)
    ensures
        text@ == heartbeat_text(addr@),
{
    let mut text = String::from_str("Heartbeat from ");
    text.append(addr);
    text
}

} // verus!
