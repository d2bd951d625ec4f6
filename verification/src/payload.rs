//! Value payloads: the byte buffers that the store keeps and the feed carries.
//!
//! Payloads are `bytes::Bytes` buffers. The verifier sees such a buffer only
//! through [`payload_bytes`], the sequence of bytes it holds.

use bytes::Bytes;
use vstd::prelude::*;

verus! {

/// `bytes::Bytes`: a shared, immutable byte buffer.
#[verifier::external_type_specification]
#[verifier::external_body]
pub struct ExBytes(Bytes);

/// The bytes that a buffer holds, in order.
pub uninterp spec fn payload_bytes(payload: Bytes) -> Seq<u8>;

/// `Bytes::new`: a buffer that holds no byte.
pub assume_specification[ Bytes::new ]() -> (payload: Bytes)
    ensures
        payload_bytes(payload) == Seq::<u8>::empty(),
;

/// `Bytes::clone`: the new handle shares the storage of `payload` and holds
/// the same bytes.
pub assume_specification[ <Bytes as Clone>::clone ](payload: &Bytes) -> (copy: Bytes)
    ensures
        payload_bytes(copy) == payload_bytes(*payload),
;

/// `Bytes::from(String)`: the buffer takes over the string's storage, which
/// is the UTF-8 encoding of its text.
#[verifier::external_body]
pub(crate) fn payload_from_text(text: String) -> (payload: Bytes)
    ensures
        payload_bytes(payload) == vstd::utf8::encode_utf8(text@),
{
    Bytes::from(text)
}

/// `Bytes::as_ref`: the buffer's bytes as a slice.
#[verifier::external_body]
pub(crate) fn payload_slice(payload: &Bytes) -> (bytes: &[u8])
    ensures
        bytes@ == payload_bytes(*payload),
{
    payload.as_ref()
}

} // verus!
