//! An in-memory key/value store that republishes every operation as a live
//! change feed, with a fixed-size ring log of recent operations.
//!
//! - [`db`]: the store, as a plain mapping ([`db::Db`]) and as a handle to a
//!   mapping shared behind a reader/writer lock ([`db::KVStore`]).
//! - [`history`]: what sequences of mutations leave in the store.
//! - [`actions`]: the records of the change feed, their text and bytes, and
//!   the broadcaster that publishes them.
//! - [`states`]: the same records as a session reports them.
//! - [`wal`]: the ring log.
//! - [`handlers`]: the requests of a gateway, on plain values.
//! - [`errors`]: the errors of the service.
//! - [`encoding`], [`text`], [`payload`]: the text layout of the records and
//!   the byte buffers of the values.
//! - [`lock`], [`feed`]: the lock and the channel that the store and the
//!   broadcaster are built on.

pub mod actions;
pub mod db;
pub mod encoding;
pub mod errors;
pub mod feed;
pub mod handlers;
pub mod history;
pub mod lock;
pub mod payload;
pub mod states;
pub mod text;
pub mod wal;
