//! A durable key-value record store in which writing a value for a key can
//! trigger one synchronous outbound notification, whose outcome is persisted
//! back onto the record.
//!
//! The store keeps one row per key in a local SQLite database; a write merges
//! the incoming fields with the stored row (a previously registered
//! notification target survives writes that omit one), then dispatches the
//! notification if a target is registered, and finally records the response
//! on the row.  The entry points `set`, `get` and `list` stand in [`api`];
//! [`laws`] proves the properties that govern merging, re-writing and
//! listing.

pub mod api;
pub mod encode;
pub mod errors;
pub mod http;
pub mod laws;
pub mod method;
pub mod model;
pub mod record;
pub mod store;

pub use api::get;
pub use api::list;
pub use errors::KvError;
pub use method::parse_method;
pub use method::Method;
pub use record::InRecord;
pub use record::Notify;
pub use record::OutRecord;
pub use http::Response;
pub use store::Store;
