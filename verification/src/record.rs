//! The record entity and the values a caller hands to a write, together with
//! their mathematical views and the per-field reconciliation rule.

use vstd::prelude::*;
use crate::method::Method;

verus! {

/// Where state changes for a key are reported: a call method and an endpoint.
#[derive(Debug, Clone)]
pub struct Notify {
    pub method: Method,
    pub url: String,
}

/// The view of a notification target.
pub struct NotifyV {
    pub method: Method,
    pub url: Seq<char>,
}

impl View for Notify {
    type V = NotifyV;

    open spec fn view(&self) -> NotifyV {
        NotifyV { method: self.method, url: self.url@ }
    }
}

/// One incoming write: the key, the new state, and the optional fields to
/// reconcile against the stored row.
#[derive(Debug)]
pub struct InRecord {
    pub id: String,
    pub state: String,
    pub info: Option<String>,
    pub notify: Option<Notify>,
}

/// The view of an incoming write.
pub struct WriteV {
    pub id: Seq<char>,
    pub state: Seq<char>,
    pub info: Option<Seq<char>>,
    pub notify: Option<NotifyV>,
}

/// The view of an optional string.
pub open spec fn opt_str_view(o: Option<String>) -> Option<Seq<char>> {
    match o {
        Some(s) => Some(s@),
        None => None,
    }
}

/// The view of an optional notification target.
pub open spec fn opt_notify_view(o: Option<Notify>) -> Option<NotifyV> {
    match o {
        Some(n) => Some(n@),
        None => None,
    }
}

impl View for InRecord {
    type V = WriteV;

    open spec fn view(&self) -> WriteV {
        WriteV {
            id: self.id@,
            state: self.state@,
            info: opt_str_view(self.info),
            notify: opt_notify_view(self.notify),
        }
    }
}

/// The record a read or a list returns: the durable entity for one key.
/// `method == Method::NONE` together with an empty `url` means no target is
/// registered; `response_code` and `response` are absent until the first
/// recorded dispatch outcome.  Timestamps are millisecond epoch values set by
/// the store.
#[derive(Debug, Clone)]
pub struct OutRecord {
    pub id: String,
    pub state: String,
    pub info: Option<String>,
    pub method: Method,
    pub url: String,
    pub response_code: Option<u16>,
    pub response: Option<String>,
    pub create_at: i64,
    pub update_at: i64,
}

/// The view of a record.
pub struct RecordV {
    pub id: Seq<char>,
    pub state: Seq<char>,
    pub info: Option<Seq<char>>,
    pub method: Method,
    pub url: Seq<char>,
    pub response_code: Option<u16>,
    pub response: Option<Seq<char>>,
    pub create_at: i64,
    pub update_at: i64,
}

impl View for OutRecord {
    type V = RecordV;

    open spec fn view(&self) -> RecordV {
        RecordV {
            id: self.id@,
            state: self.state@,
            info: opt_str_view(self.info),
            method: self.method,
            url: self.url@,
            response_code: self.response_code,
            response: opt_str_view(self.response),
            create_at: self.create_at,
            update_at: self.update_at,
        }
    }
}

/// The write-time reconciliation rule for one optional field: an incoming
/// value overwrites the stored one; an omitted value retains it.
pub fn merge_keep<T>(incoming: Option<T>, stored: Option<T>) -> (r: Option<T>)
    ensures
        r == (match incoming {
            Some(v) => Some(v),
            None => stored,
        }),
{
    match incoming {
        Some(v) => Some(v),
        None => stored,
    }
}

} // verus!
