//! The mathematical model of one stored row and of the transitions a write,
//! a retarget, and a recorded outcome perform on it.
//!
//! A row mirrors the table's columns: `method` holds the token under which a
//! call method is stored (absent only in a row this store did not write),
//! `url` the endpoint, and the `response_*` columns the most recent dispatch
//! outcome.  All contracts of the store are stated over these values.

use vstd::prelude::*;
use crate::method::{spec_parse_method, token_view, Method};
use crate::record::{NotifyV, RecordV, WriteV};

verus! {

/// The value of one stored row, keyed elsewhere by its id.
pub struct RowV {
    pub state: Seq<char>,
    pub info: Option<Seq<char>>,
    pub method: Option<Seq<char>>,
    pub url: Option<Seq<char>>,
    pub response_code: Option<u16>,
    pub response: Option<Seq<char>>,
    pub create_at: i64,
    pub update_at: i64,
}

/// Whether the row's stored method token is one this store could have
/// written.  A row failing this is reported as a storage fault, never
/// silently reinterpreted.
pub open spec fn row_tokens_ok(r: RowV) -> bool {
    match r.method {
        Some(t) => spec_parse_method(t) is Some,
        None => true,
    }
}

/// The call method a row presents to a reader; an absent column reads as
/// `NONE`.
pub open spec fn row_method_view(r: RowV) -> Method {
    match r.method {
        Some(t) => match spec_parse_method(t) {
            Some(m) => m,
            None => Method::NONE,
        },
        None => Method::NONE,
    }
}

/// The endpoint a row presents to a reader; an absent column reads as empty.
pub open spec fn row_url_view(r: RowV) -> Seq<char> {
    match r.url {
        Some(u) => u,
        None => Seq::empty(),
    }
}

/// The notification target a row carries: present exactly when both columns
/// are stored and the method token is recognized.  A carried target survives
/// writes that omit one.
pub open spec fn row_target(r: RowV) -> Option<NotifyV> {
    match (r.method, r.url) {
        (Some(t), Some(u)) => match spec_parse_method(t) {
            Some(m) => Some(NotifyV { method: m, url: u }),
            None => None,
        },
        _ => None,
    }
}

/// The target a write dispatches to: the carried target, when its method
/// actually calls out.  `NONE` targets and absent targets dispatch nothing.
pub open spec fn dispatch_target(r: RowV) -> Option<NotifyV> {
    match row_target(r) {
        Some(n) => if n.method is GET || n.method is POST {
            Some(n)
        } else {
            None
        },
        None => None,
    }
}

/// The record a reader sees for a stored row.
pub open spec fn record_of(id: Seq<char>, r: RowV) -> RecordV {
    RecordV {
        id: id,
        state: r.state,
        info: r.info,
        method: row_method_view(r),
        url: row_url_view(r),
        response_code: r.response_code,
        response: r.response,
        create_at: r.create_at,
        update_at: r.update_at,
    }
}

/// The row a first write for a key creates at time `t`: the given fields,
/// empty method and url columns when no target is supplied, and no recorded
/// outcome.
pub open spec fn create_row(w: WriteV, t: i64) -> RowV {
    RowV {
        state: w.state,
        info: w.info,
        method: Some(
            match w.notify {
                Some(n) => token_view(n.method),
                None => Seq::empty(),
            },
        ),
        url: Some(
            match w.notify {
                Some(n) => n.url,
                None => Seq::empty(),
            },
        ),
        response_code: None,
        response: None,
        create_at: t,
        update_at: t,
    }
}

/// The row a repeated write for a key leaves at time `t`: the new state
/// always overwrites; `info` and the target columns overwrite only when the
/// write supplies them, and are otherwise retained verbatim; the recorded
/// outcome and the creation time are untouched.
pub open spec fn merge_row(prev: RowV, w: WriteV, t: i64) -> RowV {
    RowV {
        state: w.state,
        info: match w.info {
            Some(i) => Some(i),
            None => prev.info,
        },
        method: match w.notify {
            Some(n) => Some(token_view(n.method)),
            None => prev.method,
        },
        url: match w.notify {
            Some(n) => Some(n.url),
            None => prev.url,
        },
        response_code: prev.response_code,
        response: prev.response,
        create_at: prev.create_at,
        update_at: t,
    }
}

/// The row a read that supplies a target leaves at time `t`: only the target
/// columns and the update time change; no dispatch occurs on a read.
pub open spec fn retarget_row(prev: RowV, n: NotifyV, t: i64) -> RowV {
    RowV {
        state: prev.state,
        info: prev.info,
        method: Some(token_view(n.method)),
        url: Some(n.url),
        response_code: prev.response_code,
        response: prev.response,
        create_at: prev.create_at,
        update_at: t,
    }
}

/// The row left after a dispatch outcome is recorded at time `t`: the
/// outcome overwrites any earlier one; everything else is untouched.
pub open spec fn outcome_row(prev: RowV, code: u16, body: Seq<char>, t: i64) -> RowV {
    RowV {
        state: prev.state,
        info: prev.info,
        method: prev.method,
        url: prev.url,
        response_code: Some(code),
        response: Some(body),
        create_at: prev.create_at,
        update_at: t,
    }
}

/// The row a write leaves for its key at time `t`: a merge against the
/// stored row when one exists, a fresh row otherwise.
pub open spec fn write_row(rows: Map<Seq<char>, RowV>, w: WriteV, t: i64) -> RowV {
    if rows.dom().contains(w.id) {
        merge_row(rows[w.id], w, t)
    } else {
        create_row(w, t)
    }
}

/// How the store's write clock moves on one operation: never backwards, and
/// strictly forward until the clock domain is exhausted.
pub open spec fn ts_step(t0: i64, t1: i64) -> bool {
    t1 >= t0 && (t0 < i64::MAX ==> t1 > t0)
}

} // verus!
