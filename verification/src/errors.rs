//! The error kinds that the record store surfaces to its caller.

use vstd::prelude::*;

verus! {

/// An operation's failure, propagated unchanged to the caller.
///
/// `Storage` covers database failures (unreachable file, schema mismatch,
/// constraint violation); `Dispatch` covers transport failures while reaching
/// a notification endpoint; `Config` covers a malformed notification target,
/// rejected before any I/O occurs.  The payload preserves the underlying
/// cause as text for logging.
#[derive(Debug)]
pub enum KvError {
    Storage(String),
    Dispatch(String),
    Config(String),
}

impl KvError {
    /// The preserved cause, for the surrounding layer to log or display.
    pub fn message(&self) -> (r: &String)
        ensures
            r@ == self.message_view(),
    {
        match self {
            KvError::Storage(m) => m,
            KvError::Dispatch(m) => m,
            KvError::Config(m) => m,
        }
    }

    pub open spec fn message_view(&self) -> Seq<char> {
        match self {
            KvError::Storage(m) => m@,
            KvError::Dispatch(m) => m@,
            KvError::Config(m) => m@,
        }
    }
}

} // verus!
