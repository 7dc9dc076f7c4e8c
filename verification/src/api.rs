//! The orchestrator: the `set`, `get` and `list` entry points, sequencing
//! the record store and the notification dispatcher.
//!
//! A `set` reconciles and persists the write, then dispatches to the
//! resolved target if one calls out, then persists the dispatch outcome back
//! onto the same record.  A failed dispatch surfaces to the caller and the
//! record keeps its pre-dispatch fields — no retry, no rollback.  A `get`
//! never dispatches; it may only update the stored target for future writes.

use vstd::prelude::*;
use crate::errors::KvError;
use crate::http::{dispatch, Response};
use crate::model::{
    dispatch_target, outcome_row, record_of, retarget_row, row_tokens_ok, ts_step, write_row,
};
use crate::record::{InRecord, Notify, OutRecord};
use crate::store::{listing_post, records_view, Store};
use crate::record::opt_str_view;

verus! {

/// Writes one record: reconciles the incoming fields against the stored row,
/// persists the result, dispatches the one notification the resolved target
/// asks for, and records its outcome on the row.  Returns the dispatch
/// outcome, or `None` when the resolved record carries no target that calls
/// out.
pub fn set(store: &mut Store, record: InRecord) -> (r: Result<Option<Response>, KvError>)
    ensures
        final(store).clock() >= old(store).clock(),
        old(store).rows().dom().contains(record.id@) && !row_tokens_ok(
            old(store).rows()[record.id@],
        ) ==> r is Err,
        r matches Ok(None) ==> ({
            let row1 = write_row(old(store).rows(), record@, final(store).clock());
            &&& ts_step(old(store).clock(), final(store).clock())
            &&& (old(store).rows().dom().contains(record.id@) ==> row_tokens_ok(
                old(store).rows()[record.id@],
            ))
            &&& final(store).rows() == old(store).rows().insert(record.id@, row1)
            &&& dispatch_target(row1) is None
        }),
        r matches Ok(Some(resp)) ==> (exists|t1: i64|
            {
                let row1 = #[trigger] write_row(old(store).rows(), record@, t1);
                &&& ts_step(old(store).clock(), t1)
                &&& ts_step(t1, final(store).clock())
                &&& (old(store).rows().dom().contains(record.id@) ==> row_tokens_ok(
                    old(store).rows()[record.id@],
                ))
                &&& dispatch_target(row1) is Some
                &&& resp.id@ == record.id@
                &&& final(store).rows() == old(store).rows().insert(
                    record.id@,
                    outcome_row(row1, resp.status_code, resp.body@, final(store).clock()),
                )
            }),
        r matches Err(e) ==> match e {
            KvError::Config(_) => false,
            KvError::Dispatch(_) => ({
                let row1 = write_row(old(store).rows(), record@, final(store).clock());
                &&& ts_step(old(store).clock(), final(store).clock())
                &&& final(store).rows() == old(store).rows().insert(record.id@, row1)
                &&& dispatch_target(row1) is Some
            }),
            KvError::Storage(_) => final(store).rows() == old(store).rows() || (exists|t1: i64|
                final(store).rows() == old(store).rows().insert(
                    record.id@,
                    #[trigger] write_row(old(store).rows(), record@, t1),
                )),
        },
{
    let (rec, target) = match store.reconcile_write(&record) {
        Ok(p) => p,
        Err(e) => {
            return Err(e);
        },
    };
    let ghost rows0 = old(store).rows();
    let ghost t1 = store.clock();
    let ghost row1 = write_row(rows0, record@, t1);
    match target {
        None => Ok(None),
        Some(n) => {
            proof {
                assert(dispatch_target(row1) == Some(n@));
            }
            match dispatch(&n, record.id.as_str(), record.state.as_str(), &rec.info) {
                Err(e) => Err(e),
                Ok(resp) => {
                    match store.record_outcome(
                        record.id.as_str(),
                        resp.status_code,
                        resp.body.as_str(),
                    ) {
                        Err(e) => {
                            proof {
                                assert(store.rows() == rows0.insert(
                                    record.id@,
                                    write_row(rows0, record@, t1),
                                ));
                            }
                            Err(e)
                        },
                        Ok(()) => {
                            proof {
                                let mid = rows0.insert(record.id@, row1);
                                assert(mid[record.id@] == row1);
                                assert(store.rows() =~= rows0.insert(
                                    record.id@,
                                    outcome_row(
                                        write_row(rows0, record@, t1),
                                        resp.status_code,
                                        resp.body@,
                                        store.clock(),
                                    ),
                                ));
                            }
                            Ok(Some(resp))
                        },
                    }
                },
            }
        },
    }
}

/// Reads the record stored under `id`.  When a target is supplied and a
/// record exists, the stored target is overwritten for future writes — a
/// read never dispatches.
pub fn get(store: &mut Store, id: &str, notify: Option<Notify>) -> (r: Result<
    Option<OutRecord>,
    KvError,
>)
    ensures
        final(store).clock() >= old(store).clock(),
        r matches Ok(None) ==> !old(store).rows().dom().contains(id@)
            && final(store).rows() == old(store).rows(),
        r matches Ok(Some(rec)) ==> ({
            let rows0 = old(store).rows();
            &&& rows0.dom().contains(id@)
            &&& row_tokens_ok(rows0[id@])
            &&& match notify {
                None => final(store).rows() == rows0 && rec@ == record_of(id@, rows0[id@]),
                Some(n) => ({
                    let row1 = retarget_row(rows0[id@], n@, final(store).clock());
                    &&& ts_step(old(store).clock(), final(store).clock())
                    &&& final(store).rows() == rows0.insert(id@, row1)
                    &&& rec@ == record_of(id@, row1)
                }),
            }
        }),
        r matches Err(e) ==> e is Storage && final(store).rows() == old(store).rows(),
        old(store).rows().dom().contains(id@) && !row_tokens_ok(old(store).rows()[id@]) ==> r
            is Err,
{
    match notify {
        None => store.lookup(id),
        Some(n) => store.update_target(id, &n),
    }
}

/// Lists stored records, most recently created first, at most `num` of
/// them; with a filter, only records whose state equals it exactly.
pub fn list(store: &Store, num: usize, state: &Option<String>) -> (r: Result<
    Vec<OutRecord>,
    KvError,
>)
    ensures
        r matches Ok(v) ==> listing_post(store.rows(), opt_str_view(*state), num, records_view(v@)),
        r matches Err(e) ==> e is Storage,
{
    store.list(num, state)
}

} // verus!
