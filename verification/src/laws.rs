//! The store's governing laws, stated over the row model and the listing
//! contract and proved once and for all.

use vstd::prelude::*;
use crate::method::Method;
use crate::model::{
    create_row, dispatch_target, merge_row, record_of, row_target, write_row, RowV,
};
use crate::record::{NotifyV, RecordV, WriteV};
use crate::store::{listing_has, listing_post, page_matches};

verus! {

/// A first write for a key, with no target supplied, stores a record whose
/// state is the written one and which carries no notification target and no
/// recorded outcome; a read of that key then sees exactly these fields.
pub proof fn lemma_create_then_read(rows0: Map<Seq<char>, RowV>, w: WriteV, t: i64)
    requires
        !rows0.dom().contains(w.id),
        w.notify is None,
    ensures
        ({
            let rows1 = rows0.insert(w.id, write_row(rows0, w, t));
            let rec = record_of(w.id, rows1[w.id]);
            &&& rows1.dom().contains(w.id)
            &&& rec.state == w.state
            &&& rec.method == Method::NONE
            &&& rec.url == Seq::<char>::empty()
            &&& rec.response_code is None
            &&& rec.response is None
            &&& dispatch_target(rows1[w.id]) is None
        }),
{
}

/// A write that omits the notification target retains the stored one
/// verbatim: merging never silently clears a previously registered target.
pub proof fn lemma_merge_preserves_target(prev: RowV, w: WriteV, t: i64)
    requires
        w.notify is None,
    ensures
        row_target(merge_row(prev, w, t)) == row_target(prev),
        dispatch_target(merge_row(prev, w, t)) == dispatch_target(prev),
{
}

/// A write that supplies a notification target overwrites the stored one:
/// the merged row carries exactly the supplied target.
pub proof fn lemma_merge_overwrites_target(prev: RowV, w: WriteV, t: i64, n: NotifyV)
    requires
        w.notify == Some(n),
    ensures
        row_target(merge_row(prev, w, t)) == Some(n),
{
    crate::method::lemma_method_token_round_trip(n.method);
}

/// Re-setting a key with identical arguments keeps exactly one row for it:
/// the second write merges onto the row the first created, the creation
/// time stays that of the first write, the update time advances past it,
/// and the state and carried target are those of the write.
pub proof fn lemma_idempotent_reset(rows0: Map<Seq<char>, RowV>, w: WriteV, t1: i64, t2: i64)
    requires
        !rows0.dom().contains(w.id),
        t1 < t2,
    ensures
        ({
            let rows1 = rows0.insert(w.id, write_row(rows0, w, t1));
            let rows2 = rows1.insert(w.id, write_row(rows1, w, t2));
            &&& rows2.dom() =~= rows0.dom().insert(w.id)
            &&& rows2[w.id].create_at == t1
            &&& rows2[w.id].update_at == t2
            &&& rows2[w.id].update_at > rows2[w.id].create_at
            &&& rows2[w.id].state == w.state
            &&& row_target(rows2[w.id]) == row_target(write_row(rows0, w, t1))
        }),
{
    let rows1 = rows0.insert(w.id, write_row(rows0, w, t1));
    assert(rows1[w.id] == create_row(w, t1));
    assert(write_row(rows1, w, t2) == merge_row(create_row(w, t1), w, t2));
}

/// Listing a two-record store with a limit of one returns only the more
/// recently created record, in full.
pub proof fn lemma_list_newest_first(
    rows: Map<Seq<char>, RowV>,
    k5: Seq<char>,
    k6: Seq<char>,
    out: Seq<RecordV>,
)
    requires
        rows.dom().contains(k5),
        rows.dom().contains(k6),
        k5 != k6,
        forall|k: Seq<char>| rows.dom().contains(k) ==> k == k5 || k == k6,
        rows[k6].create_at > rows[k5].create_at,
        listing_post(rows, None, 1, out),
    ensures
        out.len() == 1,
        out[0].id == k6,
        out[0] == record_of(k6, rows[k6]),
{
    assert(page_matches(rows, None, k5));
    assert(page_matches(rows, None, k6));
    if out.len() == 0 {
        assert(listing_has(out, k6));
        assert(false);
    }
    assert(out.len() == 1);
    assert(page_matches(rows, None, out[0].id));
    if out[0].id == k5 {
        assert(!listing_has(out, k6)) by {
            if listing_has(out, k6) {
                let i = choose|i: int| 0 <= i < out.len() && out[i].id == k6;
                assert(out[0].id == k6);
            }
        }
        assert(rows[k6].create_at <= out[0].create_at);
        assert(out[0] == record_of(k5, rows[k5]));
        assert(out[0].create_at == rows[k5].create_at);
        assert(false);
    }
    assert(out[0].id == k6);
}

/// Listing with a state filter returns only records in that state,
/// whatever the insertion order.
pub proof fn lemma_list_filter(
    rows: Map<Seq<char>, RowV>,
    f: Seq<char>,
    limit: usize,
    out: Seq<RecordV>,
    i: int,
)
    requires
        listing_post(rows, Some(f), limit, out),
        0 <= i < out.len(),
    ensures
        out[i].state == f,
{
    assert(page_matches(rows, Some(f), out[i].id));
    assert(out[i] == record_of(out[i].id, rows[out[i].id]));
}

} // verus!
