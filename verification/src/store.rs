//! The record store: durable CRUD against one SQLite database file, plus
//! write-time reconciliation.
//!
//! The store's contents are modelled as a map from key to [`RowV`]; every
//! database statement stands behind a trusted wrapper whose contract says
//! what it does to that map.  The store is the sole writer of its database
//! file, and each statement is atomic: a failed statement changes nothing.

use vstd::prelude::*;
use vstd::string::StringExecFns;
use rusqlite::OptionalExtension;
use crate::errors::KvError;
use crate::method::{parse_method, Method};
use crate::model::{
    dispatch_target, merge_row, outcome_row, record_of, retarget_row, row_tokens_ok, ts_step,
    write_row, RowV,
};
use crate::record::{opt_notify_view, opt_str_view, InRecord, Notify, OutRecord, RecordV};

verus! {

#[verifier::external_type_specification]
#[verifier::external_body]
pub struct ExConnection(rusqlite::Connection);

/// What the database behind a connection holds: the stored row under each
/// key.  The key column is the table's primary key, so one row per key; the
/// contents are a function of the connection because the store owning it is
/// the sole writer of its database file.
pub uninterp spec fn db_rows(c: rusqlite::Connection) -> Map<Seq<char>, RowV>;

/// One row as the database hands it back; absent columns stay absent.
pub struct RawRow {
    pub state: String,
    pub info: Option<String>,
    pub method: Option<String>,
    pub url: Option<String>,
    pub response_code: Option<u16>,
    pub response: Option<String>,
    pub create_at: i64,
    pub update_at: i64,
}

impl View for RawRow {
    type V = RowV;

    open spec fn view(&self) -> RowV {
        RowV {
            state: self.state@,
            info: opt_str_view(self.info),
            method: opt_str_view(self.method),
            url: opt_str_view(self.url),
            response_code: self.response_code,
            response: opt_str_view(self.response),
            create_at: self.create_at,
            update_at: self.update_at,
        }
    }
}

/// Relies on `rusqlite::Connection::open`: opens the database file at
/// `path`, creating it when missing.  Nothing is known of the opened
/// database's contents.
#[verifier::external_body]
fn open_conn(path: &str) -> (r: Result<rusqlite::Connection, KvError>)
    ensures
        r matches Err(e) ==> e is Storage,
{
    rusqlite::Connection::open(path).map_err(|e| KvError::Storage(e.to_string()))
}

/// Relies on `rusqlite::Connection::execute` running one `CREATE TABLE IF
/// NOT EXISTS` statement: it adds no row, so the contents are untouched.
#[verifier::external_body]
fn init_schema(conn: &rusqlite::Connection) -> (r: Result<(), KvError>)
    ensures
        r matches Err(e) ==> e is Storage,
{
    let res = conn.execute(
        "CREATE TABLE IF NOT EXISTS kvlet (id TEXT PRIMARY KEY, state TEXT NOT NULL, info TEXT, method TEXT, url TEXT, response_code INTEGER, response TEXT, create_at INTEGER NOT NULL, update_at INTEGER NOT NULL)",
        (),
    );
    match res {
        Ok(_) => Ok(()),
        Err(e) => Err(KvError::Storage(e.to_string())),
    }
}

/// Relies on `chrono::Local::now` and `DateTime::timestamp_millis`: the wall
/// clock as a millisecond epoch value.  The clock may move backwards, so
/// nothing is promised of the value.
#[verifier::external_body]
fn now_millis() -> i64 {
    chrono::Local::now().timestamp_millis()
}

/// Relies on `rusqlite::Connection::query_row` (one SELECT by primary key)
/// and `rusqlite::OptionalExtension::optional`: returns the row stored under
/// `id`, or none when no row matches.  A stored `response_code` outside u16
/// is a column read error, reported as a storage fault.
#[verifier::external_body]
fn select_row(conn: &rusqlite::Connection, id: &str) -> (r: Result<Option<RawRow>, KvError>)
    ensures
        r matches Ok(Some(raw)) ==> db_rows(*conn).dom().contains(id@) && raw@ == db_rows(
            *conn,
        )[id@],
        r matches Ok(None) ==> !db_rows(*conn).dom().contains(id@),
        r matches Err(e) ==> e is Storage,
{
    let res = conn.query_row(
        "SELECT state, info, method, url, response_code, response, create_at, update_at FROM kvlet WHERE id = ?1",
        (id,),
        |row| Ok(RawRow {
            state: row.get(0)?,
            info: row.get(1)?,
            method: row.get(2)?,
            url: row.get(3)?,
            response_code: row.get(4)?,
            response: row.get(5)?,
            create_at: row.get(6)?,
            update_at: row.get(7)?,
        }),
    );
    res.optional().map_err(|e| KvError::Storage(e.to_string()))
}

/// Relies on `rusqlite::Connection::execute` running one INSERT statement:
/// on success exactly the new row is stored under `id` (the key is the
/// table's primary key, so an INSERT can only succeed for a key that is not
/// yet stored); a failed statement changes nothing.
#[verifier::external_body]
fn insert_row(
    conn: &mut rusqlite::Connection,
    id: &str,
    state: &str,
    info: &Option<String>,
    method_tok: &str,
    url: &str,
    now: i64,
) -> (r: Result<(), KvError>)
    ensures
        r is Ok ==> db_rows(*final(conn)) == db_rows(*old(conn)).insert(
            id@,
            RowV {
                state: state@,
                info: opt_str_view(*info),
                method: Some(method_tok@),
                url: Some(url@),
                response_code: None,
                response: None,
                create_at: now,
                update_at: now,
            },
        ),
        r matches Err(e) ==> e is Storage && db_rows(*final(conn)) == db_rows(*old(conn)),
{
    let res = conn.execute(
        "INSERT INTO kvlet (id, state, info, method, url, create_at, update_at) VALUES (?1, ?2, ?3, ?4, ?5, ?6, ?7)",
        (id, state, info.as_deref(), method_tok, url, now, now),
    );
    match res {
        Ok(_) => Ok(()),
        Err(e) => Err(KvError::Storage(e.to_string())),
    }
}

/// Relies on `rusqlite::Connection::execute` running one UPDATE by primary
/// key: on success the row stored under `id`, if any, carries the given
/// state, info, target columns and update time, and keeps its response
/// columns and creation time; with no stored row nothing changes.  A failed
/// statement changes nothing.
#[verifier::external_body]
fn update_row(
    conn: &mut rusqlite::Connection,
    id: &str,
    state: &str,
    info: &Option<String>,
    method_tok: &Option<String>,
    url: &Option<String>,
    now: i64,
) -> (r: Result<(), KvError>)
    ensures
        r is Ok && db_rows(*old(conn)).dom().contains(id@) ==> db_rows(*final(conn)) == db_rows(
            *old(conn),
        ).insert(
            id@,
            RowV {
                state: state@,
                info: opt_str_view(*info),
                method: opt_str_view(*method_tok),
                url: opt_str_view(*url),
                response_code: db_rows(*old(conn))[id@].response_code,
                response: db_rows(*old(conn))[id@].response,
                create_at: db_rows(*old(conn))[id@].create_at,
                update_at: now,
            },
        ),
        r is Ok && !db_rows(*old(conn)).dom().contains(id@) ==> db_rows(*final(conn)) == db_rows(
            *old(conn),
        ),
        r matches Err(e) ==> e is Storage && db_rows(*final(conn)) == db_rows(*old(conn)),
{
    let res = conn.execute(
        "UPDATE kvlet SET state = ?2, info = ?3, method = ?4, url = ?5, update_at = ?6 WHERE id = ?1",
        (id, state, info.as_deref(), method_tok.as_deref(), url.as_deref(), now),
    );
    match res {
        Ok(_) => Ok(()),
        Err(e) => Err(KvError::Storage(e.to_string())),
    }
}

/// Relies on `rusqlite::Connection::execute` running one UPDATE by primary
/// key: on success it returns the affected row count — one when the key is
/// stored, zero otherwise — and rewrites exactly the response columns and
/// update time of the stored row.  A failed statement changes nothing.
#[verifier::external_body]
fn update_response_row(
    conn: &mut rusqlite::Connection,
    id: &str,
    code: u16,
    body: &str,
    now: i64,
) -> (r: Result<usize, KvError>)
    ensures
        r matches Ok(n) ==> ({
            let rows0 = db_rows(*old(conn));
            if rows0.dom().contains(id@) {
                n == 1 && db_rows(*final(conn)) == rows0.insert(
                    id@,
                    outcome_row(rows0[id@], code, body@, now),
                )
            } else {
                n == 0 && db_rows(*final(conn)) == rows0
            }
        }),
        r matches Err(e) ==> e is Storage && db_rows(*final(conn)) == db_rows(*old(conn)),
{
    let res = conn.execute(
        "UPDATE kvlet SET response_code = ?2, response = ?3, update_at = ?4 WHERE id = ?1",
        (id, code, body, now),
    );
    match res {
        Ok(n) => Ok(n),
        Err(e) => Err(KvError::Storage(e.to_string())),
    }
}

/// Whether the stored row under `k` matches a listing's state filter.
pub open spec fn page_matches(
    rows: Map<Seq<char>, RowV>,
    filter: Option<Seq<char>>,
    k: Seq<char>,
) -> bool {
    rows.dom().contains(k) && (match filter {
        Some(f) => rows[k].state == f,
        None => true,
    })
}

/// Whether a fetched page lists the key `k`.
pub open spec fn page_listed(v: Seq<(String, RawRow)>, k: Seq<char>) -> bool {
    exists|i: int| 0 <= i < v.len() && v[i].0@ == k
}

/// What one fetched page satisfies: every entry is a stored row matching the
/// filter, each key at most once, ordered by creation time, newest first; a
/// page shorter than the limit lists every matching row; and no omitted
/// matching row was created after the last listed one.
pub open spec fn page_post(
    rows: Map<Seq<char>, RowV>,
    filter: Option<Seq<char>>,
    limit: usize,
    v: Seq<(String, RawRow)>,
) -> bool {
    &&& v.len() <= limit
    &&& forall|i: int|
        #![trigger v[i]]
        0 <= i < v.len() ==> page_matches(rows, filter, v[i].0@) && v[i].1@ == rows[v[i].0@]
    &&& forall|i: int, j: int|
        #![trigger v[i], v[j]]
        0 <= i < j < v.len() ==> v[i].0@ != v[j].0@
    &&& forall|i: int, j: int|
        #![trigger v[i], v[j]]
        0 <= i < j < v.len() ==> v[i].1@.create_at >= v[j].1@.create_at
    &&& v.len() < limit ==> (forall|k: Seq<char>|
        page_matches(rows, filter, k) ==> page_listed(v, k))
    &&& forall|k: Seq<char>|
        page_matches(rows, filter, k) && !page_listed(v, k) && v.len() > 0 ==> rows[k].create_at
            <= v[v.len() - 1].1@.create_at
}

/// Relies on `rusqlite::Statement::query_map` over one `SELECT .. ORDER BY
/// create_at DESC, rowid DESC LIMIT ..`: the page holds stored rows, each
/// key at most once, sorted by creation time descending; a short page means
/// the table was exhausted; no omitted row was created after the last listed
/// one.  SQLite casts the bound limit text to its integer value, as the
/// LIMIT clause requires.
#[verifier::external_body]
fn list_rows(conn: &rusqlite::Connection, limit: usize) -> (r: Result<
    Vec<(String, RawRow)>,
    KvError,
>)
    ensures
        r matches Ok(v) ==> page_post(db_rows(*conn), None, limit, v@),
        r matches Err(e) ==> e is Storage,
{
    let res: rusqlite::Result<Vec<(String, RawRow)>> = conn.prepare(
        "SELECT id, state, info, method, url, response_code, response, create_at, update_at FROM kvlet ORDER BY create_at DESC, rowid DESC LIMIT ?1",
    ).and_then(|mut stmt| {
        stmt.query_map((limit.to_string(),), |row| Ok((row.get(0)?, RawRow {
            state: row.get(1)?,
            info: row.get(2)?,
            method: row.get(3)?,
            url: row.get(4)?,
            response_code: row.get(5)?,
            response: row.get(6)?,
            create_at: row.get(7)?,
            update_at: row.get(8)?,
        }))).and_then(|m| m.collect())
    });
    res.map_err(|e| KvError::Storage(e.to_string()))
}

/// Relies on `rusqlite::Statement::query_map` over one `SELECT .. WHERE
/// state = .. ORDER BY create_at DESC, rowid DESC LIMIT ..`: as `list_rows`,
/// restricted to rows whose state equals the filter exactly.
#[verifier::external_body]
fn list_rows_filtered(conn: &rusqlite::Connection, state: &str, limit: usize) -> (r: Result<
    Vec<(String, RawRow)>,
    KvError,
>)
    ensures
        r matches Ok(v) ==> page_post(db_rows(*conn), Some(state@), limit, v@),
        r matches Err(e) ==> e is Storage,
{
    let res: rusqlite::Result<Vec<(String, RawRow)>> = conn.prepare(
        "SELECT id, state, info, method, url, response_code, response, create_at, update_at FROM kvlet WHERE state = ?1 ORDER BY create_at DESC, rowid DESC LIMIT ?2",
    ).and_then(|mut stmt| {
        stmt.query_map((state, limit.to_string()), |row| Ok((row.get(0)?, RawRow {
            state: row.get(1)?,
            info: row.get(2)?,
            method: row.get(3)?,
            url: row.get(4)?,
            response_code: row.get(5)?,
            response: row.get(6)?,
            create_at: row.get(7)?,
            update_at: row.get(8)?,
        }))).and_then(|m| m.collect())
    });
    res.map_err(|e| KvError::Storage(e.to_string()))
}

/// The persistent mapping from key to record: one open database connection
/// together with the write clock that stamps creation and update times.
pub struct Store {
    conn: rusqlite::Connection,
    last_ts: i64,
}

impl Store {
    /// The stored row under each key.
    pub closed spec fn rows(self) -> Map<Seq<char>, RowV> {
        db_rows(self.conn)
    }

    /// The latest timestamp this store has written.
    pub closed spec fn clock(self) -> i64 {
        self.last_ts
    }

    /// Opens (creating when missing) the database file at `path` and ensures
    /// the table exists.  The contents are whatever the file already holds.
    pub fn open(path: &str) -> (r: Result<Store, KvError>)
        ensures
            r matches Err(e) ==> e is Storage,
    {
        let conn = open_conn(path)?;
        init_schema(&conn)?;
        Ok(Store { conn, last_ts: 0 })
    }

    /// A timestamp for the operation now performed: the wall clock, nudged
    /// forward when the clock did not advance, so that successive writes of
    /// one store carry strictly increasing times.
    fn fresh_ts(&mut self) -> (t: i64)
        ensures
            final(self).last_ts == t,
            final(self).conn == old(self).conn,
            ts_step(old(self).last_ts, t),
    {
        let now = now_millis();
        let t: i64 = if now <= self.last_ts {
            if self.last_ts == i64::MAX {
                self.last_ts
            } else {
                self.last_ts + 1
            }
        } else {
            now
        };
        self.last_ts = t;
        t
    }

    /// Reconciles one incoming write against the stored row and persists the
    /// result: a fresh row for a new key, a merge for a stored one.  Returns
    /// the resulting record (before any dispatch outcome) together with the
    /// notification target the write is to dispatch to.
    pub fn reconcile_write(&mut self, w: &InRecord) -> (r: Result<(OutRecord, Option<Notify>), KvError>)
        ensures
            final(self).clock() >= old(self).clock(),
            r matches Ok(p) ==> ({
                let rows0 = old(self).rows();
                let t = final(self).clock();
                let row1 = write_row(rows0, w@, t);
                &&& ts_step(old(self).clock(), t)
                &&& (rows0.dom().contains(w.id@) ==> row_tokens_ok(rows0[w.id@]))
                &&& final(self).rows() == rows0.insert(w.id@, row1)
                &&& p.0@ == record_of(w.id@, row1)
                &&& opt_notify_view(p.1) == dispatch_target(row1)
            }),
            r matches Err(e) ==> e is Storage && final(self).rows() == old(self).rows(),
            old(self).rows().dom().contains(w.id@) && !row_tokens_ok(old(self).rows()[w.id@])
                ==> r is Err,
    {
        let found = select_row(&self.conn, w.id.as_str())?;
        match found {
            None => {
                let t = self.fresh_ts();
                let (tok, url_s): (String, String) = match &w.notify {
                    Some(n) => (n.method.token().to_owned(), n.url.clone()),
                    None => (String::new(), String::new()),
                };
                let info_c = clone_opt(&w.info);
                insert_row(
                    &mut self.conn,
                    w.id.as_str(),
                    w.state.as_str(),
                    &info_c,
                    tok.as_str(),
                    url_s.as_str(),
                    t,
                )?;
                let method_e: Method = match &w.notify {
                    Some(n) => n.method,
                    None => Method::NONE,
                };
                let target: Option<Notify> = match &w.notify {
                    Some(n) => match n.method {
                        Method::GET | Method::POST => Some(
                            Notify { method: n.method, url: n.url.clone() },
                        ),
                        Method::NONE => None,
                    },
                    None => None,
                };
                let rec = OutRecord {
                    id: w.id.clone(),
                    state: w.state.clone(),
                    info: info_c,
                    method: method_e,
                    url: url_s,
                    response_code: None,
                    response: None,
                    create_at: t,
                    update_at: t,
                };
                proof {
                    if w@.notify is Some {
                        crate::method::lemma_method_token_round_trip(w@.notify->Some_0.method);
                    }
                    assert(final(self).rows() =~= old(self).rows().insert(
                        w.id@,
                        write_row(old(self).rows(), w@, t),
                    ));
                }
                Ok((rec, target))
            },
            Some(raw) => {
                let stored_method: Method = match &raw.method {
                    Some(tk) => match parse_method(tk.as_str()) {
                        Ok(m) => m,
                        Err(_) => {
                            return Err(
                                KvError::Storage(String::from_str("unrecognized method token")),
                            );
                        },
                    },
                    None => Method::NONE,
                };
                let t = self.fresh_ts();
                let (inc_m, inc_u): (Option<String>, Option<String>) = match &w.notify {
                    Some(n) => (Some(n.method.token().to_owned()), Some(n.url.clone())),
                    None => (None, None),
                };
                let merged_info = crate::record::merge_keep(clone_opt(&w.info), raw.info);
                let merged_method = crate::record::merge_keep(inc_m, raw.method);
                let merged_url = crate::record::merge_keep(inc_u, raw.url);
                update_row(
                    &mut self.conn,
                    w.id.as_str(),
                    w.state.as_str(),
                    &merged_info,
                    &merged_method,
                    &merged_url,
                    t,
                )?;
                let method_e: Method = match &w.notify {
                    Some(n) => n.method,
                    None => stored_method,
                };
                let target: Option<Notify> = match (&merged_url, method_e) {
                    (Some(u), Method::GET) => Some(Notify { method: Method::GET, url: u.clone() }),
                    (Some(u), Method::POST) => Some(
                        Notify { method: Method::POST, url: u.clone() },
                    ),
                    _ => None,
                };
                let url_view = match &merged_url {
                    Some(u) => u.clone(),
                    None => String::new(),
                };
                let rec = OutRecord {
                    id: w.id.clone(),
                    state: w.state.clone(),
                    info: merged_info,
                    method: method_e,
                    url: url_view,
                    response_code: raw.response_code,
                    response: raw.response,
                    create_at: raw.create_at,
                    update_at: t,
                };
                proof {
                    if w@.notify is Some {
                        crate::method::lemma_method_token_round_trip(w@.notify->Some_0.method);
                    }
                    let rows0 = old(self).rows();
                    let row1 = write_row(rows0, w@, t);
                    assert(row1 == merge_row(rows0[w.id@], w@, t));
                    assert(final(self).rows() =~= rows0.insert(w.id@, row1));
                    assert(rec@ == record_of(w.id@, row1));
                    assert(opt_notify_view(target) == dispatch_target(row1));
                }
                Ok((rec, target))
            },
        }
    }

    /// Records one dispatch outcome on the stored row for `id`, refreshing
    /// the update time.  A missing row is an invariant violation, reported
    /// as a storage fault.
    pub fn record_outcome(&mut self, id: &str, status_code: u16, body: &str) -> (r: Result<
        (),
        KvError,
    >)
        ensures
            final(self).clock() >= old(self).clock(),
            r is Ok ==> ({
                let rows0 = old(self).rows();
                let t = final(self).clock();
                &&& ts_step(old(self).clock(), t)
                &&& rows0.dom().contains(id@)
                &&& final(self).rows() == rows0.insert(
                    id@,
                    outcome_row(rows0[id@], status_code, body@, t),
                )
            }),
            r matches Err(e) ==> e is Storage && final(self).rows() == old(self).rows(),
            !old(self).rows().dom().contains(id@) ==> r is Err,
    {
        let t = self.fresh_ts();
        let n = update_response_row(&mut self.conn, id, status_code, body, t)?;
        if n == 0 {
            return Err(KvError::Storage(String::from_str("no stored row for id")));
        }
        Ok(())
    }

    /// Lists stored records, most recently created first, at most `num` of
    /// them; with a filter, only records whose state equals it exactly.
    pub fn list(&self, num: usize, state: &Option<String>) -> (r: Result<Vec<OutRecord>, KvError>)
        ensures
            r matches Ok(v) ==> listing_post(
                self.rows(),
                opt_str_view(*state),
                num,
                records_view(v@),
            ),
            r matches Err(e) ==> e is Storage,
    {
        let mut raws = match state {
            Some(f) => list_rows_filtered(&self.conn, f.as_str(), num)?,
            None => list_rows(&self.conn, num)?,
        };
        let ghost orig = raws@;
        let ghost filter = opt_str_view(*state);
        let ghost rows = self.rows();
        let mut out: Vec<OutRecord> = Vec::new();
        proof {
            assert(raws@ =~= orig.skip(0));
        }
        while raws.len() > 0
            invariant
                page_post(rows, filter, num, orig),
                out@.len() + raws@.len() == orig.len(),
                raws@ == orig.skip(out@.len() as int),
                forall|j: int|
                    #![trigger out@[j]]
                    0 <= j < out@.len() ==> out@[j]@ == record_of(orig[j].0@, orig[j].1@)
                        && row_tokens_ok(orig[j].1@),
            decreases raws@.len(),
        {
            let ghost k = out@.len() as int;
            proof {
                assert(raws@[0] == orig[k]);
            }
            let (id_s, raw) = raws.remove(0);
            let rec = raw_to_record(id_s.as_str(), raw)?;
            out.push(rec);
            proof {
                assert(raws@ =~= orig.skip(out@.len() as int));
            }
        }
        proof {
            let outv = records_view(out@);
            assert(outv.len() == orig.len());
            assert forall|i: int| 0 <= i < outv.len() implies (#[trigger] outv[i]) == record_of(
                orig[i].0@,
                orig[i].1@,
            ) && outv[i].id == orig[i].0@ && outv[i].create_at == orig[i].1@.create_at by {
                assert(outv[i] == out@[i]@);
            }
            assert forall|k: Seq<char>| #[trigger]
                page_listed(orig, k) implies listing_has(outv, k) by {
                let i = choose|i: int| 0 <= i < orig.len() && orig[i].0@ == k;
                assert(outv[i].id == k);
                assert(0 <= i < outv.len() && outv[i].id == k);
            }
            assert forall|k: Seq<char>| #[trigger]
                listing_has(outv, k) implies page_listed(orig, k) by {
                let i = choose|i: int| 0 <= i < outv.len() && outv[i].id == k;
                assert(orig[i].0@ == k);
                assert(0 <= i < orig.len() && orig[i].0@ == k);
            }
            assert forall|i: int| #![trigger outv[i]] 0 <= i < outv.len() implies page_matches(
                rows,
                filter,
                outv[i].id,
            ) && row_tokens_ok(rows[outv[i].id]) && outv[i] == record_of(
                outv[i].id,
                rows[outv[i].id],
            ) by {
                assert(page_matches(rows, filter, orig[i].0@) && orig[i].1@ == rows[orig[i].0@]);
            }
            if outv.len() > 0 {
                assert(outv[outv.len() - 1].create_at == orig[orig.len() - 1].1@.create_at);
            }
            assert forall|i: int, j: int|
                #![trigger outv[i], outv[j]]
                0 <= i < j < outv.len() implies outv[i].id != outv[j].id by {
                assert(orig[i].0@ != orig[j].0@);
            }
            assert forall|i: int, j: int|
                #![trigger outv[i], outv[j]]
                0 <= i < j < outv.len() implies outv[i].create_at >= outv[j].create_at by {
                assert(orig[i].1@.create_at >= orig[j].1@.create_at);
            }
            if outv.len() < num {
                assert forall|k: Seq<char>|
                    page_matches(rows, filter, k) implies listing_has(outv, k) by {
                    assert(page_listed(orig, k));
                }
            }
            assert forall|k: Seq<char>|
                page_matches(rows, filter, k) && !listing_has(outv, k) && outv.len() > 0 implies
                rows[k].create_at <= outv[outv.len() - 1].create_at by {
                assert(!page_listed(orig, k));
                assert(rows[k].create_at <= orig[orig.len() - 1].1@.create_at);
            }
            assert(listing_post(rows, filter, num, outv));
        }
        Ok(out)
    }

    /// Overwrites the stored notification target for `id` with the supplied
    /// one, refreshing the update time; no dispatch occurs.  Returns the
    /// resulting record, or none when no row is stored under `id` (then
    /// nothing is written).
    pub fn update_target(&mut self, id: &str, n: &Notify) -> (r: Result<Option<OutRecord>, KvError>)
        ensures
            final(self).clock() >= old(self).clock(),
            r matches Ok(None) ==> !old(self).rows().dom().contains(id@)
                && final(self).rows() == old(self).rows(),
            r matches Ok(Some(rec)) ==> ({
                let rows0 = old(self).rows();
                let row1 = retarget_row(rows0[id@], n@, final(self).clock());
                &&& rows0.dom().contains(id@)
                &&& row_tokens_ok(rows0[id@])
                &&& ts_step(old(self).clock(), final(self).clock())
                &&& final(self).rows() == rows0.insert(id@, row1)
                &&& rec@ == record_of(id@, row1)
            }),
            r matches Err(e) ==> e is Storage && final(self).rows() == old(self).rows(),
            old(self).rows().dom().contains(id@) && !row_tokens_ok(old(self).rows()[id@]) ==> r
                is Err,
    {
        let found = select_row(&self.conn, id)?;
        match found {
            None => Ok(None),
            Some(raw) => {
                match &raw.method {
                    Some(tk) => match parse_method(tk.as_str()) {
                        Ok(_) => (),
                        Err(_) => {
                            return Err(
                                KvError::Storage(String::from_str("unrecognized method token")),
                            );
                        },
                    },
                    None => (),
                };
                let t = self.fresh_ts();
                let m_tok: Option<String> = Some(n.method.token().to_owned());
                let u: Option<String> = Some(n.url.clone());
                update_row(&mut self.conn, id, raw.state.as_str(), &raw.info, &m_tok, &u, t)?;
                let rec = OutRecord {
                    id: id.to_owned(),
                    state: raw.state,
                    info: raw.info,
                    method: n.method,
                    url: n.url.clone(),
                    response_code: raw.response_code,
                    response: raw.response,
                    create_at: raw.create_at,
                    update_at: t,
                };
                proof {
                    crate::method::lemma_method_token_round_trip(n.method);
                    let rows0 = old(self).rows();
                    let row1 = retarget_row(rows0[id@], n@, t);
                    assert(final(self).rows() =~= rows0.insert(id@, row1));
                    assert(rec@ == record_of(id@, row1));
                }
                Ok(Some(rec))
            },
        }
    }

    /// Reads the record stored under `id`; absent keys are no failure.  A
    /// stored row whose method token is unrecognized is a storage fault.
    pub fn lookup(&self, id: &str) -> (r: Result<Option<OutRecord>, KvError>)
        ensures
            r matches Ok(Some(rec)) ==> self.rows().dom().contains(id@) && row_tokens_ok(
                self.rows()[id@],
            ) && rec@ == record_of(id@, self.rows()[id@]),
            r matches Ok(None) ==> !self.rows().dom().contains(id@),
            r matches Err(e) ==> e is Storage,
            self.rows().dom().contains(id@) && !row_tokens_ok(self.rows()[id@]) ==> r is Err,
    {
        match select_row(&self.conn, id)? {
            Some(raw) => Ok(Some(raw_to_record(id, raw)?)),
            None => Ok(None),
        }
    }
}

/// Whether a listing lists the key `k`.
pub open spec fn listing_has(out: Seq<RecordV>, k: Seq<char>) -> bool {
    exists|i: int| 0 <= i < out.len() && out[i].id == k
}

/// What a listing satisfies: every returned record is the stored row under
/// its key, matching the filter, each key at most once, ordered by creation
/// time, newest first; a listing shorter than the limit holds every matching
/// record; and no omitted matching row was created after the last listed
/// one.
pub open spec fn listing_post(
    rows: Map<Seq<char>, RowV>,
    filter: Option<Seq<char>>,
    limit: usize,
    out: Seq<RecordV>,
) -> bool {
    &&& out.len() <= limit
    &&& forall|i: int|
        #![trigger out[i]]
        0 <= i < out.len() ==> page_matches(rows, filter, out[i].id) && row_tokens_ok(
            rows[out[i].id],
        ) && out[i] == record_of(out[i].id, rows[out[i].id])
    &&& forall|i: int, j: int|
        #![trigger out[i], out[j]]
        0 <= i < j < out.len() ==> out[i].id != out[j].id
    &&& forall|i: int, j: int|
        #![trigger out[i], out[j]]
        0 <= i < j < out.len() ==> out[i].create_at >= out[j].create_at
    &&& out.len() < limit ==> (forall|k: Seq<char>|
        page_matches(rows, filter, k) ==> listing_has(out, k))
    &&& forall|k: Seq<char>|
        page_matches(rows, filter, k) && !listing_has(out, k) && out.len() > 0 ==> rows[
            k
        ].create_at <= out[out.len() - 1].create_at
}

/// The views of the listed records.
pub open spec fn records_view(v: Seq<OutRecord>) -> Seq<RecordV> {
    v.map_values(|o: OutRecord| o@)
}

/// Clones an optional string, preserving the value.
fn clone_opt(o: &Option<String>) -> (r: Option<String>)
    ensures
        r == *o,
{
    match o {
        Some(s) => Some(s.clone()),
        None => None,
    }
}

/// Turns one fetched row into the record a reader sees, parsing the stored
/// method token; an unrecognized token is a storage fault.
fn raw_to_record(id: &str, raw: RawRow) -> (r: Result<OutRecord, KvError>)
    ensures
        r matches Ok(rec) ==> row_tokens_ok(raw@) && rec@ == record_of(id@, raw@),
        r matches Err(e) ==> e is Storage && !row_tokens_ok(raw@),
{
    let method = match &raw.method {
        Some(t) => match parse_method(t.as_str()) {
            Ok(m) => m,
            Err(_) => {
                return Err(KvError::Storage(String::from_str("unrecognized method token")));
            },
        },
        None => Method::NONE,
    };
    let url = match raw.url {
        Some(u) => u,
        None => String::new(),
    };
    Ok(
        OutRecord {
            id: id.to_owned(),
            state: raw.state,
            info: raw.info,
            method,
            url,
            response_code: raw.response_code,
            response: raw.response,
            create_at: raw.create_at,
            update_at: raw.update_at,
        },
    )
}

} // verus!
