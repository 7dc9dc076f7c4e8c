use std::time::{SystemTime, UNIX_EPOCH};

use kvlet::{InRecord, KvError, Method, Notify, Store};

fn fresh_store(tag: &str) -> Store {
    let nanos = SystemTime::now().duration_since(UNIX_EPOCH).unwrap().as_nanos();
    let path = format!("/tmp/kvlet_{}_{}.db", tag, nanos);
    Store::open(&path).unwrap()
}

fn plain(id: &str, state: &str) -> InRecord {
    InRecord { id: id.to_string(), state: state.to_string(), info: None, notify: None }
}

// An endpoint that deterministically refuses connections: the discard port
// on loopback is not served here, so dispatch fails fast with a transport
// error.
const DEAD_ENDPOINT: &str = "http://127.0.0.1:9/cb";

#[test]
fn create_then_read() {
    let mut store = fresh_store("create_then_read");
    let out = kvlet::api::set(&mut store, plain("k1", "running")).unwrap();
    assert!(out.is_none());
    let rec = kvlet::api::get(&mut store, "k1", None).unwrap().unwrap();
    assert_eq!(rec.id, "k1");
    assert_eq!(rec.state, "running");
    assert!(matches!(rec.method, Method::NONE));
    assert_eq!(rec.url, "");
    assert!(rec.info.is_none());
    assert!(rec.response_code.is_none());
    assert!(rec.response.is_none());
    assert_eq!(rec.create_at, rec.update_at);
}

#[test]
fn read_absent_key() {
    let mut store = fresh_store("read_absent_key");
    assert!(kvlet::api::get(&mut store, "nobody", None).unwrap().is_none());
}

#[test]
fn merge_preserves_target() {
    let mut store = fresh_store("merge_preserves_target");
    let first = InRecord {
        id: "k2".to_string(),
        state: "running".to_string(),
        info: None,
        notify: Some(Notify { method: Method::POST, url: DEAD_ENDPOINT.to_string() }),
    };
    // The write is persisted, then the dispatch to the dead endpoint fails.
    let err = kvlet::api::set(&mut store, first).unwrap_err();
    assert!(matches!(err, KvError::Dispatch(_)));
    // A second write without a target dispatches to the retained target.
    let err2 = kvlet::api::set(&mut store, plain("k2", "done")).unwrap_err();
    assert!(matches!(err2, KvError::Dispatch(_)));
    let rec = kvlet::api::get(&mut store, "k2", None).unwrap().unwrap();
    assert_eq!(rec.state, "done");
    assert!(matches!(rec.method, Method::POST));
    assert_eq!(rec.url, DEAD_ENDPOINT);
}

#[test]
fn merge_overwrites_target() {
    let mut store = fresh_store("merge_overwrites_target");
    let with_a = InRecord {
        id: "k3".to_string(),
        state: "running".to_string(),
        info: None,
        notify: Some(Notify { method: Method::NONE, url: "http://a.example/cb".to_string() }),
    };
    // A NONE-method target is stored but never dispatched to.
    assert!(kvlet::api::set(&mut store, with_a).unwrap().is_none());
    let with_b = InRecord {
        id: "k3".to_string(),
        state: "done".to_string(),
        info: None,
        notify: Some(Notify { method: Method::NONE, url: "http://b.example/cb".to_string() }),
    };
    assert!(kvlet::api::set(&mut store, with_b).unwrap().is_none());
    let rec = kvlet::api::get(&mut store, "k3", None).unwrap().unwrap();
    assert_eq!(rec.url, "http://b.example/cb");
    assert!(matches!(rec.method, Method::NONE));
}

#[test]
fn merge_overwrites_target_method() {
    let mut store = fresh_store("merge_overwrites_target_method");
    let with_post = InRecord {
        id: "k3b".to_string(),
        state: "running".to_string(),
        info: None,
        notify: Some(Notify { method: Method::POST, url: DEAD_ENDPOINT.to_string() }),
    };
    assert!(matches!(
        kvlet::api::set(&mut store, with_post).unwrap_err(),
        KvError::Dispatch(_)
    ));
    let with_get = InRecord {
        id: "k3b".to_string(),
        state: "done".to_string(),
        info: None,
        notify: Some(Notify { method: Method::GET, url: "http://127.0.0.1:9/other".to_string() }),
    };
    assert!(matches!(
        kvlet::api::set(&mut store, with_get).unwrap_err(),
        KvError::Dispatch(_)
    ));
    let rec = kvlet::api::get(&mut store, "k3b", None).unwrap().unwrap();
    assert!(matches!(rec.method, Method::GET));
    assert_eq!(rec.url, "http://127.0.0.1:9/other");
}

#[test]
fn idempotent_reset() {
    let mut store = fresh_store("idempotent_reset");
    assert!(kvlet::api::set(&mut store, plain("k4", "s")).unwrap().is_none());
    let first = kvlet::api::get(&mut store, "k4", None).unwrap().unwrap();
    assert!(kvlet::api::set(&mut store, plain("k4", "s")).unwrap().is_none());
    let second = kvlet::api::get(&mut store, "k4", None).unwrap().unwrap();
    assert_eq!(second.state, "s");
    assert_eq!(second.create_at, first.create_at);
    assert!(second.update_at > first.update_at);
    // exactly one row for the key
    let all = kvlet::api::list(&store, 100, &None).unwrap();
    assert_eq!(all.iter().filter(|r| r.id == "k4").count(), 1);
    assert_eq!(all.len(), 1);
}

#[test]
fn list_ordering_and_filter() {
    let mut store = fresh_store("list_ordering_and_filter");
    assert!(kvlet::api::set(&mut store, plain("k5", "running")).unwrap().is_none());
    assert!(kvlet::api::set(&mut store, plain("k6", "done")).unwrap().is_none());
    let top = kvlet::api::list(&store, 1, &None).unwrap();
    assert_eq!(top.len(), 1);
    assert_eq!(top[0].id, "k6");
    let done = kvlet::api::list(&store, 100, &Some("done".to_string())).unwrap();
    assert_eq!(done.len(), 1);
    assert_eq!(done[0].id, "k6");
    let running = kvlet::api::list(&store, 100, &Some("running".to_string())).unwrap();
    assert_eq!(running.len(), 1);
    assert_eq!(running[0].id, "k5");
    let none = kvlet::api::list(&store, 100, &Some("other".to_string())).unwrap();
    assert!(none.is_empty());
    let zero = kvlet::api::list(&store, 0, &None).unwrap();
    assert!(zero.is_empty());
}

#[test]
fn list_full_order() {
    let mut store = fresh_store("list_full_order");
    assert!(kvlet::api::set(&mut store, plain("a", "s")).unwrap().is_none());
    assert!(kvlet::api::set(&mut store, plain("b", "s")).unwrap().is_none());
    assert!(kvlet::api::set(&mut store, plain("c", "s")).unwrap().is_none());
    let all = kvlet::api::list(&store, 10, &None).unwrap();
    let ids: Vec<&str> = all.iter().map(|r| r.id.as_str()).collect();
    assert_eq!(ids, vec!["c", "b", "a"]);
    assert!(all[0].create_at >= all[1].create_at);
    assert!(all[1].create_at >= all[2].create_at);
}

#[test]
fn dispatch_failure_keeps_record() {
    let mut store = fresh_store("dispatch_failure_keeps_record");
    let rec = InRecord {
        id: "k7".to_string(),
        state: "s".to_string(),
        info: None,
        notify: Some(Notify { method: Method::GET, url: DEAD_ENDPOINT.to_string() }),
    };
    let err = kvlet::api::set(&mut store, rec).unwrap_err();
    assert!(matches!(err, KvError::Dispatch(_)));
    // the record was written before the dispatch failed, and keeps its
    // pre-dispatch fields
    let got = kvlet::api::get(&mut store, "k7", None).unwrap().unwrap();
    assert_eq!(got.state, "s");
    assert!(matches!(got.method, Method::GET));
    assert_eq!(got.url, DEAD_ENDPOINT);
    assert!(got.response_code.is_none());
    assert!(got.response.is_none());
}

#[test]
fn get_updates_target_without_dispatch() {
    let mut store = fresh_store("get_updates_target_without_dispatch");
    assert!(kvlet::api::set(&mut store, plain("k8", "s")).unwrap().is_none());
    let notify = Some(Notify { method: Method::POST, url: DEAD_ENDPOINT.to_string() });
    // the read registers the target and succeeds: no dispatch on read
    let rec = kvlet::api::get(&mut store, "k8", notify).unwrap().unwrap();
    assert!(matches!(rec.method, Method::POST));
    assert_eq!(rec.url, DEAD_ENDPOINT);
    // the next write dispatches to the registered target
    let err = kvlet::api::set(&mut store, plain("k8", "s2")).unwrap_err();
    assert!(matches!(err, KvError::Dispatch(_)));
}

#[test]
fn get_with_target_on_absent_key() {
    let mut store = fresh_store("get_with_target_on_absent_key");
    let notify = Some(Notify { method: Method::POST, url: DEAD_ENDPOINT.to_string() });
    assert!(kvlet::api::get(&mut store, "ghost", notify).unwrap().is_none());
    // nothing was written
    assert!(kvlet::api::get(&mut store, "ghost", None).unwrap().is_none());
}

#[test]
fn info_merge() {
    let mut store = fresh_store("info_merge");
    let with_info = InRecord {
        id: "k9".to_string(),
        state: "s".to_string(),
        info: Some("first".to_string()),
        notify: None,
    };
    assert!(kvlet::api::set(&mut store, with_info).unwrap().is_none());
    assert!(kvlet::api::set(&mut store, plain("k9", "s2")).unwrap().is_none());
    let rec = kvlet::api::get(&mut store, "k9", None).unwrap().unwrap();
    assert_eq!(rec.state, "s2");
    assert_eq!(rec.info.as_deref(), Some("first"));
    let newer = InRecord {
        id: "k9".to_string(),
        state: "s3".to_string(),
        info: Some("second".to_string()),
        notify: None,
    };
    assert!(kvlet::api::set(&mut store, newer).unwrap().is_none());
    let rec2 = kvlet::api::get(&mut store, "k9", None).unwrap().unwrap();
    assert_eq!(rec2.info.as_deref(), Some("second"));
}

#[test]
fn recorded_outcome_is_persisted() {
    let mut store = fresh_store("recorded_outcome_is_persisted");
    assert!(kvlet::api::set(&mut store, plain("k11", "s")).unwrap().is_none());
    let before = kvlet::api::get(&mut store, "k11", None).unwrap().unwrap();
    store.record_outcome("k11", 200, "ok").unwrap();
    let rec = kvlet::api::get(&mut store, "k11", None).unwrap().unwrap();
    assert_eq!(rec.response_code, Some(200));
    assert_eq!(rec.response.as_deref(), Some("ok"));
    assert_eq!(rec.state, "s");
    assert_eq!(rec.create_at, before.create_at);
    assert!(rec.update_at > before.update_at);
    // only the most recent outcome is kept
    store.record_outcome("k11", 503, "busy").unwrap();
    let rec2 = kvlet::api::get(&mut store, "k11", None).unwrap().unwrap();
    assert_eq!(rec2.response_code, Some(503));
    assert_eq!(rec2.response.as_deref(), Some("busy"));
}

#[test]
fn record_outcome_on_absent_key_is_storage_error() {
    let mut store = fresh_store("record_outcome_on_absent_key");
    let err = store.record_outcome("absent", 200, "ok").unwrap_err();
    assert!(matches!(err, KvError::Storage(_)));
}

#[test]
fn open_bad_path_is_storage_error() {
    let err = match Store::open("/kvlet_no_such_dir_here/x.db") {
        Ok(_) => panic!("open of an impossible path succeeded"),
        Err(e) => e,
    };
    assert!(matches!(err, KvError::Storage(_)));
    assert!(!err.message().is_empty());
}

#[test]
fn records_survive_reopening() {
    let nanos = SystemTime::now().duration_since(UNIX_EPOCH).unwrap().as_nanos();
    let path = format!("/tmp/kvlet_records_survive_reopening_{}.db", nanos);
    {
        let mut store = Store::open(&path).unwrap();
        assert!(kvlet::api::set(&mut store, plain("k12", "kept")).unwrap().is_none());
    }
    let mut reopened = Store::open(&path).unwrap();
    let rec = kvlet::api::get(&mut reopened, "k12", None).unwrap().unwrap();
    assert_eq!(rec.state, "kept");
}

#[test]
fn lookup_matches_get() {
    let mut store = fresh_store("lookup_matches_get");
    assert!(kvlet::api::set(&mut store, plain("k10", "alpha")).unwrap().is_none());
    let via_lookup = store.lookup("k10").unwrap().unwrap();
    assert_eq!(via_lookup.state, "alpha");
    assert_eq!(via_lookup.id, "k10");
}
