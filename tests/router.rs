use bookmark_host::bookmark::{Bookmark, BookmarkId, RequestData};
use bookmark_host::response::{Body, Response, BINARY_VERSION, TOO_LARGE_MESSAGE, UNKNOWN_MESSAGE};
use bookmark_host::server::{
    classify, plan, settle, Event, Next, Outcome, Request, Server, Step, StoreOp,
};
use bookmark_host::store::{MemoryStore, StoreError};

fn mark(id: Option<u64>, url: &str, title: &str) -> Bookmark {
    Bookmark {
        id: id.map(BookmarkId),
        url: url.to_string(),
        title: title.to_string(),
        group: None,
        position: None,
    }
}

fn with_mark(b: Bookmark) -> Option<RequestData> {
    Some(RequestData { bookmark: Some(b), bookmark_id: None })
}

fn with_id(id: u64) -> Option<RequestData> {
    Some(RequestData { bookmark: None, bookmark_id: Some(BookmarkId(id)) })
}

fn is_unknown(r: &Response) -> bool {
    !r.success && matches!(&r.body, Body::Message(m) if m == UNKNOWN_MESSAGE)
}

fn listed(r: &Response) -> Vec<Bookmark> {
    assert!(r.success);
    match &r.body {
        Body::Bookmarks(v) => v.clone(),
        _ => panic!("no bookmarks in reply"),
    }
}

#[test]
fn options_reports_version_and_leaves_store() {
    let mut s = Server::new(MemoryStore::new());
    s.router("POST", with_mark(mark(None, "https://a.example", "A")));
    let r = s.router("OPTIONS", None);
    assert!(r.success);
    assert!(matches!(&r.body, Body::Version(v) if v == BINARY_VERSION));
    assert_eq!(s.db.items.len(), 1);
    assert_eq!(s.db.next_id, 1);
}

#[test]
fn put_without_id_fails_without_store() {
    let mut s = Server::new(MemoryStore::new());
    s.router("POST", with_mark(mark(None, "https://a.example", "A")));
    let r = s.router("PUT", with_mark(mark(None, "https://b.example", "B")));
    assert!(!r.success);
    assert!(matches!(r.body, Body::Empty));
    assert_eq!(s.db.items[0].url, "https://a.example");
    assert!(matches!(plan(Request::Put(mark(None, "x", "y"))), Step::Reply(_)));
}

#[test]
fn post_without_bookmark_is_unknown() {
    let mut s = Server::new(MemoryStore::new());
    let a = s.router("POST", None);
    let b = s.router("POST", Some(RequestData { bookmark: None, bookmark_id: Some(BookmarkId(3)) }));
    assert!(is_unknown(&a));
    assert!(is_unknown(&b));
    assert_eq!(UNKNOWN_MESSAGE, "Unrecognised request type or bad request payload.");
    assert_eq!(s.db.items.len(), 0);
}

#[test]
fn delete_reports_store_outcome() {
    let mut s = Server::new(MemoryStore::new());
    s.router("POST", with_mark(mark(None, "https://a.example", "A")));
    let missing = s.router("DELETE", with_id(7));
    assert!(!missing.success);
    assert!(matches!(missing.body, Body::Empty));
    let done = s.router("DELETE", with_id(0));
    assert!(done.success);
    assert!(s.db.items.is_empty());
    let again = s.router("DELETE", with_id(0));
    assert!(!again.success);
}

#[test]
fn delete_without_id_is_unknown() {
    let mut s = Server::new(MemoryStore::new());
    assert!(is_unknown(&s.router("DELETE", None)));
    assert!(is_unknown(&s.router("DELETE", with_mark(mark(Some(0), "u", "t")))));
}

#[test]
fn post_then_get_lists_with_id() {
    let mut s = Server::new(MemoryStore::new());
    let empty = s.router("GET", None);
    assert!(listed(&empty).is_empty());
    assert!(s.router("POST", with_mark(mark(None, "https://a.example", "A"))).success);
    assert!(s.router("POST", with_mark(mark(Some(40), "https://b.example", "B"))).success);
    let v = listed(&s.router("GET", None));
    assert_eq!(v.len(), 2);
    assert_eq!(v[0].id, Some(BookmarkId(0)));
    assert_eq!(v[0].url, "https://a.example");
    assert_eq!(v[0].title, "A");
    assert_eq!(v[1].id, Some(BookmarkId(1)));
    assert_eq!(v[1].title, "B");
}

#[test]
fn put_with_id_updates_record() {
    let mut s = Server::new(MemoryStore::new());
    s.router("POST", with_mark(mark(None, "https://a.example", "A")));
    assert!(s.router("PUT", with_mark(mark(Some(0), "https://c.example", "C"))).success);
    assert!(!s.router("PUT", with_mark(mark(Some(5), "https://d.example", "D"))).success);
    let v = listed(&s.router("GET", None));
    assert_eq!(v.len(), 1);
    assert_eq!(v[0].url, "https://c.example");
}

#[test]
fn put_without_bookmark_is_plain_failure() {
    let mut s = Server::new(MemoryStore::new());
    s.router("POST", with_mark(mark(None, "https://a.example", "A")));
    for r in [s.router("PUT", None), s.router("PUT", with_id(0))] {
        assert!(!r.success);
        assert!(matches!(r.body, Body::Empty));
    }
    assert!(matches!(classify("PUT", None), Request::Refused));
    assert!(matches!(plan(Request::Refused), Step::Reply(_)));
    assert_eq!(s.db.items.len(), 1);
    assert_eq!(s.db.items[0].url, "https://a.example");
}

#[test]
fn malformed_request_then_valid_one() {
    let mut s = Server::new(MemoryStore::new());
    assert!(is_unknown(&s.router("", None)));
    assert!(is_unknown(&s.router("get", None)));
    assert!(s.router("OPTIONS", None).success);
}

#[test]
fn other_method_is_unknown() {
    let mut s = Server::new(MemoryStore::new());
    assert!(is_unknown(&s.router("PATCH", None)));
    assert!(is_unknown(&s.router("PATCH", with_mark(mark(None, "u", "t")))));
    assert!(is_unknown(&s.router("PATCH", with_id(0))));
    assert!(matches!(classify("PATCH", with_id(0)), Request::Malformed));
}

#[test]
fn plan_makes_one_call_per_valid_request() {
    assert!(matches!(plan(Request::Get), Step::Call(StoreOp::List)));
    assert!(matches!(plan(Request::Post(mark(None, "u", "t"))), Step::Call(StoreOp::Insert(_))));
    assert!(matches!(plan(Request::Put(mark(Some(1), "u", "t"))), Step::Call(StoreOp::Update(_))));
    assert!(matches!(plan(Request::Delete(BookmarkId(2))), Step::Call(StoreOp::Remove(BookmarkId(2)))));
    assert!(matches!(plan(Request::Options), Step::Reply(_)));
    assert!(matches!(plan(Request::Malformed), Step::Reply(_)));
}

#[test]
fn listing_error_carries_message() {
    let r = settle(Outcome::Listed(Err("disk gone".to_string())));
    assert!(!r.success);
    assert!(matches!(&r.body, Body::Message(m) if m == "disk gone"));
}

#[test]
fn step_answers_every_frame() {
    let mut s = Server::new(MemoryStore::new());
    match s.step(Event::Undecodable) {
        Next::Send(r) => assert!(is_unknown(&r)),
        Next::Stop => panic!("stopped on an undecodable frame"),
    }
    match s.step(Event::Frame("POST".to_string(), with_mark(mark(None, "u", "t")))) {
        Next::Send(r) => assert!(r.success),
        Next::Stop => panic!("stopped on a request"),
    }
    assert_eq!(s.db.items.len(), 1);
    match s.step(Event::Frame("GET".to_string(), None)) {
        Next::Send(r) => assert_eq!(listed(&r).len(), 1),
        Next::Stop => panic!("stopped on a request"),
    }
    match s.step(Event::ReplyTooLarge) {
        Next::Send(r) => {
            assert!(!r.success);
            assert!(matches!(&r.body, Body::Message(m) if m == TOO_LARGE_MESSAGE));
        }
        Next::Stop => panic!("stopped on an oversized reply"),
    }
}

#[test]
fn step_stops_when_transport_fails() {
    let mut s = Server::new(MemoryStore::new());
    assert!(matches!(s.step(Event::Closed), Next::Stop));
    assert!(matches!(s.step(Event::SendFailed), Next::Stop));
}

#[test]
fn insert_fails_when_ids_run_out() {
    let mut db = MemoryStore::new();
    db.next_id = u64::MAX;
    assert_eq!(db.insert(&mark(None, "u", "t")), Err(StoreError::IdsExhausted));
    assert!(db.items.is_empty());
    let mut s = Server::new(db);
    let r = s.router("POST", with_mark(mark(None, "u", "t")));
    assert!(!r.success);
}
