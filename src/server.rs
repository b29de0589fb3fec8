use vstd::prelude::*;
use crate::bookmark::{Bookmark, BookmarkId, RequestData};
use crate::response::{
    Body, Response, flag, is_flag, is_too_large, is_unknown, is_version, option, too_large,
    unknown,
};
use crate::store::{MemoryStore, first_with, has_id, with_id};

verus! {

/// A decoded request, one variant per routable shape.
pub enum Request {
    Get,
    Options,
    Post(Bookmark),
    Put(Bookmark),
    Delete(BookmarkId),
    /// A well-formed request that breaks a rule of the store: an update
    /// without a bookmark.
    Refused,
    /// A request that no method and payload combination matches.
    Malformed,
}

/// The single store operation that a request asks for.
pub enum StoreOp {
    List,
    Insert(Bookmark),
    Update(Bookmark),
    Remove(BookmarkId),
}

/// What the router does next: answer at once, or make one store call.
pub enum Step {
    Reply(Response),
    Call(StoreOp),
}

/// What the store answered to a `StoreOp`.
pub enum Outcome {
    Listed(Result<Vec<Bookmark>, String>),
    Changed(bool),
}

/// What happened on the transport since the last step.
pub enum Event {
    /// A frame that decoded to a method and an optional payload.
    Frame(String, Option<RequestData>),
    /// A frame whose body is not a request.
    Undecodable,
    /// The last reply was refused by the transport as too large; nothing of it was written.
    ReplyTooLarge,
    /// The input was closed or its framing broke.
    Closed,
    /// Writing a reply failed.
    SendFailed,
}

/// What the protocol loop does next.
pub enum Next {
    Send(Response),
    Stop,
}

/// How a method name and an optional payload map to a request.
pub open spec fn classify_spec(method: Seq<char>, data: Option<RequestData>) -> Request {
    if method == "GET"@ {
        Request::Get
    } else if method == "OPTIONS"@ {
        Request::Options
    } else if method == "POST"@ {
        match data {
            Some(d) => match d.bookmark {
                Some(b) => Request::Post(b),
                None => Request::Malformed,
            },
            None => Request::Malformed,
        }
    } else if method == "PUT"@ {
        match data {
            Some(d) => match d.bookmark {
                Some(b) => Request::Put(b),
                None => Request::Refused,
            },
            None => Request::Refused,
        }
    } else if method == "DELETE"@ {
        match data {
            Some(d) => match d.bookmark_id {
                Some(id) => Request::Delete(id),
                None => Request::Malformed,
            },
            None => Request::Malformed,
        }
    } else {
        Request::Malformed
    }
}

/// The store call that a request is owed, if any: one for `GET`, `POST`,
/// `PUT` of a bookmark with an id, and `DELETE`; none otherwise.
pub open spec fn planned_call(req: Request) -> Option<StoreOp> {
    match req {
        Request::Get => Some(StoreOp::List),
        Request::Post(b) => Some(StoreOp::Insert(b)),
        Request::Put(b) => if b.id is Some {
            Some(StoreOp::Update(b))
        } else {
            None
        },
        Request::Delete(id) => Some(StoreOp::Remove(id)),
        _ => None,
    }
}

/// The immediate reply to a request that makes no store call.
pub open spec fn direct_reply(req: Request, r: Response) -> bool {
    match req {
        Request::Options => is_version(r),
        Request::Malformed => is_unknown(r),
        _ => is_flag(r, false),
    }
}

/// The reply `r` and the store change from `before` to `after` that a
/// request is owed.
pub open spec fn routed(req: Request, before: MemoryStore, after: MemoryStore, r: Response) -> bool {
    match req {
        Request::Options => is_version(r) && after == before,
        Request::Malformed => is_unknown(r) && after == before,
        Request::Refused => is_flag(r, false) && after == before,
        Request::Get => after == before && r.success && (r.body matches Body::Bookmarks(v)
            && v@ == before.items@),
        Request::Post(b) => if before.next_id < u64::MAX {
            is_flag(r, true) && after.items@ == before.items@.push(with_id(b, before.next_id))
                && after.next_id == before.next_id + 1
        } else {
            is_flag(r, false) && after == before
        },
        Request::Put(b) => match b.id {
            None => is_flag(r, false) && after == before,
            Some(id) => is_flag(r, has_id(before.items@, id)) && after.next_id == before.next_id
                && if r.success {
                exists|i: int|
                    first_with(before.items@, id, i) && after.items@ == before.items@.update(i, b)
            } else {
                after.items@ == before.items@
            },
        },
        Request::Delete(id) => is_flag(r, has_id(before.items@, id)) && after.next_id
            == before.next_id && if r.success {
            exists|i: int| first_with(before.items@, id, i) && after.items@ == before.items@.remove(i)
        } else {
            after.items@ == before.items@
        },
    }
}

/// What one turn of the protocol loop owes for an event: exactly one reply
/// for each frame, decodable or not, and a stop only when the transport fails.
pub open spec fn stepped(event: Event, before: MemoryStore, after: MemoryStore, r: Next) -> bool {
    match event {
        Event::Frame(m, d) => r matches Next::Send(resp) && routed(
            classify_spec(m@, d),
            before,
            after,
            resp,
        ),
        Event::Undecodable => after == before && (r matches Next::Send(resp) && is_unknown(resp)),
        Event::ReplyTooLarge => after == before && (r matches Next::Send(resp) && is_too_large(
            resp,
        )),
        Event::Closed => after == before && r is Stop,
        Event::SendFailed => after == before && r is Stop,
    }
}

fn same_text(a: &str, b: &str) -> (r: bool)
    ensures
        r == (a@ == b@),
{
    let n = a.unicode_len();
    if n != b.unicode_len() {
        return false;
    }
    let mut i: usize = 0;
    while i < n
        invariant
            n == a@.len(),
            n == b@.len(),
            i <= n,
            forall|j: int| 0 <= j < i ==> a@[j] == b@[j],
        decreases n - i,
    {
        if a.get_char(i) != b.get_char(i) {
            return false;
        }
        i = i + 1;
    }
    assert(a@ =~= b@);
    true
}

/// Turns a method name and its payload into a request.
pub fn classify(method: &str, data: Option<RequestData>) -> (r: Request)
    ensures
        r == classify_spec(method@, data),
{
    if same_text(method, "GET") {
        Request::Get
    } else if same_text(method, "OPTIONS") {
        Request::Options
    } else if same_text(method, "POST") {
        match data {
            Some(d) => match d.bookmark {
                Some(b) => Request::Post(b),
                None => Request::Malformed,
            },
            None => Request::Malformed,
        }
    } else if same_text(method, "PUT") {
        match data {
            Some(d) => match d.bookmark {
                Some(b) => Request::Put(b),
                None => Request::Refused,
            },
            None => Request::Refused,
        }
    } else if same_text(method, "DELETE") {
        match data {
            Some(d) => match d.bookmark_id {
                Some(id) => Request::Delete(id),
                None => Request::Malformed,
            },
            None => Request::Malformed,
        }
    } else {
        Request::Malformed
    }
}

/// Decides what a request needs: its one store call, or the reply it gets
/// without the store.
pub fn plan(req: Request) -> (r: Step)
    ensures
        match r {
            Step::Call(op) => planned_call(req) == Some(op),
            Step::Reply(resp) => planned_call(req) is None && direct_reply(req, resp),
        },
{
    match req {
        Request::Get => Step::Call(StoreOp::List),
        Request::Options => Step::Reply(option()),
        Request::Post(b) => Step::Call(StoreOp::Insert(b)),
        Request::Put(b) => if b.id.is_some() {
            Step::Call(StoreOp::Update(b))
        } else {
            Step::Reply(flag(false))
        },
        Request::Delete(id) => Step::Call(StoreOp::Remove(id)),
        Request::Refused => Step::Reply(flag(false)),
        Request::Malformed => Step::Reply(unknown()),
    }
}

/// The reply to what the store answered: the records or the error text for
/// a listing, the bare outcome for a mutation.
pub fn settle(outcome: Outcome) -> (r: Response)
    ensures
        outcome matches Outcome::Listed(Ok(v)) ==> r.success && r.body == Body::Bookmarks(v),
        outcome matches Outcome::Listed(Err(m)) ==> !r.success && r.body == Body::Message(m),
        outcome matches Outcome::Changed(ok) ==> is_flag(r, ok),
{
    match outcome {
        Outcome::Listed(Ok(v)) => Response { success: true, body: Body::Bookmarks(v) },
        Outcome::Listed(Err(m)) => Response { success: false, body: Body::Message(m) },
        Outcome::Changed(ok) => flag(ok),
    }
}

/// The native-messaging host: routes requests against its store.
pub struct Server {
    pub db: MemoryStore,
}

impl Server {
    pub fn new(db: MemoryStore) -> (r: Self)
        requires
            db.wf(),
        ensures
            r.db == db,
    {
        Self { db }
    }

    /// Performs one store operation and reports its outcome.
    pub fn perform(&mut self, op: StoreOp) -> (r: Outcome)
        requires
            old(self).db.wf(),
        ensures
            final(self).db.wf(),
            op is List ==> final(self).db == old(self).db && (r matches Outcome::Listed(Ok(v)) && v@
                == old(self).db.items@),
            op matches StoreOp::Insert(b) ==> (if old(self).db.next_id < u64::MAX {
                r == Outcome::Changed(true) && final(self).db.items@ == old(self).db.items@.push(
                    with_id(b, old(self).db.next_id),
                ) && final(self).db.next_id == old(self).db.next_id + 1
            } else {
                r == Outcome::Changed(false) && final(self).db == old(self).db
            }),
            op matches StoreOp::Update(b) ==> r == Outcome::Changed(
                b.id matches Some(id) && has_id(old(self).db.items@, id),
            ) && final(self).db.next_id == old(self).db.next_id && (if r == Outcome::Changed(true) {
                b.id matches Some(id) && exists|i: int|
                    first_with(old(self).db.items@, id, i) && final(self).db.items@ == old(
                        self,
                    ).db.items@.update(i, b)
            } else {
                final(self).db.items@ == old(self).db.items@
            }),
            op matches StoreOp::Remove(id) ==> r == Outcome::Changed(
                has_id(old(self).db.items@, id),
            ) && final(self).db.next_id == old(self).db.next_id && (if r == Outcome::Changed(true) {
                exists|i: int|
                    first_with(old(self).db.items@, id, i) && final(self).db.items@ == old(
                        self,
                    ).db.items@.remove(i)
            } else {
                final(self).db.items@ == old(self).db.items@
            }),
    {
        match op {
            StoreOp::List => Outcome::Listed(Ok(self.db.list())),
            StoreOp::Insert(b) => Outcome::Changed(self.db.insert(&b).is_ok()),
            StoreOp::Update(b) => Outcome::Changed(self.db.update(&b).is_ok()),
            StoreOp::Remove(id) => Outcome::Changed(self.db.delete(&id).is_ok()),
        }
    }

    /// Routes one request by its method and payload and returns its reply.
    pub fn router(&mut self, method: &str, data: Option<RequestData>) -> (r: Response)
        requires
            old(self).db.wf(),
        ensures
            final(self).db.wf(),
            routed(classify_spec(method@, data), old(self).db, final(self).db, r),
    {
        let req = classify(method, data);
        match plan(req) {
            Step::Reply(resp) => resp,
            Step::Call(op) => {
                let outcome = self.perform(op);
                settle(outcome)
            },
        }
    }

    /// One turn of the protocol loop: the reply to send for an event, or a stop.
    pub fn step(&mut self, event: Event) -> (r: Next)
        requires
            old(self).db.wf(),
        ensures
            final(self).db.wf(),
            stepped(event, old(self).db, final(self).db, r),
    {
        match event {
            Event::Frame(method, data) => Next::Send(self.router(method.as_str(), data)),
            Event::Undecodable => Next::Send(unknown()),
            Event::ReplyTooLarge => Next::Send(too_large()),
            Event::Closed => Next::Stop,
            Event::SendFailed => Next::Stop,
        }
    }
}

/// A bookmark posted to a store with ids left is listed afterwards under a
/// present id, with its url and title unchanged.
pub proof fn post_then_get(items: Seq<Bookmark>, next_id: u64, b: Bookmark)
    requires
        next_id < u64::MAX,
    ensures
        ({
            let after = items.push(with_id(b, next_id));
            exists|i: int|
                0 <= i < after.len() && after[i].id is Some && after[i].url == b.url
                    && after[i].title == b.title
        }),
{
    let after = items.push(with_id(b, next_id));
    assert(after[items.len() as int] == with_id(b, next_id));
}

/// A `POST` without a payload and one whose payload has no bookmark are
/// both unroutable.
pub proof fn post_without_bookmark_is_malformed(id: Option<BookmarkId>)
    ensures
        classify_spec("POST"@, None) is Malformed,
        classify_spec(
            "POST"@,
            Some(RequestData { bookmark: None, bookmark_id: id }),
        ) is Malformed,
{
    reveal_strlit("POST");
    reveal_strlit("GET");
    reveal_strlit("OPTIONS");
    assert("POST"@[0] != "GET"@[0]);
    assert("POST"@[0] != "OPTIONS"@[0]);
}

/// A `PUT` without a payload, or whose payload has no bookmark, is refused
/// as a rule failure and is not taken for an unroutable request.
pub proof fn put_without_bookmark_is_refused(id: Option<BookmarkId>)
    ensures
        classify_spec("PUT"@, None) is Refused,
        classify_spec("PUT"@, Some(RequestData { bookmark: None, bookmark_id: id })) is Refused,
{
    reveal_strlit("PUT");
    reveal_strlit("GET");
    reveal_strlit("OPTIONS");
    reveal_strlit("POST");
    assert("PUT"@[0] != "GET"@[0]);
    assert("PUT"@[0] != "OPTIONS"@[0]);
    assert("PUT"@[1] != "POST"@[1]);
}

/// The unroutable reply comes exactly for a method other than the five
/// routed ones, a `POST` without a bookmark, or a `DELETE` without an id.
pub proof fn malformed_exactly(method: Seq<char>, data: Option<RequestData>)
    ensures
        (classify_spec(method, data) is Malformed) <==> (!(method == "GET"@ || method == "OPTIONS"@
            || method == "POST"@ || method == "PUT"@ || method == "DELETE"@) || (method == "POST"@
            && (data is None || data.unwrap().bookmark is None)) || (method == "DELETE"@ && (
        data is None || data.unwrap().bookmark_id is None))),
{
    reveal_strlit("PUT");
    reveal_strlit("GET");
    reveal_strlit("OPTIONS");
    reveal_strlit("POST");
    reveal_strlit("DELETE");
    assert("PUT"@[0] != "GET"@[0]);
    assert("PUT"@[0] != "OPTIONS"@[0]);
    assert("PUT"@[1] != "POST"@[1]);
    assert("POST"@[0] != "GET"@[0]);
    assert("POST"@[0] != "OPTIONS"@[0]);
    assert("DELETE"@[0] != "GET"@[0]);
    assert("DELETE"@[0] != "OPTIONS"@[0]);
    assert("DELETE"@[0] != "POST"@[0]);
    assert("DELETE"@[0] != "PUT"@[0]);
}

/// A method other than the five routed ones is unroutable, whatever the payload.
pub proof fn other_method_is_malformed(method: Seq<char>, data: Option<RequestData>)
    requires
        method != "GET"@,
        method != "OPTIONS"@,
        method != "POST"@,
        method != "PUT"@,
        method != "DELETE"@,
    ensures
        classify_spec(method, data) is Malformed,
{
}

} // verus!
