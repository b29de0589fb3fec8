use vstd::prelude::*;
use crate::bookmark::Bookmark;

verus! {

/// Version string reported to the extension.
pub const BINARY_VERSION: &'static str = "0.1.0";

/// Text of the reply to a request that cannot be routed.
pub const UNKNOWN_MESSAGE: &'static str = "Unrecognised request type or bad request payload.";

/// Text of the reply sent in place of one that exceeds the transport's size limit.
pub const TOO_LARGE_MESSAGE: &'static str = "Reply exceeds the size limit of the transport.";

/// What a reply carries beside its `success` flag.
pub enum Body {
    Empty,
    Bookmarks(Vec<Bookmark>),
    Message(String),
    Version(String),
}

/// One reply to one request.
pub struct Response {
    pub success: bool,
    pub body: Body,
}

pub open spec fn is_unknown(r: Response) -> bool {
    &&& !r.success
    &&& r.body matches Body::Message(m) && m@ == UNKNOWN_MESSAGE@
}

pub open spec fn is_version(r: Response) -> bool {
    &&& r.success
    &&& r.body matches Body::Version(v) && v@ == BINARY_VERSION@
}

pub open spec fn is_too_large(r: Response) -> bool {
    &&& !r.success
    &&& r.body matches Body::Message(m) && m@ == TOO_LARGE_MESSAGE@
}

pub open spec fn is_flag(r: Response, ok: bool) -> bool {
    r.success == ok && r.body is Empty
}

/// Reply to a request that cannot be routed.
pub fn unknown() -> (r: Response)
    ensures
        is_unknown(r),
{
    Response { success: false, body: Body::Message(UNKNOWN_MESSAGE.to_owned()) }
}

/// Reply to `OPTIONS`: the version of this host.
pub fn option() -> (r: Response)
    ensures
        is_version(r),
{
    Response { success: true, body: Body::Version(BINARY_VERSION.to_owned()) }
}

/// Reply sent in place of one that the transport could not carry.
pub fn too_large() -> (r: Response)
    ensures
        is_too_large(r),
{
    Response { success: false, body: Body::Message(TOO_LARGE_MESSAGE.to_owned()) }
}

/// Reply that carries only the outcome of a store mutation.
pub fn flag(ok: bool) -> (r: Response)
    ensures
        is_flag(r, ok),
{
    Response { success: ok, body: Body::Empty }
}

} // verus!
