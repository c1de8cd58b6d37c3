//! Routing: maps a request's method and path to the response the service
//! returns, and proves that the mapping is a pure function of those two
//! inputs alone.

use vstd::prelude::*;
use vstd::string::StrSliceExecFns;
use crate::http::{
    health, health_body, json_content_type, method_not_allowed, not_found, root, root_body,
    Method, Response,
};

verus! {

/// The path of the greeting route.
pub open spec fn root_path() -> Seq<char> {
    "/"@
}

/// The path of the health-check route.
pub open spec fn health_path() -> Seq<char> {
    "/health"@
}

/// The status code the service returns for a request: `200` for `GET` on a
/// known path, `405` for any other method on a known path, `404` elsewhere.
pub open spec fn spec_status(m: Method, path: Seq<char>) -> u16 {
    if path == root_path() || path == health_path() {
        if m == Method::Get {
            200u16
        } else {
            405u16
        }
    } else {
        404u16
    }
}

/// The body the service returns for a request: the constant JSON payloads on
/// the two routes, and an empty body on every rejection.
pub open spec fn spec_body(m: Method, path: Seq<char>) -> Seq<char> {
    if m == Method::Get && path == root_path() {
        root_body()
    } else if m == Method::Get && path == health_path() {
        health_body()
    } else {
        Seq::<char>::empty()
    }
}

/// The `Content-Type` the service returns: `application/json` with each
/// successful body, nothing otherwise.
pub open spec fn spec_content_type(m: Method, path: Seq<char>) -> Seq<char> {
    if spec_status(m, path) == 200 {
        json_content_type()
    } else {
        Seq::<char>::empty()
    }
}

/// Character-for-character string equality, decided without any assumption
/// about the strings' contents.
pub fn str_eq(a: &str, b: &str) -> (r: bool)
    ensures
        r == (a@ == b@),
{
    let a_len: usize = a.unicode_len();
    let b_len: usize = b.unicode_len();
    if a_len != b_len {
        return false;
    }
    let mut i: usize = 0;
    while i < a_len
        invariant
            i <= a_len,
            a_len == a@.len(),
            a_len == b@.len(),
            forall|j: int| 0 <= j < i ==> a@[j] == b@[j],
        decreases a_len - i,
    {
        if a.get_char(i) != b.get_char(i) {
            return false;
        }
        i += 1;
    }
    proof {
        assert(a@ =~= b@);
    }
    true
}

/// The whole observable behaviour of the service: every request is answered
/// by the response this function computes from the method and path.
pub fn dispatch(m: Method, path: &str) -> (r: Response)
    ensures
        r.status == spec_status(m, path@),
        r.body@ == spec_body(m, path@),
        r.content_type@ == spec_content_type(m, path@),
{
    if str_eq(path, "/") {
        if m == Method::Get {
            root()
        } else {
            method_not_allowed()
        }
    } else if str_eq(path, "/health") {
        if m == Method::Get {
            health()
        } else {
            method_not_allowed()
        }
    } else {
        not_found()
    }
}

/// The service is stateless and deterministic: any two responses that meet
/// `dispatch`'s contract for the same method and path are byte-identical, so
/// repeated calls to a route, in any order and at any time after startup,
/// return the same status, headers and body.
pub proof fn lemma_dispatch_deterministic(m: Method, path: Seq<char>, r1: Response, r2: Response)
    requires
        r1.status == spec_status(m, path),
        r1.body@ == spec_body(m, path),
        r1.content_type@ == spec_content_type(m, path),
        r2.status == spec_status(m, path),
        r2.body@ == spec_body(m, path),
        r2.content_type@ == spec_content_type(m, path),
    ensures
        r1.status == r2.status,
        r1.body@ == r2.body@,
        r1.content_type@ == r2.content_type@,
{
}

/// Every request to a path other than the two routes is answered `404`, and
/// every request to a route with a method other than `GET` is answered `405`;
/// both rejections carry an empty body.
pub proof fn lemma_rejections(m: Method, path: Seq<char>)
    ensures
        path != root_path() && path != health_path() ==> spec_status(m, path) == 404,
        (path == root_path() || path == health_path()) && m != Method::Get ==> spec_status(
            m,
            path,
        ) == 405,
        spec_status(m, path) != 200 ==> spec_body(m, path) == Seq::<char>::empty(),
{
}

} // verus!
