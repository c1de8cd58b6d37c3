//! The HTTP vocabulary of the service: request methods, responses, and the
//! two constant JSON payloads it serves.

use vstd::prelude::*;

verus! {

/// An HTTP request method.
#[derive(Clone, Copy, Debug, PartialEq, Eq, Structural)]
pub enum Method {
    Get,
    Head,
    Post,
    Put,
    Delete,
    Connect,
    Options,
    Trace,
    Patch,
}

/// A complete response: status code, `Content-Type` header value (empty when
/// no such header is sent), and body. Every response of this service is a
/// compile-time constant, so borrowed static text suffices.
#[derive(Clone, Copy, Debug)]
pub struct Response {
    pub status: u16,
    pub content_type: &'static str,
    pub body: &'static str,
}

/// The body served for `GET /`.
pub open spec fn root_body() -> Seq<char> {
    "{\"message\": \"Hello from generated_app\"}"@
}

/// The body served for `GET /health`.
pub open spec fn health_body() -> Seq<char> {
    "{\"status\": \"healthy\"}"@
}

/// The `Content-Type` of both JSON responses.
pub open spec fn json_content_type() -> Seq<char> {
    "application/json"@
}

/// The greeting handler: a constant `200` JSON response.
pub fn root() -> (r: Response)
    ensures
        r.status == 200,
        r.body@ == root_body(),
        r.content_type@ == json_content_type(),
{
    Response {
        status: 200,
        content_type: "application/json",
        body: "{\"message\": \"Hello from generated_app\"}",
    }
}

/// The health-check handler: a constant `200` JSON response.
pub fn health() -> (r: Response)
    ensures
        r.status == 200,
        r.body@ == health_body(),
        r.content_type@ == json_content_type(),
{
    Response {
        status: 200,
        content_type: "application/json",
        body: "{\"status\": \"healthy\"}",
    }
}

/// The default response for a path that no route matches: an empty `404`.
pub fn not_found() -> (r: Response)
    ensures
        r.status == 404,
        r.body@ == Seq::<char>::empty(),
        r.content_type@ == Seq::<char>::empty(),
{
    proof {
        reveal_strlit("");
        assert(""@ =~= Seq::<char>::empty());
    }
    Response { status: 404, content_type: "", body: "" }
}

/// The default response for a known path asked with a method other than
/// `GET`: an empty `405`.
pub fn method_not_allowed() -> (r: Response)
    ensures
        r.status == 405,
        r.body@ == Seq::<char>::empty(),
        r.content_type@ == Seq::<char>::empty(),
{
    proof {
        reveal_strlit("");
        assert(""@ =~= Seq::<char>::empty());
    }
    Response { status: 405, content_type: "", body: "" }
}

} // verus!
