//! The route table: which response each (method, path) pair gets, and the
//! handler that serves it, advancing the shared counter on the counter route.

use vstd::prelude::*;
use crate::counter::Counter;
use crate::decimal::{dec_rep, u32_to_dec};

verus! {

/// The request methods the route table distinguishes. Every other method
/// falls to the framework's default handling, outside this library.
#[derive(PartialEq, Eq, Structural, Clone, Copy, Debug)]
pub enum Method {
    Get,
    Head,
}

/// A response as the handlers produce it: a status code and a body.
pub struct Response {
    pub status: u16,
    pub body: String,
}

/// The body of the counter route's response for counter value `n`.
pub open spec fn counter_body(n: nat) -> Seq<char> {
    "Request number: "@ + dec_rep(n)
}

/// The three registered paths are pairwise distinct.
proof fn lemma_paths_distinct()
    ensures
        "/"@ != "/app"@,
        "/"@ != "/api/test"@,
        "/app"@ != "/api/test"@,
{
    reveal_strlit("/");
    reveal_strlit("/app");
    reveal_strlit("/api/test");
    assert("/"@.len() == 1);
    assert("/app"@.len() == 4);
    assert("/api/test"@.len() == 9);
}

/// String equality on character sequences.
fn str_eq(a: &str, b: &str) -> (r: bool)
    ensures
        r == (a@ == b@),
{
    let sa = a.to_owned();
    let sb = b.to_owned();
    sa == sb
}

/// The counter route's response text for the new counter value `n`.
pub fn counter_message(n: i32) -> (r: String)
    requires
        0 <= n,
    ensures
        r@ == counter_body(n as nat),
{
    let mut s = String::from_str("Request number: ");
    let digits = u32_to_dec(n as u32);
    s.append(digits.as_str());
    s
}

/// The response when the counter's lock is found poisoned: a prior holder
/// failed inside the critical section, so the current request is aborted
/// with an internal error, and only the current request; the process keeps
/// serving, and the counter is not touched.
pub fn lock_poisoned_response() -> (r: Response)
    ensures
        r.status == 500,
        r.body@ == Seq::<char>::empty(),
{
    Response { status: 500, body: String::new() }
}

/// Serve one request against the route table.
///
/// GET `/` is the counter route: it advances the counter by 1 and reports
/// the new value. GET `/app` and GET `/api/test` return their fixed bodies.
/// HEAD on any registered path is not allowed (405); an unregistered path
/// is not found (404). Only the counter route touches the counter.
pub fn handle_request(method: Method, path: &str, counter: &mut Counter) -> (r: Response)
    requires
        old(counter).wf(),
        old(counter).value < i32::MAX,
    ensures
        final(counter).wf(),
        method == Method::Get && path@ == "/"@ ==> {
            &&& final(counter).value == old(counter).value + 1
            &&& r.status == 200
            &&& r.body@ == counter_body(final(counter).value as nat)
        },
        !(method == Method::Get && path@ == "/"@) ==> *final(counter) == *old(counter),
        method == Method::Get && path@ == "/app"@ ==> r.status == 200 && r.body@ == "app"@,
        method == Method::Get && path@ == "/api/test"@ ==> r.status == 200 && r.body@
            == "test"@,
        method == Method::Head && (path@ == "/"@ || path@ == "/app"@ || path@ == "/api/test"@)
            ==> r.status == 405 && r.body@ == Seq::<char>::empty(),
        !(path@ == "/"@ || path@ == "/app"@ || path@ == "/api/test"@) ==> r.status == 404
            && r.body@ == Seq::<char>::empty(),
{
    proof {
        lemma_paths_distinct();
    }
    let registered = str_eq(path, "/") || str_eq(path, "/app") || str_eq(path, "/api/test");
    if !registered {
        return Response { status: 404, body: String::new() };
    }
    match method {
        Method::Get => {
            if str_eq(path, "/") {
                let n = counter.increment();
                Response { status: 200, body: counter_message(n) }
            } else if str_eq(path, "/app") {
                Response { status: 200, body: String::from_str("app") }
            } else {
                Response { status: 200, body: String::from_str("test") }
            }
        },
        Method::Head => Response { status: 405, body: String::new() },
    }
}

} // verus!
