//! The routing table of the HTTP server.
use crate::text::same_text;
use vstd::prelude::*;

verus! {

/// The handlers that requests are dispatched to.
#[derive(Clone, Copy, Debug, PartialEq, Eq, Structural)]
pub enum Route {
    HealthCheck,
    Subscribe,
}

/// The route of a method and path: `GET /health_check` and
/// `POST /subscriptions`; any other pair has none, and is answered `404`.
pub open spec fn route_of(method: Seq<char>, path: Seq<char>) -> Option<Route> {
    if method == "GET"@ && path == "/health_check"@ {
        Some(Route::HealthCheck)
    } else if method == "POST"@ && path == "/subscriptions"@ {
        Some(Route::Subscribe)
    } else {
        None
    }
}

/// Finds the handler of a request.
pub fn route(method: &str, path: &str) -> (r: Option<Route>)
    ensures
        r == route_of(method@, path@),
{
    if same_text(method, "GET") && same_text(path, "/health_check") {
        Some(Route::HealthCheck)
    } else if same_text(method, "POST") && same_text(path, "/subscriptions") {
        Some(Route::Subscribe)
    } else {
        None
    }
}

/// The HTTP code for a request that no route takes.
pub const NOT_FOUND: u16 = 404;

} // verus!
