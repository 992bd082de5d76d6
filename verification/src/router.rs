//! Routing: a request line maps to exactly one of a closed set of outcomes.

use vstd::prelude::*;
use vstd::string::StringSliceAdditionalSpecFns;
use crate::scan::{non_ws_from, ws_from, find_non_ws, find_ws};

verus! {

/// The mathematical model of a routing decision.
pub enum Route {
    Version,
    NotFound { path: Seq<u8> },
    BadRequest,
}

/// A routing decision for one request, paired with the path it concerns.
pub enum RouteOutcome {
    Version,
    NotFound { path: Vec<u8> },
    BadRequest,
}

impl View for RouteOutcome {
    type V = Route;

    open spec fn view(&self) -> Route {
        match self {
            RouteOutcome::Version => Route::Version,
            RouteOutcome::NotFound { path } => Route::NotFound { path: path@ },
            RouteOutcome::BadRequest => Route::BadRequest,
        }
    }
}

/// Where the method token of a request line starts.
pub open spec fn method_start(line: Seq<u8>) -> int {
    non_ws_from(line, 0)
}

/// Where the method token of a request line ends.
pub open spec fn method_end(line: Seq<u8>) -> int {
    ws_from(line, method_start(line))
}

/// The method: the first whitespace-delimited token of the request line.
pub open spec fn method_of(line: Seq<u8>) -> Seq<u8> {
    line.subrange(method_start(line), method_end(line))
}

/// Where the path token of a request line starts.
pub open spec fn path_start(line: Seq<u8>) -> int {
    non_ws_from(line, method_end(line))
}

/// Where the path token of a request line ends.
pub open spec fn path_end(line: Seq<u8>) -> int {
    ws_from(line, path_start(line))
}

/// The path: the second whitespace-delimited token, if there is one.
pub open spec fn path_of(line: Seq<u8>) -> Option<Seq<u8>> {
    if path_start(line) >= line.len() {
        None
    } else {
        Some(line.subrange(path_start(line), path_end(line)))
    }
}

/// The routing policy, a total function on request lines: a GET for exactly
/// `/version` is the version route; any other GET is not found, reporting the
/// requested path or `/unknown` when the line carries no path token; every
/// other line, the empty one included, is a bad request.
pub open spec fn route_of(line: Seq<u8>) -> Route {
    if method_of(line) == "GET".spec_bytes() {
        match path_of(line) {
            Some(p) => if p == "/version".spec_bytes() {
                Route::Version
            } else {
                Route::NotFound { path: p }
            },
            None => Route::NotFound { path: "/unknown".spec_bytes() },
        }
    } else {
        Route::BadRequest
    }
}

fn bytes_eq(a: &[u8], b: &[u8]) -> (r: bool)
    ensures
        r == (a@ == b@),
{
    let n = a.len();
    if n != b.len() {
        return false;
    }
    let mut i: usize = 0;
    while i < n
        invariant
            i <= n,
            n == a@.len(),
            n == b@.len(),
            forall|j: int| 0 <= j < i ==> a@[j] == b@[j],
        decreases n - i,
    {
        if a[i] != b[i] {
            return false;
        }
        i = i + 1;
    }
    proof {
        assert(a@ =~= b@);
    }
    true
}

/// Maps a request line to its routing decision.
pub fn route(line: &[u8]) -> (r: RouteOutcome)
    ensures
        r@ == route_of(line@),
{
    let s1 = find_non_ws(line, 0);
    let e1 = find_ws(line, s1);
    let method = vstd::slice::slice_subrange(line, s1, e1);
    if !bytes_eq(method, "GET".as_bytes()) {
        return RouteOutcome::BadRequest;
    }
    let s2 = find_non_ws(line, e1);
    if s2 >= line.len() {
        return RouteOutcome::NotFound {
            path: vstd::slice::slice_to_vec("/unknown".as_bytes()),
        };
    }
    let e2 = find_ws(line, s2);
    let path = vstd::slice::slice_subrange(line, s2, e2);
    if bytes_eq(path, "/version".as_bytes()) {
        RouteOutcome::Version
    } else {
        RouteOutcome::NotFound { path: vstd::slice::slice_to_vec(path) }
    }
}

} // verus!
