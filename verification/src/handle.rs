//! The per-connection pipeline on its pure side: raw request bytes in, wire
//! response and reported outcome out. The surrounding binary does the reads
//! and writes; everything here is a function of one connection's own bytes,
//! so no two connections can affect each other's response.

use vstd::prelude::*;
use vstd::string::StringSliceAdditionalSpecFns;
use vstd::string::StrSliceExecFns;
use crate::router::{Route, RouteOutcome, route, route_of};
use crate::render::{
    VersionInfo, body_of, content_type_of, render, status_of, status_text_of, wants_json,
};
use crate::scan::{contains_subslice, first_line, first_line_of};
use crate::wire::{frame_response, framed};

verus! {

/// What one handled request reports back beside the wire bytes, for
/// observability only.
pub struct Reply {
    /// The full wire response: header block, then body.
    pub wire: Vec<u8>,
    /// How many bytes the request was.
    pub bytes_read: usize,
    /// The short status text, such as `200 OK`.
    pub status_text: Vec<u8>,
    /// The path the outcome concerns: the requested path, `/version`, or
    /// `/unknown` when no path was given.
    pub path: Vec<u8>,
}

/// The wire response owed to a non-empty raw request.
pub open spec fn response_of(raw: Seq<u8>, info: VersionInfo) -> Seq<u8> {
    let r = route_of(first_line_of(raw));
    framed(status_of(r), content_type_of(r, wants_json(raw)), body_of(r, wants_json(raw), info))
}

/// The status text reported for a non-empty raw request.
pub open spec fn report_status_of(raw: Seq<u8>) -> Seq<u8> {
    status_text_of(route_of(first_line_of(raw)))
}

/// The path reported for a non-empty raw request.
pub open spec fn report_path_of(raw: Seq<u8>) -> Seq<u8> {
    match route_of(first_line_of(raw)) {
        Route::Version => "/version".spec_bytes(),
        Route::NotFound { path } => path,
        Route::BadRequest => "/unknown".spec_bytes(),
    }
}

/// Serves one connection's single request: splits off the first line, routes
/// it, renders the outcome, and frames the response. A zero-byte read gets no
/// response at all; every other input gets exactly the framed response its
/// first line is owed.
pub fn handle_request(raw: &[u8], info: &VersionInfo) -> (r: Option<Reply>)
    ensures
        (r is None) <==> raw@.len() == 0,
        r matches Some(reply) ==> {
            &&& reply.wire@ == response_of(raw@, *info)
            &&& reply.bytes_read == raw@.len()
            &&& reply.status_text@ == report_status_of(raw@)
            &&& reply.path@ == report_path_of(raw@)
        },
{
    if raw.is_empty() {
        return None;
    }
    let line = first_line(raw);
    let outcome = route(line.as_slice());
    let json = contains_subslice(raw, "Accept: application/json".as_bytes());
    let rendered = render(&outcome, json, info);
    let wire = frame_response(&rendered);
    let (status_text, path): (Vec<u8>, Vec<u8>) = match outcome {
        RouteOutcome::Version => (
            "200 OK".as_bytes_vec(),
            "/version".as_bytes_vec(),
        ),
        RouteOutcome::NotFound { path } => ("404 Not Found".as_bytes_vec(), path),
        RouteOutcome::BadRequest => (
            "400 Bad Request".as_bytes_vec(),
            "/unknown".as_bytes_vec(),
        ),
    };
    Some(Reply { wire, bytes_read: raw.len(), status_text, path })
}

} // verus!
