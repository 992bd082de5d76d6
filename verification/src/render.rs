//! Response rendering: the fixed status lines, content negotiation, and the
//! templated JSON and HTML bodies.

use vstd::prelude::*;
use vstd::string::StringSliceAdditionalSpecFns;
use crate::router::{Route, RouteOutcome};
use crate::scan::contains_seq;
use crate::wire::{RenderedResponse, dec_of, push_all, u64_to_dec};

verus! {

/// The plain values the version route reports. The surrounding binary fills
/// them in from its build and host environment; rendering is a pure function
/// of them.
pub struct VersionInfo {
    pub version: Vec<u8>,
    pub built_at_secs: u64,
    pub rust_version: Vec<u8>,
    pub os: Vec<u8>,
    pub arch: Vec<u8>,
}

/// The header substring whose presence anywhere in the raw request selects
/// the JSON form of the version page.
pub open spec fn accept_json_header() -> Seq<u8> {
    "Accept: application/json".spec_bytes()
}

/// The raw request asks for JSON.
pub open spec fn wants_json(raw: Seq<u8>) -> bool {
    contains_seq(raw, accept_json_header())
}

/// The status line a routing decision is answered with.
pub open spec fn status_of(r: Route) -> Seq<u8> {
    match r {
        Route::Version => "HTTP/1.1 200 OK".spec_bytes(),
        Route::NotFound { .. } => "HTTP/1.1 404 NOT FOUND".spec_bytes(),
        Route::BadRequest => "HTTP/1.1 400 BAD REQUEST".spec_bytes(),
    }
}

/// The short status text a routing decision is reported with.
pub open spec fn status_text_of(r: Route) -> Seq<u8> {
    match r {
        Route::Version => "200 OK".spec_bytes(),
        Route::NotFound { .. } => "404 Not Found".spec_bytes(),
        Route::BadRequest => "400 Bad Request".spec_bytes(),
    }
}

/// The content type: JSON only for a version request that asked for it.
pub open spec fn content_type_of(r: Route, json: bool) -> Seq<u8> {
    if r is Version && json {
        "application/json".spec_bytes()
    } else {
        "text/html".spec_bytes()
    }
}

/// The opening of the JSON body, up to and including the quote that starts
/// the version value.
pub open spec fn json_version_prefix() -> Seq<u8> {
    "{\"version\": \"".spec_bytes()
}

/// The JSON body of the version page.
pub open spec fn json_body_of(info: VersionInfo) -> Seq<u8> {
    json_version_prefix() + info.version@
        + "\", \"commit\": \"unknown\", \"branch\": \"main\", \"built_at\": \"".spec_bytes()
        + dec_of(info.built_at_secs as nat) + "\", \"rust_version\": \"".spec_bytes()
        + info.rust_version@ + "\", \"platform\": \"".spec_bytes() + info.os@
        + "\", \"arch\": \"".spec_bytes() + info.arch@ + "\"}".spec_bytes()
}

/// The HTML body of the version page: the same values as the JSON form, with
/// the JSON form itself quoted at the end.
pub open spec fn version_html_body_of(info: VersionInfo) -> Seq<u8> {
    "<!DOCTYPE html>\n<html>\n<head><title>Version Information</title></head>\n<body>\n<h1>Server Version Information</h1>\n<p>Version: ".spec_bytes()
        + info.version@ + "</p>\n<p>Platform: ".spec_bytes() + info.os@
        + "</p>\n<p>Architecture: ".spec_bytes() + info.arch@
        + "</p>\n<p>Build Time: ".spec_bytes() + dec_of(info.built_at_secs as nat)
        + "</p>\n<h2>Raw JSON Response</h2>\n<pre>".spec_bytes() + json_body_of(info)
        + "</pre>\n</body>\n</html>".spec_bytes()
}

/// The HTML body of the not-found page, echoing the requested path.
pub open spec fn not_found_body_of(path: Seq<u8>) -> Seq<u8> {
    "<!DOCTYPE html>\n<html>\n<head><title>404 - Not Found</title></head>\n<body>\n<h1>Error: Path Not Found</h1>\n<p>The requested path does not exist:</p>\n<div>".spec_bytes()
        + path + "</div>\n</body>\n</html>".spec_bytes()
}

/// The fixed HTML body of the bad-request page.
pub open spec fn bad_request_body() -> Seq<u8> {
    "<!DOCTYPE html>\n<html>\n<head><title>400 - Bad Request</title></head>\n<body>\n<h1>400 - Bad Request</h1>\n<p>The request was malformed or invalid.</p>\n</body>\n</html>".spec_bytes()
}

/// The body a routing decision is answered with.
pub open spec fn body_of(r: Route, json: bool, info: VersionInfo) -> Seq<u8> {
    match r {
        Route::Version => if json {
            json_body_of(info)
        } else {
            version_html_body_of(info)
        },
        Route::NotFound { path } => not_found_body_of(path),
        Route::BadRequest => bad_request_body(),
    }
}

/// Builds the JSON body of the version page.
pub fn json_body(info: &VersionInfo) -> (b: Vec<u8>)
    ensures
        b@ == json_body_of(*info),
{
    let mut b: Vec<u8> = Vec::new();
    push_all(&mut b, "{\"version\": \"".as_bytes());
    push_all(&mut b, info.version.as_slice());
    push_all(
        &mut b,
        "\", \"commit\": \"unknown\", \"branch\": \"main\", \"built_at\": \"".as_bytes(),
    );
    let secs = u64_to_dec(info.built_at_secs);
    push_all(&mut b, secs.as_slice());
    push_all(&mut b, "\", \"rust_version\": \"".as_bytes());
    push_all(&mut b, info.rust_version.as_slice());
    push_all(&mut b, "\", \"platform\": \"".as_bytes());
    push_all(&mut b, info.os.as_slice());
    push_all(&mut b, "\", \"arch\": \"".as_bytes());
    push_all(&mut b, info.arch.as_slice());
    push_all(&mut b, "\"}".as_bytes());
    proof {
        assert(b@ =~= json_body_of(*info));
    }
    b
}

/// Builds the HTML body of the version page.
pub fn version_html_body(info: &VersionInfo) -> (b: Vec<u8>)
    ensures
        b@ == version_html_body_of(*info),
{
    let mut b: Vec<u8> = Vec::new();
    push_all(
        &mut b,
        "<!DOCTYPE html>\n<html>\n<head><title>Version Information</title></head>\n<body>\n<h1>Server Version Information</h1>\n<p>Version: ".as_bytes(),
    );
    push_all(&mut b, info.version.as_slice());
    push_all(&mut b, "</p>\n<p>Platform: ".as_bytes());
    push_all(&mut b, info.os.as_slice());
    push_all(&mut b, "</p>\n<p>Architecture: ".as_bytes());
    push_all(&mut b, info.arch.as_slice());
    push_all(&mut b, "</p>\n<p>Build Time: ".as_bytes());
    let secs = u64_to_dec(info.built_at_secs);
    push_all(&mut b, secs.as_slice());
    push_all(&mut b, "</p>\n<h2>Raw JSON Response</h2>\n<pre>".as_bytes());
    let json = json_body(info);
    push_all(&mut b, json.as_slice());
    push_all(&mut b, "</pre>\n</body>\n</html>".as_bytes());
    proof {
        assert(b@ =~= version_html_body_of(*info));
    }
    b
}

/// Builds the HTML body of the not-found page.
pub fn not_found_body(path: &[u8]) -> (b: Vec<u8>)
    ensures
        b@ == not_found_body_of(path@),
{
    let mut b: Vec<u8> = Vec::new();
    push_all(
        &mut b,
        "<!DOCTYPE html>\n<html>\n<head><title>404 - Not Found</title></head>\n<body>\n<h1>Error: Path Not Found</h1>\n<p>The requested path does not exist:</p>\n<div>".as_bytes(),
    );
    push_all(&mut b, path);
    push_all(&mut b, "</div>\n</body>\n</html>".as_bytes());
    proof {
        assert(b@ =~= not_found_body_of(path@));
    }
    b
}

/// Renders a routing decision into a status line, content type and body.
pub fn render(route: &RouteOutcome, json: bool, info: &VersionInfo) -> (r: RenderedResponse)
    ensures
        r.status_line@ == status_of(route@),
        r.content_type@ == content_type_of(route@, json),
        r.body@ == body_of(route@, json, *info),
{
    match route {
        RouteOutcome::Version => {
            let body = if json {
                json_body(info)
            } else {
                version_html_body(info)
            };
            let content_type = if json {
                "application/json"
            } else {
                "text/html"
            };
            RenderedResponse {
                status_line: vstd::slice::slice_to_vec("HTTP/1.1 200 OK".as_bytes()),
                content_type: vstd::slice::slice_to_vec(content_type.as_bytes()),
                body,
            }
        },
        RouteOutcome::NotFound { path } => RenderedResponse {
            status_line: vstd::slice::slice_to_vec("HTTP/1.1 404 NOT FOUND".as_bytes()),
            content_type: vstd::slice::slice_to_vec("text/html".as_bytes()),
            body: not_found_body(path.as_slice()),
        },
        RouteOutcome::BadRequest => {
            let mut body: Vec<u8> = Vec::new();
            push_all(
                &mut body,
                "<!DOCTYPE html>\n<html>\n<head><title>400 - Bad Request</title></head>\n<body>\n<h1>400 - Bad Request</h1>\n<p>The request was malformed or invalid.</p>\n</body>\n</html>".as_bytes(),
            );
            proof {
                assert(body@ =~= bad_request_body());
            }
            RenderedResponse {
                status_line: vstd::slice::slice_to_vec("HTTP/1.1 400 BAD REQUEST".as_bytes()),
                content_type: vstd::slice::slice_to_vec("text/html".as_bytes()),
                body,
            }
        },
    }
}

} // verus!
