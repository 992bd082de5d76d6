//! The laws the pipeline obeys, stated over the same spec functions its
//! contracts use.

use vstd::prelude::*;
use vstd::string::StringSliceAdditionalSpecFns;
use crate::router::{Route, method_of, route_of};
use crate::render::{
    VersionInfo, bad_request_body, body_of, content_type_of, json_body_of, json_version_prefix,
    not_found_body_of, status_of, version_html_body_of, wants_json,
};
use crate::scan::{contains_seq, first_line_of, matches_at};
use crate::wire::{dec_of, dec_val, framed, lemma_dec_round_trip, response_header};
use crate::handle::response_of;

verus! {

/// A sequence contains any block it is assembled around.
proof fn lemma_contains_middle(a: Seq<u8>, b: Seq<u8>, c: Seq<u8>)
    ensures
        contains_seq(a + b + c, b),
{
    let hay = a + b + c;
    assert(hay.subrange(a.len() as int, a.len() + b.len() as int) =~= b);
    assert(matches_at(hay, a.len() as int, b));
}

/// A sequence starts with the first block it is assembled from.
proof fn lemma_prefix(a: Seq<u8>, b: Seq<u8>)
    ensures
        (a + b).subrange(0, a.len() as int) == a,
{
    assert((a + b).subrange(0, a.len() as int) =~= a);
}

/// A version request that asks for JSON is answered `200 OK` with content
/// type `application/json`, and its body is the JSON version report, which
/// opens with the `version` field.
pub proof fn lemma_version_json_response(raw: Seq<u8>, info: VersionInfo)
    requires
        route_of(first_line_of(raw)) is Version,
        wants_json(raw),
    ensures
        response_of(raw, info) == framed(
            "HTTP/1.1 200 OK".spec_bytes(),
            "application/json".spec_bytes(),
            json_body_of(info),
        ),
        json_body_of(info).subrange(0, json_version_prefix().len() as int)
            == json_version_prefix(),
        contains_seq(json_body_of(info), info.version@),
{
    let tail = "\", \"commit\": \"unknown\", \"branch\": \"main\", \"built_at\": \"".spec_bytes()
        + dec_of(info.built_at_secs as nat) + "\", \"rust_version\": \"".spec_bytes()
        + info.rust_version@ + "\", \"platform\": \"".spec_bytes() + info.os@
        + "\", \"arch\": \"".spec_bytes() + info.arch@ + "\"}".spec_bytes();
    assert(json_body_of(info) =~= json_version_prefix() + info.version@ + tail);
    lemma_contains_middle(json_version_prefix(), info.version@, tail);
    lemma_prefix(json_version_prefix(), info.version@ + tail);
    assert((json_version_prefix() + (info.version@ + tail)).subrange(
        0,
        json_version_prefix().len() as int,
    ) == json_version_prefix());
}

/// A version request without the JSON `Accept` header is answered `200 OK`
/// with content type `text/html`, and the HTML body embeds the same version
/// string the JSON form reports, and the whole JSON form itself.
pub proof fn lemma_version_html_response(raw: Seq<u8>, info: VersionInfo)
    requires
        route_of(first_line_of(raw)) is Version,
        !wants_json(raw),
    ensures
        response_of(raw, info) == framed(
            "HTTP/1.1 200 OK".spec_bytes(),
            "text/html".spec_bytes(),
            version_html_body_of(info),
        ),
        contains_seq(version_html_body_of(info), info.version@),
        contains_seq(version_html_body_of(info), json_body_of(info)),
{
    let h1 =
        "<!DOCTYPE html>\n<html>\n<head><title>Version Information</title></head>\n<body>\n<h1>Server Version Information</h1>\n<p>Version: ".spec_bytes();
    let mid = "</p>\n<p>Platform: ".spec_bytes() + info.os@
        + "</p>\n<p>Architecture: ".spec_bytes() + info.arch@
        + "</p>\n<p>Build Time: ".spec_bytes() + dec_of(info.built_at_secs as nat)
        + "</p>\n<h2>Raw JSON Response</h2>\n<pre>".spec_bytes();
    let h6 = "</pre>\n</body>\n</html>".spec_bytes();
    assert(version_html_body_of(info) =~= h1 + info.version@ + (mid + json_body_of(info)
        + h6));
    lemma_contains_middle(h1, info.version@, mid + json_body_of(info) + h6);
    assert(version_html_body_of(info) =~= (h1 + info.version@ + mid) + json_body_of(info)
        + h6);
    lemma_contains_middle(h1 + info.version@ + mid, json_body_of(info), h6);
}

/// A GET for any path other than `/version` is answered `404 Not Found`,
/// and the body echoes the requested path.
pub proof fn lemma_not_found_response(raw: Seq<u8>, info: VersionInfo, path: Seq<u8>)
    requires
        route_of(first_line_of(raw)) == (Route::NotFound { path }),
    ensures
        response_of(raw, info) == framed(
            "HTTP/1.1 404 NOT FOUND".spec_bytes(),
            "text/html".spec_bytes(),
            not_found_body_of(path),
        ),
        contains_seq(not_found_body_of(path), path),
{
    let n1 =
        "<!DOCTYPE html>\n<html>\n<head><title>404 - Not Found</title></head>\n<body>\n<h1>Error: Path Not Found</h1>\n<p>The requested path does not exist:</p>\n<div>".spec_bytes();
    let n2 = "</div>\n</body>\n</html>".spec_bytes();
    assert(not_found_body_of(path) =~= n1 + path + n2);
    lemma_contains_middle(n1, path, n2);
}

/// Any first line whose method token is not `GET` — the empty and the
/// garbled line included — is answered `400 Bad Request`.
pub proof fn lemma_bad_request_response(raw: Seq<u8>, info: VersionInfo)
    requires
        method_of(first_line_of(raw)) != "GET".spec_bytes(),
    ensures
        route_of(first_line_of(raw)) is BadRequest,
        response_of(raw, info) == framed(
            "HTTP/1.1 400 BAD REQUEST".spec_bytes(),
            "text/html".spec_bytes(),
            bad_request_body(),
        ),
{
}

/// Every request line routes to exactly one of the three outcomes.
pub proof fn lemma_route_total(line: Seq<u8>)
    ensures
        route_of(line) is Version || route_of(line) is NotFound || route_of(
            line,
        ) is BadRequest,
{
}

/// Every framed response starts with its status line.
pub proof fn lemma_response_starts_with_status(
    status: Seq<u8>,
    content_type: Seq<u8>,
    body: Seq<u8>,
)
    ensures
        framed(status, content_type, body).subrange(0, status.len() as int) == status,
{
    assert(framed(status, content_type, body).subrange(0, status.len() as int) =~= status);
}

/// Responses cannot cross-talk: what a connection is answered is a function
/// of its own request bytes and the version report alone, so however many
/// connections are in flight and however their handlers interleave, each is
/// answered exactly as if it were served alone.
pub proof fn lemma_responses_independent(raw1: Seq<u8>, raw2: Seq<u8>, info: VersionInfo)
    requires
        raw1 == raw2,
    ensures
        response_of(raw1, info) == response_of(raw2, info),
{
}

/// `Content-Length` is exact in every response: the framed bytes are the
/// header block followed by the body, the digits in the header denote
/// precisely the body's byte length, and slicing that many bytes off the end
/// returns the body unchanged.
pub proof fn lemma_content_length_round_trip(status: Seq<u8>, content_type: Seq<u8>, body: Seq<u8>)
    ensures
        framed(status, content_type, body) == response_header(status, content_type, body.len())
            + body,
        dec_val(dec_of(body.len())) == body.len(),
        framed(status, content_type, body).subrange(
            response_header(status, content_type, body.len()).len() as int,
            framed(status, content_type, body).len() as int,
        ) == body,
{
    lemma_dec_round_trip(body.len());
    let header = response_header(status, content_type, body.len());
    assert((header + body).subrange(header.len() as int, (header + body).len() as int) =~= body);
}

} // verus!
