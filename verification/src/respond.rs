//! Response production: every answer the service gives is a complete HTTP
//! response — status line, explicit `Content-Length`, headers, body — built
//! here as plain bytes.

use vstd::prelude::*;
use crate::bytes::{dec_of, push_all, tail_from, u64_to_dec};
use crate::text::{
    allow_name, allow_name_bytes, content_length_name, content_length_name_bytes, http_version,
    http_version_bytes, location_name, location_name_bytes, method_not_allowed_body,
    method_not_allowed_body_bytes, not_found_body, not_found_body_bytes, payload_too_large_body,
    payload_too_large_body_bytes, reason_internal_error, reason_internal_error_bytes,
    reason_method_not_allowed, reason_method_not_allowed_bytes, reason_not_found,
    reason_not_found_bytes, reason_ok, reason_ok_bytes, reason_payload_too_large,
    reason_payload_too_large_bytes, reason_request_timeout, reason_request_timeout_bytes,
    request_timeout_body, request_timeout_body_bytes, storage_error_body,
    storage_error_body_bytes,
};

verus! {

/// One complete HTTP response, ready to be rendered to the wire.
pub struct HttpResponse {
    /// The numeric status code.
    pub status: u16,
    /// The reason phrase of the status line.
    pub reason: Vec<u8>,
    /// The headers, in the order they are written.
    pub headers: Vec<(Vec<u8>, Vec<u8>)>,
    /// The response body.
    pub body: Vec<u8>,
}

/// The headers of a response as sequences of bytes.
pub open spec fn headers_view(hs: Seq<(Vec<u8>, Vec<u8>)>) -> Seq<(Seq<u8>, Seq<u8>)> {
    hs.map_values(|p: (Vec<u8>, Vec<u8>)| (p.0@, p.1@))
}

/// The fixed not-found answer: status 404, its literal body, and a
/// `Content-Length` header that matches the body.
pub open spec fn is_not_found_response(r: HttpResponse) -> bool {
    r.status == 404
    && r.reason@ == reason_not_found()
    && r.body@ == not_found_body()
    && headers_view(r.headers@) == seq![(content_length_name(), dec_of(not_found_body().len()))]
}

/// The fixed method-not-allowed answer: status 405, its literal body, a
/// matching `Content-Length`, and an `Allow` header carrying `allow`.
pub open spec fn is_method_not_allowed_response(r: HttpResponse, allow: Seq<u8>) -> bool {
    r.status == 405
    && r.reason@ == reason_method_not_allowed()
    && r.body@ == method_not_allowed_body()
    && headers_view(r.headers@) == seq![
        (content_length_name(), dec_of(method_not_allowed_body().len())),
        (allow_name(), allow),
    ]
}

/// The successful store answer: status 200, the public URL as the body, a
/// matching `Content-Length`, and a `Location` header carrying the URL.
pub open spec fn is_stored_response(r: HttpResponse, url: Seq<u8>) -> bool {
    r.status == 200
    && r.reason@ == reason_ok()
    && r.body@ == url
    && headers_view(r.headers@) == seq![
        (content_length_name(), dec_of(url.len())),
        (location_name(), url),
    ]
}

/// The answer to a request whose body did not arrive in time: status 408
/// with its literal body and a matching `Content-Length`.
pub open spec fn is_timeout_response(r: HttpResponse) -> bool {
    r.status == 408
    && r.reason@ == reason_request_timeout()
    && r.body@ == request_timeout_body()
    && headers_view(r.headers@) == seq![
        (content_length_name(), dec_of(request_timeout_body().len())),
    ]
}

/// The answer to a body over its ceiling: status 413 with its literal body
/// and a matching `Content-Length`.
pub open spec fn is_too_large_response(r: HttpResponse) -> bool {
    r.status == 413
    && r.reason@ == reason_payload_too_large()
    && r.body@ == payload_too_large_body()
    && headers_view(r.headers@) == seq![
        (content_length_name(), dec_of(payload_too_large_body().len())),
    ]
}

/// The answer to a storage failure: status 500 with its literal body and a
/// matching `Content-Length`. The failure stays confined to the one request.
pub open spec fn is_storage_error_response(r: HttpResponse) -> bool {
    r.status == 500
    && r.reason@ == reason_internal_error()
    && r.body@ == storage_error_body()
    && headers_view(r.headers@) == seq![
        (content_length_name(), dec_of(storage_error_body().len())),
    ]
}

/// Builds a response of `status`, `reason` and `body` whose only header is
/// a `Content-Length` that matches the body.
fn with_content_length(status: u16, reason: Vec<u8>, body: Vec<u8>) -> (r: HttpResponse)
    ensures
        r.status == status,
        r.reason@ == reason@,
        r.body@ == body@,
        headers_view(r.headers@) == seq![(content_length_name(), dec_of(body@.len()))],
{
    let len_bytes = u64_to_dec(body.len() as u64);
    let mut headers: Vec<(Vec<u8>, Vec<u8>)> = Vec::new();
    headers.push((content_length_name_bytes(), len_bytes));
    let r = HttpResponse { status, reason, headers, body };
    proof {
        assert(headers_view(r.headers@) =~= seq![(content_length_name(), dec_of(r.body@.len()))]);
    }
    r
}

/// Builds the fixed not-found response.
pub fn not_found_response() -> (r: HttpResponse)
    ensures
        is_not_found_response(r),
{
    with_content_length(404, reason_not_found_bytes(), not_found_body_bytes())
}

/// Builds the fixed method-not-allowed response, announcing `allow`.
pub fn method_not_allowed_response(allow: &Vec<u8>) -> (r: HttpResponse)
    ensures
        is_method_not_allowed_response(r, allow@),
{
    let body = method_not_allowed_body_bytes();
    let len_bytes = u64_to_dec(body.len() as u64);
    let mut headers: Vec<(Vec<u8>, Vec<u8>)> = Vec::new();
    headers.push((content_length_name_bytes(), len_bytes));
    headers.push((allow_name_bytes(), tail_from(allow, 0)));
    let r = HttpResponse { status: 405, reason: reason_method_not_allowed_bytes(), headers, body };
    proof {
        assert(allow@.skip(0) =~= allow@);
        assert(headers_view(r.headers@) =~= seq![
            (content_length_name(), dec_of(method_not_allowed_body().len())),
            (allow_name(), allow@),
        ]);
    }
    r
}

/// Builds the successful store response for the public URL `url`.
pub fn stored_response(url: &Vec<u8>) -> (r: HttpResponse)
    ensures
        is_stored_response(r, url@),
{
    let body = tail_from(url, 0);
    let len_bytes = u64_to_dec(body.len() as u64);
    let mut headers: Vec<(Vec<u8>, Vec<u8>)> = Vec::new();
    headers.push((content_length_name_bytes(), len_bytes));
    headers.push((location_name_bytes(), tail_from(url, 0)));
    let r = HttpResponse { status: 200, reason: reason_ok_bytes(), headers, body };
    proof {
        assert(url@.skip(0) =~= url@);
        assert(headers_view(r.headers@) =~= seq![
            (content_length_name(), dec_of(url@.len())),
            (location_name(), url@),
        ]);
    }
    r
}

/// Builds the fixed timeout response.
pub fn timeout_response() -> (r: HttpResponse)
    ensures
        is_timeout_response(r),
{
    with_content_length(408, reason_request_timeout_bytes(), request_timeout_body_bytes())
}

/// Builds the fixed body-over-ceiling response.
pub fn too_large_response() -> (r: HttpResponse)
    ensures
        is_too_large_response(r),
{
    with_content_length(413, reason_payload_too_large_bytes(), payload_too_large_body_bytes())
}

/// Builds the fixed storage-failure response.
pub fn storage_error_response() -> (r: HttpResponse)
    ensures
        is_storage_error_response(r),
{
    with_content_length(500, reason_internal_error_bytes(), storage_error_body_bytes())
}

/// The two bytes that end a line on the wire.
pub open spec fn crlf() -> Seq<u8> {
    seq![13u8, 10u8]
}

/// The status line: protocol tag, status in decimal, reason phrase.
pub open spec fn rendered_status_line(status: u16, reason: Seq<u8>) -> Seq<u8> {
    http_version() + seq![32u8] + dec_of(status as nat) + seq![32u8] + reason + crlf()
}

/// One header line: name, a colon and a space, value.
pub open spec fn rendered_header(h: (Seq<u8>, Seq<u8>)) -> Seq<u8> {
    h.0 + seq![58u8, 32u8] + h.1 + crlf()
}

/// All header lines, in order.
pub open spec fn rendered_headers(hs: Seq<(Seq<u8>, Seq<u8>)>) -> Seq<u8>
    decreases hs.len(),
{
    if hs.len() == 0 {
        Seq::empty()
    } else {
        rendered_headers(hs.drop_last()) + rendered_header(hs.last())
    }
}

/// The full wire form of a response: status line, header lines, an empty
/// line, then the body.
pub open spec fn rendered_response(
    status: u16,
    reason: Seq<u8>,
    headers: Seq<(Seq<u8>, Seq<u8>)>,
    body: Seq<u8>,
) -> Seq<u8> {
    rendered_status_line(status, reason) + rendered_headers(headers) + crlf() + body
}

/// Renders a response to the exact bytes that go on the wire.
pub fn render_response(r: &HttpResponse) -> (out: Vec<u8>)
    ensures
        out@ == rendered_response(r.status, r.reason@, headers_view(r.headers@), r.body@),
{
    let ghost hv = headers_view(r.headers@);
    let mut out: Vec<u8> = Vec::new();
    let version = http_version_bytes();
    push_all(&mut out, version.as_slice());
    out.push(32);
    let status_dec = u64_to_dec(r.status as u64);
    push_all(&mut out, status_dec.as_slice());
    out.push(32);
    push_all(&mut out, r.reason.as_slice());
    out.push(13);
    out.push(10);
    proof {
        assert(out@ =~= rendered_status_line(r.status, r.reason@));
    }
    let ghost line = out@;
    let mut i: usize = 0;
    while i < r.headers.len()
        invariant
            i <= r.headers@.len(),
            hv == headers_view(r.headers@),
            hv.len() == r.headers@.len(),
            out@ == line + rendered_headers(hv.take(i as int)),
        decreases r.headers@.len() - i,
    {
        let name = &r.headers[i].0;
        let value = &r.headers[i].1;
        push_all(&mut out, name.as_slice());
        out.push(58);
        out.push(32);
        push_all(&mut out, value.as_slice());
        out.push(13);
        out.push(10);
        proof {
            assert(hv.take(i as int + 1).drop_last() =~= hv.take(i as int));
            assert(hv.take(i as int + 1).last() == (r.headers@[i as int].0@, r.headers@[i as int].1@));
            assert(out@ =~= line + rendered_headers(hv.take(i as int + 1)));
        }
        i += 1;
    }
    proof {
        assert(hv.take(hv.len() as int) =~= hv);
    }
    out.push(13);
    out.push(10);
    push_all(&mut out, r.body.as_slice());
    proof {
        assert(out@ =~= rendered_response(r.status, r.reason@, hv, r.body@));
    }
    out
}

} // verus!
