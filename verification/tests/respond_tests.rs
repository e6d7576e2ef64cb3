use postbox::bytes::u64_to_dec;
use postbox::respond::{
    method_not_allowed_response, not_found_response, render_response, storage_error_response,
    stored_response, timeout_response, too_large_response,
};

fn header_value(r: &postbox::respond::HttpResponse, name: &[u8]) -> Vec<u8> {
    for (n, v) in r.headers.iter() {
        if n.as_slice() == name {
            return v.clone();
        }
    }
    panic!("header not present");
}

#[test]
fn decimal_rendering_is_exact() {
    assert_eq!(u64_to_dec(0), b"0".to_vec());
    assert_eq!(u64_to_dec(9), b"9".to_vec());
    assert_eq!(u64_to_dec(10), b"10".to_vec());
    assert_eq!(u64_to_dec(14), b"14".to_vec());
    assert_eq!(u64_to_dec(1024 * 1024), b"1048576".to_vec());
    assert_eq!(u64_to_dec(u64::MAX), b"18446744073709551615".to_vec());
}

#[test]
fn not_found_body_is_literal() {
    let r = not_found_response();
    assert_eq!(r.status, 404);
    assert_eq!(r.reason, b"Not Found".to_vec());
    assert_eq!(r.body, b"404 Not Found\n".to_vec());
    assert_eq!(header_value(&r, b"Content-Length"), b"14".to_vec());
}

#[test]
fn method_not_allowed_body_is_literal() {
    let r = method_not_allowed_response(&b"POST".to_vec());
    assert_eq!(r.status, 405);
    assert_eq!(r.reason, b"Method Not Allowed".to_vec());
    assert_eq!(r.body, b"405 Method Not Allowed\n".to_vec());
    assert_eq!(header_value(&r, b"Content-Length"), b"23".to_vec());
    assert_eq!(header_value(&r, b"Allow"), b"POST".to_vec());
}

#[test]
fn stored_response_carries_url() {
    let url = b"http://x/abc/def.txt".to_vec();
    let r = stored_response(&url);
    assert_eq!(r.status, 200);
    assert_eq!(r.reason, b"OK".to_vec());
    assert_eq!(r.body, url);
    assert_eq!(header_value(&r, b"Location"), url);
    assert_eq!(header_value(&r, b"Content-Length"), b"20".to_vec());
}

#[test]
fn defined_failure_responses() {
    let r = timeout_response();
    assert_eq!(r.status, 408);
    assert_eq!(r.body, b"408 Request Timeout\n".to_vec());
    let r = too_large_response();
    assert_eq!(r.status, 413);
    assert_eq!(r.body, b"413 Payload Too Large\n".to_vec());
    let r = storage_error_response();
    assert_eq!(r.status, 500);
    assert_eq!(r.body, b"500 Internal Server Error\n".to_vec());
    assert_eq!(header_value(&r, b"Content-Length"), b"26".to_vec());
}

#[test]
fn rendered_not_found_is_exact_wire_bytes() {
    let r = not_found_response();
    let wire = render_response(&r);
    assert_eq!(
        wire,
        b"HTTP/1.1 404 Not Found\r\nContent-Length: 14\r\n\r\n404 Not Found\n".to_vec()
    );
}

#[test]
fn rendered_stored_response_is_exact_wire_bytes() {
    let url = b"http://x/s/n".to_vec();
    let r = stored_response(&url);
    let wire = render_response(&r);
    assert_eq!(
        wire,
        b"HTTP/1.1 200 OK\r\nContent-Length: 12\r\nLocation: http://x/s/n\r\n\r\nhttp://x/s/n"
            .to_vec()
    );
}
