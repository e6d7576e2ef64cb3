//! The fixed byte strings of the wire protocol: header names, reason
//! phrases and literal response bodies, each as a spec sequence beside the
//! function that builds it.

use vstd::prelude::*;

verus! {

/// The bytes of the protocol tag `"HTTP/1.1"`.
pub open spec fn http_version() -> Seq<u8> {
    seq![72u8, 84u8, 84u8, 80u8, 47u8, 49u8, 46u8, 49u8]
}

/// Builds the bytes of the protocol tag `"HTTP/1.1"`.
pub fn http_version_bytes() -> (v: Vec<u8>)
    ensures
        v@ == http_version(),
{
    let mut v: Vec<u8> = Vec::new();
    v.push(72);
    v.push(84);
    v.push(84);
    v.push(80);
    v.push(47);
    v.push(49);
    v.push(46);
    v.push(49);
    proof {
        assert(v@ =~= http_version());
    }
    v
}

/// The bytes of the method name `"POST"`.
pub open spec fn post_method() -> Seq<u8> {
    seq![80u8, 79u8, 83u8, 84u8]
}

/// Builds the bytes of the method name `"POST"`.
pub fn post_method_bytes() -> (v: Vec<u8>)
    ensures
        v@ == post_method(),
{
    let mut v: Vec<u8> = Vec::new();
    v.push(80);
    v.push(79);
    v.push(83);
    v.push(84);
    proof {
        assert(v@ =~= post_method());
    }
    v
}

/// The bytes of the header name `"Content-Length"`.
pub open spec fn content_length_name() -> Seq<u8> {
    seq![67u8, 111u8, 110u8, 116u8, 101u8, 110u8, 116u8, 45u8, 76u8, 101u8, 110u8, 103u8, 116u8, 104u8]
}

/// Builds the bytes of the header name `"Content-Length"`.
pub fn content_length_name_bytes() -> (v: Vec<u8>)
    ensures
        v@ == content_length_name(),
{
    let mut v: Vec<u8> = Vec::new();
    v.push(67);
    v.push(111);
    v.push(110);
    v.push(116);
    v.push(101);
    v.push(110);
    v.push(116);
    v.push(45);
    v.push(76);
    v.push(101);
    v.push(110);
    v.push(103);
    v.push(116);
    v.push(104);
    proof {
        assert(v@ =~= content_length_name());
    }
    v
}

/// The bytes of the header name `"Location"`.
pub open spec fn location_name() -> Seq<u8> {
    seq![76u8, 111u8, 99u8, 97u8, 116u8, 105u8, 111u8, 110u8]
}

/// Builds the bytes of the header name `"Location"`.
pub fn location_name_bytes() -> (v: Vec<u8>)
    ensures
        v@ == location_name(),
{
    let mut v: Vec<u8> = Vec::new();
    v.push(76);
    v.push(111);
    v.push(99);
    v.push(97);
    v.push(116);
    v.push(105);
    v.push(111);
    v.push(110);
    proof {
        assert(v@ =~= location_name());
    }
    v
}

/// The bytes of the header name `"Allow"`.
pub open spec fn allow_name() -> Seq<u8> {
    seq![65u8, 108u8, 108u8, 111u8, 119u8]
}

/// Builds the bytes of the header name `"Allow"`.
pub fn allow_name_bytes() -> (v: Vec<u8>)
    ensures
        v@ == allow_name(),
{
    let mut v: Vec<u8> = Vec::new();
    v.push(65);
    v.push(108);
    v.push(108);
    v.push(111);
    v.push(119);
    proof {
        assert(v@ =~= allow_name());
    }
    v
}

/// The bytes of the reason phrase `"OK"`.
pub open spec fn reason_ok() -> Seq<u8> {
    seq![79u8, 75u8]
}

/// Builds the bytes of the reason phrase `"OK"`.
pub fn reason_ok_bytes() -> (v: Vec<u8>)
    ensures
        v@ == reason_ok(),
{
    let mut v: Vec<u8> = Vec::new();
    v.push(79);
    v.push(75);
    proof {
        assert(v@ =~= reason_ok());
    }
    v
}

/// The bytes of the reason phrase `"Not Found"`.
pub open spec fn reason_not_found() -> Seq<u8> {
    seq![78u8, 111u8, 116u8, 32u8, 70u8, 111u8, 117u8, 110u8, 100u8]
}

/// Builds the bytes of the reason phrase `"Not Found"`.
pub fn reason_not_found_bytes() -> (v: Vec<u8>)
    ensures
        v@ == reason_not_found(),
{
    let mut v: Vec<u8> = Vec::new();
    v.push(78);
    v.push(111);
    v.push(116);
    v.push(32);
    v.push(70);
    v.push(111);
    v.push(117);
    v.push(110);
    v.push(100);
    proof {
        assert(v@ =~= reason_not_found());
    }
    v
}

/// The bytes of the reason phrase `"Method Not Allowed"`.
pub open spec fn reason_method_not_allowed() -> Seq<u8> {
    seq![77u8, 101u8, 116u8, 104u8, 111u8, 100u8, 32u8, 78u8, 111u8, 116u8, 32u8, 65u8, 108u8, 108u8, 111u8, 119u8, 101u8, 100u8]
}

/// Builds the bytes of the reason phrase `"Method Not Allowed"`.
pub fn reason_method_not_allowed_bytes() -> (v: Vec<u8>)
    ensures
        v@ == reason_method_not_allowed(),
{
    let mut v: Vec<u8> = Vec::new();
    v.push(77);
    v.push(101);
    v.push(116);
    v.push(104);
    v.push(111);
    v.push(100);
    v.push(32);
    v.push(78);
    v.push(111);
    v.push(116);
    v.push(32);
    v.push(65);
    v.push(108);
    v.push(108);
    v.push(111);
    v.push(119);
    v.push(101);
    v.push(100);
    proof {
        assert(v@ =~= reason_method_not_allowed());
    }
    v
}

/// The bytes of the reason phrase `"Request Timeout"`.
pub open spec fn reason_request_timeout() -> Seq<u8> {
    seq![82u8, 101u8, 113u8, 117u8, 101u8, 115u8, 116u8, 32u8, 84u8, 105u8, 109u8, 101u8, 111u8, 117u8, 116u8]
}

/// Builds the bytes of the reason phrase `"Request Timeout"`.
pub fn reason_request_timeout_bytes() -> (v: Vec<u8>)
    ensures
        v@ == reason_request_timeout(),
{
    let mut v: Vec<u8> = Vec::new();
    v.push(82);
    v.push(101);
    v.push(113);
    v.push(117);
    v.push(101);
    v.push(115);
    v.push(116);
    v.push(32);
    v.push(84);
    v.push(105);
    v.push(109);
    v.push(101);
    v.push(111);
    v.push(117);
    v.push(116);
    proof {
        assert(v@ =~= reason_request_timeout());
    }
    v
}

/// The bytes of the reason phrase `"Payload Too Large"`.
pub open spec fn reason_payload_too_large() -> Seq<u8> {
    seq![80u8, 97u8, 121u8, 108u8, 111u8, 97u8, 100u8, 32u8, 84u8, 111u8, 111u8, 32u8, 76u8, 97u8, 114u8, 103u8, 101u8]
}

/// Builds the bytes of the reason phrase `"Payload Too Large"`.
pub fn reason_payload_too_large_bytes() -> (v: Vec<u8>)
    ensures
        v@ == reason_payload_too_large(),
{
    let mut v: Vec<u8> = Vec::new();
    v.push(80);
    v.push(97);
    v.push(121);
    v.push(108);
    v.push(111);
    v.push(97);
    v.push(100);
    v.push(32);
    v.push(84);
    v.push(111);
    v.push(111);
    v.push(32);
    v.push(76);
    v.push(97);
    v.push(114);
    v.push(103);
    v.push(101);
    proof {
        assert(v@ =~= reason_payload_too_large());
    }
    v
}

/// The bytes of the reason phrase `"Internal Server Error"`.
pub open spec fn reason_internal_error() -> Seq<u8> {
    seq![73u8, 110u8, 116u8, 101u8, 114u8, 110u8, 97u8, 108u8, 32u8, 83u8, 101u8, 114u8, 118u8, 101u8, 114u8, 32u8, 69u8, 114u8, 114u8, 111u8, 114u8]
}

/// Builds the bytes of the reason phrase `"Internal Server Error"`.
pub fn reason_internal_error_bytes() -> (v: Vec<u8>)
    ensures
        v@ == reason_internal_error(),
{
    let mut v: Vec<u8> = Vec::new();
    v.push(73);
    v.push(110);
    v.push(116);
    v.push(101);
    v.push(114);
    v.push(110);
    v.push(97);
    v.push(108);
    v.push(32);
    v.push(83);
    v.push(101);
    v.push(114);
    v.push(118);
    v.push(101);
    v.push(114);
    v.push(32);
    v.push(69);
    v.push(114);
    v.push(114);
    v.push(111);
    v.push(114);
    proof {
        assert(v@ =~= reason_internal_error());
    }
    v
}

/// The bytes of the fixed not-found body, `"404 Not Found"` and a newline.
pub open spec fn not_found_body() -> Seq<u8> {
    seq![52u8, 48u8, 52u8, 32u8, 78u8, 111u8, 116u8, 32u8, 70u8, 111u8, 117u8, 110u8, 100u8, 10u8]
}

/// Builds the bytes of the fixed not-found body, `"404 Not Found"` and a newline.
pub fn not_found_body_bytes() -> (v: Vec<u8>)
    ensures
        v@ == not_found_body(),
{
    let mut v: Vec<u8> = Vec::new();
    v.push(52);
    v.push(48);
    v.push(52);
    v.push(32);
    v.push(78);
    v.push(111);
    v.push(116);
    v.push(32);
    v.push(70);
    v.push(111);
    v.push(117);
    v.push(110);
    v.push(100);
    v.push(10);
    proof {
        assert(v@ =~= not_found_body());
    }
    v
}

/// The bytes of the fixed method-not-allowed body, `"405 Method Not Allowed"` and a newline.
pub open spec fn method_not_allowed_body() -> Seq<u8> {
    seq![52u8, 48u8, 53u8, 32u8, 77u8, 101u8, 116u8, 104u8, 111u8, 100u8, 32u8, 78u8, 111u8, 116u8, 32u8, 65u8, 108u8, 108u8, 111u8, 119u8, 101u8, 100u8, 10u8]
}

/// Builds the bytes of the fixed method-not-allowed body, `"405 Method Not Allowed"` and a newline.
pub fn method_not_allowed_body_bytes() -> (v: Vec<u8>)
    ensures
        v@ == method_not_allowed_body(),
{
    let mut v: Vec<u8> = Vec::new();
    v.push(52);
    v.push(48);
    v.push(53);
    v.push(32);
    v.push(77);
    v.push(101);
    v.push(116);
    v.push(104);
    v.push(111);
    v.push(100);
    v.push(32);
    v.push(78);
    v.push(111);
    v.push(116);
    v.push(32);
    v.push(65);
    v.push(108);
    v.push(108);
    v.push(111);
    v.push(119);
    v.push(101);
    v.push(100);
    v.push(10);
    proof {
        assert(v@ =~= method_not_allowed_body());
    }
    v
}

/// The bytes of the fixed timeout body, `"408 Request Timeout"` and a newline.
pub open spec fn request_timeout_body() -> Seq<u8> {
    seq![52u8, 48u8, 56u8, 32u8, 82u8, 101u8, 113u8, 117u8, 101u8, 115u8, 116u8, 32u8, 84u8, 105u8, 109u8, 101u8, 111u8, 117u8, 116u8, 10u8]
}

/// Builds the bytes of the fixed timeout body, `"408 Request Timeout"` and a newline.
pub fn request_timeout_body_bytes() -> (v: Vec<u8>)
    ensures
        v@ == request_timeout_body(),
{
    let mut v: Vec<u8> = Vec::new();
    v.push(52);
    v.push(48);
    v.push(56);
    v.push(32);
    v.push(82);
    v.push(101);
    v.push(113);
    v.push(117);
    v.push(101);
    v.push(115);
    v.push(116);
    v.push(32);
    v.push(84);
    v.push(105);
    v.push(109);
    v.push(101);
    v.push(111);
    v.push(117);
    v.push(116);
    v.push(10);
    proof {
        assert(v@ =~= request_timeout_body());
    }
    v
}

/// The bytes of the fixed oversize body, `"413 Payload Too Large"` and a newline.
pub open spec fn payload_too_large_body() -> Seq<u8> {
    seq![52u8, 49u8, 51u8, 32u8, 80u8, 97u8, 121u8, 108u8, 111u8, 97u8, 100u8, 32u8, 84u8, 111u8, 111u8, 32u8, 76u8, 97u8, 114u8, 103u8, 101u8, 10u8]
}

/// Builds the bytes of the fixed oversize body, `"413 Payload Too Large"` and a newline.
pub fn payload_too_large_body_bytes() -> (v: Vec<u8>)
    ensures
        v@ == payload_too_large_body(),
{
    let mut v: Vec<u8> = Vec::new();
    v.push(52);
    v.push(49);
    v.push(51);
    v.push(32);
    v.push(80);
    v.push(97);
    v.push(121);
    v.push(108);
    v.push(111);
    v.push(97);
    v.push(100);
    v.push(32);
    v.push(84);
    v.push(111);
    v.push(111);
    v.push(32);
    v.push(76);
    v.push(97);
    v.push(114);
    v.push(103);
    v.push(101);
    v.push(10);
    proof {
        assert(v@ =~= payload_too_large_body());
    }
    v
}

/// The bytes of the fixed storage-failure body, `"500 Internal Server Error"` and a newline.
pub open spec fn storage_error_body() -> Seq<u8> {
    seq![53u8, 48u8, 48u8, 32u8, 73u8, 110u8, 116u8, 101u8, 114u8, 110u8, 97u8, 108u8, 32u8, 83u8, 101u8, 114u8, 118u8, 101u8, 114u8, 32u8, 69u8, 114u8, 114u8, 111u8, 114u8, 10u8]
}

/// Builds the bytes of the fixed storage-failure body, `"500 Internal Server Error"` and a newline.
pub fn storage_error_body_bytes() -> (v: Vec<u8>)
    ensures
        v@ == storage_error_body(),
{
    let mut v: Vec<u8> = Vec::new();
    v.push(53);
    v.push(48);
    v.push(48);
    v.push(32);
    v.push(73);
    v.push(110);
    v.push(116);
    v.push(101);
    v.push(114);
    v.push(110);
    v.push(97);
    v.push(108);
    v.push(32);
    v.push(83);
    v.push(101);
    v.push(114);
    v.push(118);
    v.push(101);
    v.push(114);
    v.push(32);
    v.push(69);
    v.push(114);
    v.push(114);
    v.push(111);
    v.push(114);
    v.push(10);
    proof {
        assert(v@ =~= storage_error_body());
    }
    v
}

} // verus!
