//! Trusted boundary to the keyed-hash and base64 crates.
//!
//! The scramble derivation rests on two outside computations: an HMAC-MD5
//! message-authentication code and a URL-safe base64 encoding. Both depend on
//! their arguments alone, so each result is given a name that the rest of the
//! library reasons with.

use vstd::prelude::*;
use base64::Engine;
use crypto::mac::Mac;

verus! {

/// True exactly when `b` is a byte of the URL-safe base64 alphabet
/// (`A`-`Z`, `a`-`z`, `0`-`9`, `-`, `_`).
pub open spec fn is_b64_url_byte(b: u8) -> bool {
    (65 <= b && b <= 90)
    || (97 <= b && b <= 122)
    || (48 <= b && b <= 57)
    || b == 45
    || b == 95
}

/// The HMAC-MD5 code of `msg` under `key`.
pub uninterp spec fn hmac_md5_of(key: Seq<u8>, msg: Seq<u8>) -> Seq<u8>;

/// The URL-safe, unpadded base64 encoding of `bytes`.
pub uninterp spec fn b64_url_of(bytes: Seq<u8>) -> Seq<u8>;

/// Relies on crypto::hmac::Hmac over crypto::md5::Md5: the code depends on
/// the key and the message alone, and an MD5 code is 16 bytes long.
#[verifier::external_body]
pub(crate) fn hmac_md5(key: &Vec<u8>, msg: &Vec<u8>) -> (r: Vec<u8>)
    ensures
        r@ == hmac_md5_of(key@, msg@),
        r@.len() == 16,
{
    let mut h = crypto::hmac::Hmac::new(crypto::md5::Md5::new(), key.as_slice());
    h.input(msg.as_slice());
    h.result().code().to_vec()
}

/// Relies on base64's URL_SAFE_NO_PAD engine: the encoding depends on the
/// input bytes alone, is 4/3 the input length rounded up, and uses only the
/// URL-safe alphabet.
#[verifier::external_body]
pub(crate) fn b64_url_encode(bytes: &Vec<u8>) -> (r: Vec<u8>)
    ensures
        r@ == b64_url_of(bytes@),
        r@.len() == (bytes@.len() * 4 + 2) / 3,
        forall|i: int| 0 <= i < r@.len() ==> is_b64_url_byte(r@[i]),
{
    base64::engine::general_purpose::URL_SAFE_NO_PAD.encode(bytes.as_slice()).into_bytes()
}

} // verus!
