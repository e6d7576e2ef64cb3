//! Scramble derivation: a file name is turned into the name of its storage
//! subdirectory by a keyed hash, so that directories cannot be guessed
//! without the key while the same name always lands in the same place.

use vstd::prelude::*;
use crate::mac::{b64_url_of, b64_url_encode, hmac_md5, hmac_md5_of, is_b64_url_byte};

verus! {

/// The number of encoded characters kept as the storage directory name.
pub const SCRAMBLE_LEN: usize = 21;

/// The scramble of `name` under `key`: the first `SCRAMBLE_LEN` bytes of the
/// URL-safe base64 encoding of the HMAC-MD5 code of `name`.
pub open spec fn scramble_of(key: Seq<u8>, name: Seq<u8>) -> Seq<u8> {
    b64_url_of(hmac_md5_of(key, name)).take(SCRAMBLE_LEN as int)
}

/// Derives the storage-directory name for `name` under `key`. The result is
/// always exactly `SCRAMBLE_LEN` bytes of the URL-safe base64 alphabet.
pub fn derive_scramble(key: &Vec<u8>, name: &Vec<u8>) -> (r: Vec<u8>)
    ensures
        r@ == scramble_of(key@, name@),
        r@.len() == SCRAMBLE_LEN,
        forall|i: int| 0 <= i < r@.len() ==> is_b64_url_byte(r@[i]),
{
    let code = hmac_md5(key, name);
    let enc = b64_url_encode(&code);
    proof {
        assert(enc@.len() == 22);
    }
    let mut r: Vec<u8> = Vec::new();
    let mut i: usize = 0;
    while i < SCRAMBLE_LEN
        invariant
            i <= SCRAMBLE_LEN,
            enc@ == b64_url_of(hmac_md5_of(key@, name@)),
            enc@.len() == 22,
            forall|k: int| 0 <= k < enc@.len() ==> is_b64_url_byte(enc@[k]),
            r@ == enc@.take(i as int),
        decreases SCRAMBLE_LEN - i,
    {
        let x = enc[i];
        r.push(x);
        proof {
            assert(r@ =~= enc@.take(i as int + 1));
        }
        i += 1;
    }
    proof {
        assert(r@ =~= scramble_of(key@, name@));
    }
    r
}

/// Determinism: the scramble is a function of the key and the name alone,
/// so two derivations from the same key and name agree.
pub proof fn lemma_scramble_deterministic(
    key: Seq<u8>,
    name: Seq<u8>,
    r1: Seq<u8>,
    r2: Seq<u8>,
)
    requires
        r1 == scramble_of(key, name),
        r2 == scramble_of(key, name),
    ensures
        r1 == r2,
{
}

} // verus!
