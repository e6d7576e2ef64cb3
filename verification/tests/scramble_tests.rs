use base64::Engine;
use crypto::mac::Mac;
use postbox::scramble::derive_scramble;

fn is_url_safe(b: u8) -> bool {
    (b'A'..=b'Z').contains(&b)
        || (b'a'..=b'z').contains(&b)
        || (b'0'..=b'9').contains(&b)
        || b == b'-'
        || b == b'_'
}

#[test]
fn scramble_is_deterministic() {
    let key = b"some secret key".to_vec();
    let name = b"greeting.txt".to_vec();
    let first = derive_scramble(&key, &name);
    let second = derive_scramble(&key, &name);
    assert_eq!(first, second);
}

#[test]
fn scramble_has_fixed_length_and_alphabet() {
    let cases: Vec<(Vec<u8>, Vec<u8>)> = vec![
        (b"k".to_vec(), b"a.txt".to_vec()),
        (b"".to_vec(), b"".to_vec()),
        (b"longer key material 0123456789".to_vec(), b"some/nested/name".to_vec()),
        (vec![0u8, 255, 17, 3], vec![1u8, 2, 3, 0, 255]),
    ];
    for (key, name) in cases {
        let s = derive_scramble(&key, &name);
        assert_eq!(s.len(), 21);
        assert!(s.iter().all(|b| is_url_safe(*b)));
    }
}

#[test]
fn scramble_differs_between_keys() {
    let name = b"greeting.txt".to_vec();
    let one = derive_scramble(&b"first key".to_vec(), &name);
    let two = derive_scramble(&b"second key".to_vec(), &name);
    assert_ne!(one, two);
}

#[test]
fn scramble_differs_between_names() {
    let key = b"fixed key".to_vec();
    let one = derive_scramble(&key, &b"alpha.txt".to_vec());
    let two = derive_scramble(&key, &b"beta.txt".to_vec());
    assert_ne!(one, two);
}

#[test]
fn scramble_matches_known_vector() {
    // HMAC-MD5("key", "The quick brown fox jumps over the lazy dog")
    // = 80070713463e7749b90c2dc24911e275; URL-safe base64 of those bytes is
    // "gAcHE0Y-d0m5DC3CSRHidQ", of which the first 21 characters remain.
    let key = b"key".to_vec();
    let name = b"The quick brown fox jumps over the lazy dog".to_vec();
    let s = derive_scramble(&key, &name);
    assert_eq!(s, b"gAcHE0Y-d0m5DC3CSRHid".to_vec());
}

#[test]
fn scramble_matches_direct_computation() {
    let key = b"another key".to_vec();
    let name = b"file-name.bin".to_vec();
    let s = derive_scramble(&key, &name);

    let mut h = crypto::hmac::Hmac::new(crypto::md5::Md5::new(), &key);
    h.input(&name);
    let encoded = base64::engine::general_purpose::URL_SAFE_NO_PAD.encode(h.result().code());
    assert_eq!(s, encoded.as_bytes()[..21].to_vec());
}
