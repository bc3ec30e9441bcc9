use gofile::digest::{md5_digest, Md5Hasher};
use gofile::hexcode::decode_hex_lower;

#[test]
fn empty_input_gives_known_digest() {
    let expected = decode_hex_lower("d41d8cd98f00b204e9800998ecf8427e").unwrap();
    assert_eq!(md5_digest(&[]), expected);
}

#[test]
fn abc_gives_known_digest() {
    let expected = decode_hex_lower("900150983cd24fb0d6963f7d28e17f72").unwrap();
    assert_eq!(md5_digest(b"abc"), expected);
}

#[test]
fn digest_is_sixteen_bytes() {
    assert_eq!(md5_digest(b"hello world").len(), 16);
}

#[test]
fn streaming_equals_one_shot() {
    let mut hasher = Md5Hasher::new();
    hasher.update(b"a");
    hasher.update(b"b");
    hasher.update(b"c");
    assert_eq!(hasher.finalize(), md5_digest(b"abc"));
}
