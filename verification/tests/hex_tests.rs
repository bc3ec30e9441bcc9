use gofile::error::Error;
use gofile::hexcode::decode_hex_lower;

#[test]
fn decodes_empty_file_digest() {
    let r = decode_hex_lower("d41d8cd98f00b204e9800998ecf8427e").unwrap();
    assert_eq!(
        r,
        vec![
            0xd4, 0x1d, 0x8c, 0xd9, 0x8f, 0x00, 0xb2, 0x04, 0xe9, 0x80, 0x09, 0x98, 0xec, 0xf8,
            0x42, 0x7e
        ]
    );
}

#[test]
fn decodes_simple_pairs() {
    assert_eq!(decode_hex_lower("00ff10").unwrap(), vec![0x00, 0xff, 0x10]);
}

#[test]
fn decodes_empty_string_to_no_bytes() {
    assert_eq!(decode_hex_lower("").unwrap(), Vec::<u8>::new());
}

#[test]
fn rejects_upper_case() {
    assert_eq!(decode_hex_lower("AB").unwrap_err(), Error::Decode);
}

#[test]
fn rejects_odd_length() {
    assert_eq!(decode_hex_lower("abc").unwrap_err(), Error::Decode);
}

#[test]
fn rejects_non_hex_characters() {
    assert_eq!(decode_hex_lower("zz").unwrap_err(), Error::Decode);
    assert_eq!(decode_hex_lower("a b2").unwrap_err(), Error::Decode);
}
