use bytes::BytesMut;
use stunne::encodings::{AttributeDecoder, AttributeEncoder, Utf8Decoder, Utf8Error};

fn check_encoding(expected_string: &str, expected_bytes: &[u8]) {
    // Use zero capacity to ensure that more capacity is reserved if needed.
    let mut buf = BytesMut::with_capacity(0);
    expected_string.encode(&mut buf);
    assert_eq!(&buf, expected_bytes);

    let actual_string = Utf8Decoder::default().decode(expected_bytes).unwrap();
    assert_eq!(actual_string, expected_string);
}

#[test]
fn test_utf8_encoding() {
    check_encoding("test", &[0x74, 0x65, 0x73, 0x74]);
    check_encoding("\u{13101}", &[0xf0, 0x93, 0x84, 0x81]);
}

#[test]
fn test_invalid_utf8_encoding() {
    const INVALID_UTF8_BYTES: [u8; 1] = [0xf0];
    let result = Utf8Decoder::default().decode(&INVALID_UTF8_BYTES);
    assert!(matches!(result, Err(Utf8Error { .. })));
}

#[test]
fn test_utf8_error_names_the_first_invalid_byte() {
    let decoder = Utf8Decoder::default();
    assert_eq!(
        decoder.decode(&[0x61, 0x62, 0xff, 0x63]),
        Err(Utf8Error { valid_up_to: 2 })
    );
    // A surrogate is not a character.
    assert_eq!(
        decoder.decode(&[0x61, 0xed, 0xa0, 0x80]),
        Err(Utf8Error { valid_up_to: 1 })
    );
    // An overlong form is not valid.
    assert_eq!(
        decoder.decode(&[0xc0, 0x80]),
        Err(Utf8Error { valid_up_to: 0 })
    );
    // A character that is cut off is not valid, and the whole one is.
    assert_eq!(
        decoder.decode(&[0x61, 0xe2, 0x82]),
        Err(Utf8Error { valid_up_to: 1 })
    );
    assert_eq!(decoder.decode(&[0x61, 0xe2, 0x82, 0xac]), Ok("a\u{20ac}"));
    assert_eq!(
        decoder.decode(&[0xf0]),
        Err(Utf8Error { valid_up_to: 0 })
    );
}

#[test]
fn test_utf8_empty_and_appended() {
    assert_eq!(Utf8Decoder::default().decode(&[]), Ok(""));
    let mut buf = BytesMut::new();
    buf.extend_from_slice(&[1, 2]);
    "ab".encode(&mut buf);
    "".encode(&mut buf);
    assert_eq!(buf.as_ref(), &[1, 2, 0x61, 0x62]);
}
