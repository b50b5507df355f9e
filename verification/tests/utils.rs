use stunne::utils::{
    decode_message_type, encode_message_type, padding_for_attribute_length, read_u128_be,
    read_u16_be, read_u32_be, write_u128_be, write_u32_be, xor,
};
use stunne::{MessageClass, MessageMethod};

#[test]
fn test_xor() {
    let mut orig = [0b0000_1111, 0b0000_1111];
    let the_mask = [0b0101_0101, 0b1010_1010];
    let expected = [0b0101_1010, 0b1010_0101];

    xor(&mut orig, &the_mask);
    assert_eq!(orig, expected,);
}

#[test]
fn test_encode_message_type() {
    assert_eq!(
        encode_message_type(MessageClass::Request, MessageMethod::binding()),
        [0, 1]
    );

    assert_eq!(
        encode_message_type(MessageClass::Indication, MessageMethod::binding()),
        [0b00000000, 0b00010001]
    );

    assert_eq!(
        encode_message_type(MessageClass::SuccessResponse, MessageMethod::binding()),
        [0b00000001, 0b00000001]
    );

    assert_eq!(
        encode_message_type(MessageClass::ErrorResponse, MessageMethod::binding()),
        [0b00000001, 0b00010001]
    );

    assert_eq!(
        encode_message_type(MessageClass::Request, 2.try_into().unwrap()),
        [0b00000000, 0b00000010]
    );

    assert_eq!(
        encode_message_type(MessageClass::Request, 4095.try_into().unwrap()),
        [0b00111110, 0b11101111]
    );

    assert_eq!(
        encode_message_type(MessageClass::ErrorResponse, 0b1010_0101.try_into().unwrap()),
        [0b0000_0011, 0b0101_0101]
    );
}

#[test]
fn test_decode_message_type() {
    assert_eq!(
        decode_message_type([0b0000_0000, 0b0000_0001]),
        Ok((MessageClass::Request, MessageMethod::binding()))
    );

    assert_eq!(
        decode_message_type([0b00000000, 0b00010001]),
        Ok((MessageClass::Indication, MessageMethod::binding())),
    );

    assert_eq!(
        decode_message_type([0b00000001, 0b00000001]),
        Ok((MessageClass::SuccessResponse, MessageMethod::binding())),
    );

    assert_eq!(
        decode_message_type([0b00000001, 0b00010001]),
        Ok((MessageClass::ErrorResponse, MessageMethod::binding()))
    );

    assert_eq!(
        decode_message_type([0b00000000, 0b00000010]),
        Ok((
            MessageClass::Request,
            MessageMethod::try_from_u16(2).unwrap()
        ))
    );

    assert_eq!(
        decode_message_type([0b00111110, 0b11101111]),
        Ok((
            MessageClass::Request,
            MessageMethod::try_from_u16(4095).unwrap()
        )),
    );
}

#[test]
fn test_padding_for_attribute_length() {
    assert_eq!(0, padding_for_attribute_length(0));
    assert_eq!(3, padding_for_attribute_length(1));
    assert_eq!(2, padding_for_attribute_length(2));
    assert_eq!(1, padding_for_attribute_length(3));
    assert_eq!(0, padding_for_attribute_length(4));
    assert_eq!(3, padding_for_attribute_length(5));
    assert_eq!(2, padding_for_attribute_length(6));
    assert_eq!(1, padding_for_attribute_length(7));
    assert_eq!(0, padding_for_attribute_length(8));
}

#[test]
fn test_message_type_roundtrip_over_all_values() {
    let classes = [
        MessageClass::Request,
        MessageClass::Indication,
        MessageClass::SuccessResponse,
        MessageClass::ErrorResponse,
    ];
    for class in classes {
        for value in 0u16..=4095 {
            let method = MessageMethod::try_from_u16(value).unwrap();
            let bytes = encode_message_type(class, method);
            assert_eq!(bytes[0] & 0b1100_0000, 0);
            assert_eq!(decode_message_type(bytes), Ok((class, method)));
        }
    }
}

#[test]
fn test_decode_message_type_ignores_the_upper_bits() {
    assert_eq!(
        decode_message_type([0b1100_0001, 0b0001_0001]),
        Ok((MessageClass::ErrorResponse, MessageMethod::binding()))
    );
    assert_eq!(
        decode_message_type([0xff, 0xff]),
        Ok((
            MessageClass::ErrorResponse,
            MessageMethod::try_from_u16(4095).unwrap()
        ))
    );
}

#[test]
fn test_padding_for_large_lengths() {
    assert_eq!(1, padding_for_attribute_length(65535));
    assert_eq!(0, padding_for_attribute_length(65536));
    assert_eq!(0, padding_for_attribute_length(usize::MAX - 3));
    assert_eq!(1, padding_for_attribute_length(usize::MAX));
}

#[test]
fn test_big_endian_numbers() {
    assert_eq!(read_u16_be(0x12, 0x34), 0x1234);
    assert_eq!(read_u16_be(0xff, 0xff), 0xffff);
    assert_eq!(read_u32_be(0x12, 0x34, 0x56, 0x78), 0x12345678);
    assert_eq!(read_u32_be(0xff, 0xff, 0xff, 0xff), u32::MAX);
    assert_eq!(write_u32_be(0x12345678), [0x12, 0x34, 0x56, 0x78]);
    assert_eq!(write_u32_be(u32::MAX), [0xff; 4]);
    let bytes = [
        0x00, 0x11, 0x22, 0x33, 0x44, 0x55, 0x66, 0x77, 0x88, 0x99, 0xaa, 0xbb, 0xcc, 0xdd, 0xee,
        0xff,
    ];
    assert_eq!(read_u128_be(&bytes), 0x00112233445566778899aabbccddeeff);
    assert_eq!(write_u128_be(0x00112233445566778899aabbccddeeff), bytes);
    assert_eq!(write_u128_be(u128::MAX), [0xff; 16]);
}

#[test]
fn test_xor_of_sixteen_bytes_is_its_own_inverse() {
    let orig: [u8; 16] = [0, 1, 2, 3, 4, 5, 6, 7, 8, 9, 10, 11, 12, 13, 14, 255];
    let mask: [u8; 16] = [255, 254, 3, 9, 27, 81, 243, 1, 0, 0, 7, 7, 128, 64, 32, 255];
    let mut bytes = orig;
    xor(&mut bytes, &mask);
    assert_eq!(
        bytes,
        [255, 255, 1, 10, 31, 84, 245, 6, 8, 9, 13, 12, 140, 77, 46, 0]
    );
    xor(&mut bytes, &mask);
    assert_eq!(bytes, orig);
    let mut empty: [u8; 0] = [];
    xor(&mut empty, &[]);
}
