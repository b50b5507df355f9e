use bytes::BytesMut;
use stunne::errors::{MessageDecodeError, MessageEncodeError};
use stunne::{
    MessageClass, MessageHeader, MessageMethod, StunDecoder, StunEncoder, TransactionId,
};

#[test]
fn encode_simple_message() {
    let buf = BytesMut::new();
    let tx_id_bytes = [1, 2, 3, 4, 5, 6, 7, 8, 9, 10, 11, 12];
    let finished_buf = StunEncoder::new(buf)
        .encode_header(MessageHeader {
            class: MessageClass::Request,
            method: MessageMethod::binding(),
            tx_id: TransactionId::from_bytes(&tx_id_bytes),
        })
        .finish();

    let expected = [
        0, 1, // Zero Bits, Stun Message and Method
        0, 0, // Message Length: 0 with no attributes
        0x21, 0x12, 0xA4, 0x42, // Magic Cookie
        1, 2, 3, 4, 5, 6, 7, 8, 9, 10, 11, 12, // Transaction ID
    ];

    assert_eq!(finished_buf.as_ref(), &expected);
}

#[test]
fn encode_multiple_attributes() {
    let buf = BytesMut::new();
    let tx_id = TransactionId::random();
    let finished_buf = StunEncoder::new(buf)
        .encode_header(MessageHeader {
            class: MessageClass::Request,
            method: MessageMethod::binding(),
            tx_id,
        })
        .add_attribute(0x00, &"test1")
        .unwrap()
        .add_attribute(0x01, &"test02")
        .unwrap()
        .finish();

    let expected_bytes = [
        // First attribute number
        0, 0, // First attribute length
        0, 5, // First attribute data (including padding)
        0x74, 0x65, 0x73, 0x74, 0x31, 0, 0, 0, // Second attribute number
        0, 1, // Second attribute length
        0, 6, // Second attribute data
        0x74, 0x65, 0x73, 0x74, 0x30, 0x32, 0, 0,
    ];
    assert_eq!(&finished_buf[20..], &expected_bytes);
    // The whole message takes 44 bytes, and its header states 24 of them.
    assert_eq!(finished_buf.len(), 44);
    assert_eq!(&finished_buf[2..4], &[0, 24]);
}

#[test]
fn decode_simple_message() {
    let bytes = [
        0, 1, // Zero Bits, Stun Message and Method
        0, 0, // Message Length: 0 with no attributes
        0x21, 0x12, 0xA4, 0x42, // Magic Cookie
        1, 2, 3, 4, 5, 6, 7, 8, 9, 10, 11, 12, // Transaction ID
    ];

    let tx_id_bytes = [1, 2, 3, 4, 5, 6, 7, 8, 9, 10, 11, 12];

    let message = StunDecoder::new(&bytes).unwrap();
    assert!(matches!(message.header().class, MessageClass::Request));
    assert_eq!(message.header().method, MessageMethod::binding());
    assert_eq!(message.header().tx_id.as_bytes(), &tx_id_bytes);
}

#[test]
fn fail_to_decode_too_small_message() {
    let valid_bytes = [
        0, 1, // Zero Bits, Stun Message and Method
        0, 0, // Message Length: 0 with no attributes
        0x21, 0x12, 0xA4, 0x42, // Magic Cookie
        1, 2, 3, 4, 5, 6, 7, 8, 9, 10, 11, 12, // Transaction ID
    ];

    for x in 0..20 {
        let bytes = &valid_bytes[0..x];
        let result = StunDecoder::new(&bytes);
        assert!(matches!(
            result,
            Err(MessageDecodeError::UnexpectedEndOfData)
        ));
    }
}

#[test]
fn fail_to_decode_invalid_header() {
    let invalid_bytes = [
        // There should be an error here due to the header having invalid zero bits.
        0b1100_0000, 1, //
        0, 0, // Message Length
        0x21, 0x12, 0xA4, 0x42, // Magic Cookie
        1, 2, 3, 4, 5, 6, 7, 8, 9, 10, 11, 12, // Transaction ID
    ];

    let message = StunDecoder::new(&invalid_bytes);
    assert!(matches!(
        message,
        Err(MessageDecodeError::NonZeroStartingBits)
    ));
}

#[test]
fn test_decoder_accessors() {
    let bytes = [
        0b0000_0001, 0b0001_0001, 0, 8, 0x21, 0x12, 0xA4, 0x42, 1, 2, 3, 4, 5, 6, 7, 8, 9, 10, 11,
        12, 0x80, 0x22, 0, 3, 0x61, 0x62, 0x63, 0,
    ];
    let message = StunDecoder::new(&bytes).unwrap();
    assert_eq!(message.class(), MessageClass::ErrorResponse);
    assert_eq!(message.method(), MessageMethod::binding());
    assert_eq!(
        message.tx_id(),
        TransactionId::from_bytes(&[1, 2, 3, 4, 5, 6, 7, 8, 9, 10, 11, 12])
    );
    assert_eq!(message.header().class, MessageClass::ErrorResponse);
    let mut attributes = message.attributes();
    let attribute = attributes.next().unwrap().unwrap();
    assert_eq!(attribute.attribute_type(), 0x8022);
    assert_eq!(attribute.data, &[0x61, 0x62, 0x63]);
    assert!(attributes.next().is_none());
    // A second iterator starts over.
    assert!(message.attributes().next().is_some());
}

#[test]
fn test_decoder_holds_the_length_against_the_datagram() {
    let mut bytes = vec![
        0, 1, 0, 8, 0x21, 0x12, 0xA4, 0x42, 1, 2, 3, 4, 5, 6, 7, 8, 9, 10, 11, 12, 0, 1, 0, 4, 0,
        0, 0, 0,
    ];
    assert!(StunDecoder::new(&bytes).is_ok());
    bytes.push(0);
    assert!(matches!(
        StunDecoder::new(&bytes),
        Err(MessageDecodeError::SliceExceedsLength)
    ));
    bytes.truncate(27);
    assert!(matches!(
        StunDecoder::new(&bytes),
        Err(MessageDecodeError::LengthExceedsSlice)
    ));
    // The header is checked before the length.
    bytes[4] = 0;
    assert!(matches!(
        StunDecoder::new(&bytes),
        Err(MessageDecodeError::InvalidMagicCookie)
    ));
}

#[test]
fn test_decoder_does_not_look_into_attributes() {
    // The length fits the datagram, but the attribute is cut off.
    let bytes = [
        0, 1, 0, 3, 0x21, 0x12, 0xA4, 0x42, 1, 2, 3, 4, 5, 6, 7, 8, 9, 10, 11, 12, 0, 1, 0,
    ];
    let message = StunDecoder::new(&bytes).unwrap();
    let mut attributes = message.attributes();
    assert!(matches!(
        attributes.next(),
        Some(Err(MessageDecodeError::UnexpectedEndOfData))
    ));
    assert!(attributes.next().is_none());
}

#[test]
fn test_encoder_refuses_what_does_not_fit() {
    let header = MessageHeader {
        class: MessageClass::Request,
        method: MessageMethod::binding(),
        tx_id: TransactionId::from_bytes(&[0; 12]),
    };
    // A value that its length field cannot state.
    let long = "a".repeat(65536);
    let result = StunEncoder::new(BytesMut::new())
        .encode_header(header)
        .add_attribute(1, &long.as_str());
    assert!(matches!(result, Err(MessageEncodeError::InvalidDataSize)));

    // A value that fits its own length field, but not the message.
    let long = "a".repeat(65535);
    let result = StunEncoder::new(BytesMut::new())
        .encode_header(header)
        .add_attribute(1, &long.as_str());
    assert!(matches!(result, Err(MessageEncodeError::InvalidDataSize)));

    // The longest value that fits: 65528 bytes and the four in front of it.
    let long = "a".repeat(65528);
    let bytes = StunEncoder::new(BytesMut::new())
        .encode_header(header)
        .add_attribute(1, &long.as_str())
        .unwrap()
        .finish();
    assert_eq!(bytes.len(), 20 + 65532);
    assert_eq!(&bytes[2..4], &[0xff, 0xfc]);
    let message = StunDecoder::new(&bytes).unwrap();
    let attribute = message.attributes().next().unwrap().unwrap();
    assert_eq!(attribute.data.len(), 65528);

    // Attributes that fit one by one, but not together.
    let half = "a".repeat(40000);
    let encoder = StunEncoder::new(BytesMut::new())
        .encode_header(header)
        .add_attribute(1, &half.as_str())
        .unwrap();
    assert!(matches!(
        encoder.add_attribute(2, &half.as_str()),
        Err(MessageEncodeError::InvalidDataSize)
    ));
}

#[test]
fn test_encoder_keeps_what_the_buffer_held() {
    let mut buf = BytesMut::with_capacity(4);
    buf.extend_from_slice(&[0xCA, 0xFE]);
    let bytes = StunEncoder::new(buf)
        .encode_header(MessageHeader {
            class: MessageClass::SuccessResponse,
            method: MessageMethod::binding(),
            tx_id: TransactionId::from_bytes(&[3; 12]),
        })
        .add_attribute(0x8022, &"x")
        .unwrap()
        .finish();
    assert_eq!(
        bytes.as_ref(),
        &[
            0xCA, 0xFE, 0x01, 0x01, 0, 8, 0x21, 0x12, 0xA4, 0x42, 3, 3, 3, 3, 3, 3, 3, 3, 3, 3,
            3, 3, 0x80, 0x22, 0, 1, 0x78, 0, 0, 0
        ]
    );
}

#[test]
fn test_transaction_id_bytes() {
    let id = TransactionId::from_bytes(&[1, 2, 3, 4, 5, 6, 7, 8, 9, 10, 11, 12, 13, 14]);
    assert_eq!(id.as_bytes(), &[1, 2, 3, 4, 5, 6, 7, 8, 9, 10, 11, 12]);
    assert_eq!(
        id,
        TransactionId::from_bytes(&[1, 2, 3, 4, 5, 6, 7, 8, 9, 10, 11, 12])
    );
    assert_ne!(
        id,
        TransactionId::from_bytes(&[1, 2, 3, 4, 5, 6, 7, 8, 9, 10, 11, 13])
    );
    let random = TransactionId::random();
    assert_eq!(random.as_bytes().len(), 12);
    assert_eq!(TransactionId::from_bytes(random.as_bytes()), random);
}

#[test]
fn test_message_class_numbers() {
    assert_eq!(u16::from(MessageClass::Request), 0);
    assert_eq!(u16::from(MessageClass::Indication), 1);
    assert_eq!(u16::from(MessageClass::SuccessResponse), 2);
    assert_eq!(u16::from(MessageClass::ErrorResponse), 3);
    assert_eq!(MessageClass::try_from(0), Ok(MessageClass::Request));
    assert_eq!(MessageClass::try_from(1), Ok(MessageClass::Indication));
    assert_eq!(MessageClass::try_from(2), Ok(MessageClass::SuccessResponse));
    assert_eq!(MessageClass::try_from(3), Ok(MessageClass::ErrorResponse));
    assert_eq!(
        MessageClass::try_from(4),
        Err(MessageDecodeError::InvalidMessageClass)
    );
}

#[test]
fn test_message_method_numbers() {
    assert_eq!(u16::from(MessageMethod::binding()), 1);
    assert_eq!(MessageMethod::BINDING, 1);
    assert_eq!(MessageMethod::try_from_u16(4095).unwrap().to_u16(), 4095);
    assert_eq!(
        MessageMethod::try_from_u16(4096),
        Err(MessageDecodeError::InvalidMessageMethod)
    );
    assert_eq!(
        MessageMethod::try_from(65535),
        Err(MessageDecodeError::InvalidMessageMethod)
    );
    assert_eq!(
        MessageMethod::try_from(0).unwrap(),
        MessageMethod::try_from_u16(0).unwrap()
    );
}
