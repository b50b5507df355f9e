use bytes::BytesMut;
use stunne::encodings::{
    AttributeDecoder, AttributeEncoder, ChangeRequest, ChangeRequestDecodeError,
    ChangeRequestDecoder,
};

fn check_encoding(expected_cr: ChangeRequest, expected_bytes: &[u8]) {
    // Use a zero capacity to ensure that capacity will grow as necessary.
    let mut buf = BytesMut::with_capacity(0);

    expected_cr.encode(&mut buf);
    assert_eq!(
        expected_bytes,
        buf.as_ref(),
        "\n\nIncorrectly encoded change request:\n\t{:?}\n",
        expected_cr
    );

    let decoder = ChangeRequestDecoder::default();
    let result = decoder.decode(&expected_bytes);
    match result {
        Ok(cr) => {
            assert_eq!(
                expected_cr, cr,
                "\n\nIncorrectly decoded from bytes:\n\t{:?}\n",
                expected_bytes
            );
        }
        Err(e) => {
            panic!(
                "\n\nUnexpected error ({:?}) when decoding from bytes:\n\t{:?}\n",
                e, expected_bytes
            );
        }
    }
}

#[test]
fn test_valid_change_request() {
    let examples = [
        (
            ChangeRequest {
                change_ip: false,
                change_port: false,
            },
            [0, 0, 0, 0],
        ),
        (
            ChangeRequest {
                change_ip: false,
                change_port: true,
            },
            [0, 0, 0, 0b10],
        ),
        (
            ChangeRequest {
                change_ip: true,
                change_port: false,
            },
            [0, 0, 0, 0b100],
        ),
        (
            ChangeRequest {
                change_ip: true,
                change_port: true,
            },
            [0, 0, 0, 0b110],
        ),
    ];

    for (request, encoded_value) in examples {
        check_encoding(request, &encoded_value);
    }
}

#[test]
fn test_unexpected_end_of_data() {
    let decoder = ChangeRequestDecoder::default();
    let examples = [vec![], vec![0], vec![0, 0], vec![0, 0, 0]];

    for example in examples {
        let result = decoder.decode(&example);
        assert!(
            matches!(result, Err(ChangeRequestDecodeError::UnexpectedEndOfData)),
            "Did not raise error with example {:?}. Returned {:?}",
            example,
            result
        );
    }
}

#[test]
fn test_invalid_data_size_with_larger_than_necessary_slice() {
    let decoder = ChangeRequestDecoder::default();
    let examples = [
        vec![0, 0, 0, 0, 0],
        vec![0, 0, 0, 0, 0, 0, 0],
        vec![0, 0, 0, 0, 0, 0, 0, 0],
        vec![0, 0, 0, 0, 0, 0, 0, 0, 0],
    ];

    for example in examples {
        let result = decoder.decode(&example);
        assert!(
            matches!(result, Err(ChangeRequestDecodeError::InvalidDataSize)),
            "Did not raise error with example {:?}. Returned {:?}",
            example,
            result
        );
    }
}

#[test]
fn test_change_request_ignores_other_bits() {
    let decoder = ChangeRequestDecoder::default();
    assert_eq!(
        decoder.decode(&[0xff, 0xff, 0xff, 0xf9]),
        Ok(ChangeRequest {
            change_ip: false,
            change_port: false
        })
    );
    assert_eq!(
        decoder.decode(&[0xff, 0xff, 0xff, 0xff]),
        Ok(ChangeRequest {
            change_ip: true,
            change_port: true
        })
    );
    assert_eq!(
        decoder.decode(&[0x04, 0x02, 0x06, 0x01]),
        Ok(ChangeRequest {
            change_ip: false,
            change_port: false
        })
    );
}

#[test]
fn test_change_request_is_appended() {
    let mut buf = BytesMut::new();
    buf.extend_from_slice(&[9, 8]);
    ChangeRequest {
        change_ip: true,
        change_port: false,
    }
    .encode(&mut buf);
    assert_eq!(buf.as_ref(), &[9, 8, 0, 0, 0, 4]);
}
