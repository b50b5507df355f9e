use bytes::BytesMut;
use stunne::attributes::{CHANGE_REQUEST, SOFTWARE, XOR_MAPPED_ADDRESS};
use stunne::encodings::{
    ChangeRequest, ChangeRequestDecoder, MappedAddress, Utf8Decoder, XorMappedAddress,
};
use stunne::ext::SocketAddrExt;
use stunne::net::{IpAddr, SocketAddr};
use stunne::{
    MessageClass, MessageHeader, MessageMethod, StunDecoder, StunEncoder, TransactionId,
};

const MAPPED_ADDRESS: u16 = 0x01;

#[test]
pub fn simple_test() {
    let buf = BytesMut::with_capacity(1024);
    let header = MessageHeader {
        class: MessageClass::Request,
        method: MessageMethod::binding(),
        tx_id: TransactionId::random(),
    };
    // 127.0.0.1:8000
    let address: SocketAddr = SocketAddr::new(IpAddr::V4([127, 0, 0, 1]), 8000);

    let bytes = StunEncoder::new(buf)
        .encode_header(header.clone())
        .add_attribute(MAPPED_ADDRESS, &address.as_mapped_address())
        .unwrap()
        .finish();

    let decoded_message = StunDecoder::new(bytes.as_ref()).unwrap();
    let decoded_header = decoded_message.header();
    assert_eq!(header.class, decoded_header.class);
    assert_eq!(header.method, decoded_header.method);
    assert_eq!(header.tx_id, decoded_header.tx_id);

    let mut attribute_iterator = decoded_message.attributes();
    let first_attribute = attribute_iterator.next().unwrap().unwrap();
    assert_eq!(first_attribute.attribute_type(), MAPPED_ADDRESS);

    let decoded_address = first_attribute.decode(&MappedAddress::decoder()).unwrap();
    assert_eq!(decoded_address, address);

    assert!(attribute_iterator.next().is_none());
}

#[test]
fn test_attribute_type_constants() {
    assert_eq!(stunne::attributes::MAPPED_ADDRESS, 0x0001);
    assert_eq!(stunne::attributes::XOR_MAPPED_ADDRESS, 0x0020);
    assert_eq!(stunne::attributes::SOFTWARE, 0x8022);
    assert_eq!(stunne::attributes::CHANGE_REQUEST, 0x0003);
    assert_eq!(stunne::attributes::RESPONSE_ORIGIN, 0x802B);
    assert_eq!(stunne::attributes::OTHER_ADDRESS, 0x802C);
}

#[test]
fn test_software_attribute_example() {
    // Create a buffer and encode data to the buffer
    let buf = BytesMut::with_capacity(1000);
    let tx_id = TransactionId::random();
    let bytes = StunEncoder::new(buf)
        .encode_header(MessageHeader {
            class: MessageClass::Request,
            method: MessageMethod::binding(),
            tx_id,
        })
        .add_attribute(SOFTWARE, &"Widget, Inc.")
        .unwrap()
        .finish();

    let message = StunDecoder::new(&bytes).unwrap();
    assert_eq!(message.class(), MessageClass::Request);
    assert_eq!(message.method(), MessageMethod::binding());
    assert_eq!(message.tx_id(), tx_id);
    let attribute = message.attributes().next().unwrap().unwrap();
    assert_eq!(attribute.attribute_type(), SOFTWARE);
    assert_eq!(
        attribute.decode(&Utf8Decoder::default()).unwrap(),
        "Widget, Inc."
    );
}

#[test]
fn test_all_attributes_come_back_in_order() {
    let tx_id = TransactionId::from_bytes(&[9, 8, 7, 6, 5, 4, 3, 2, 1, 0, 1, 2]);
    let header = MessageHeader {
        class: MessageClass::SuccessResponse,
        method: MessageMethod::binding(),
        tx_id,
    };
    let v4 = SocketAddr::new(IpAddr::V4([192, 0, 2, 1]), 3478);
    let v6 = SocketAddr::new(
        IpAddr::V6([0x20, 0x01, 0x0d, 0xb8, 0, 0, 0, 0, 0, 0, 0, 0, 0, 0, 0, 1]),
        40013,
    );
    let request = ChangeRequest {
        change_ip: true,
        change_port: false,
    };
    let bytes = StunEncoder::new(BytesMut::new())
        .encode_header(header)
        .add_attribute(SOFTWARE, &"abc")
        .unwrap()
        .add_attribute(XOR_MAPPED_ADDRESS, &v6.as_xor_mapped_address(tx_id))
        .unwrap()
        .add_attribute(CHANGE_REQUEST, &request)
        .unwrap()
        .add_attribute(0x7777, &"")
        .unwrap()
        .add_attribute(XOR_MAPPED_ADDRESS, &XorMappedAddress::encoder(v4, tx_id))
        .unwrap()
        .add_attribute(MAPPED_ADDRESS, &MappedAddress::encoder(v4))
        .unwrap()
        .finish();

    // 8 + 24 + 8 + 4 + 12 + 12 bytes of attributes
    assert_eq!(bytes.len(), 20 + 68);
    let message = StunDecoder::new(&bytes).unwrap();
    assert_eq!(*message.header(), header);
    let mut attributes = message.attributes();

    let attribute = attributes.next().unwrap().unwrap();
    assert_eq!(attribute.attribute_type(), SOFTWARE);
    assert_eq!(attribute.decode(&Utf8Decoder::default()), Ok("abc"));

    let attribute = attributes.next().unwrap().unwrap();
    assert_eq!(attribute.attribute_type(), XOR_MAPPED_ADDRESS);
    assert_eq!(attribute.decode(&XorMappedAddress::decoder(tx_id)), Ok(v6));

    let attribute = attributes.next().unwrap().unwrap();
    assert_eq!(attribute.attribute_type(), CHANGE_REQUEST);
    assert_eq!(
        attribute.decode(&ChangeRequestDecoder::default()),
        Ok(request)
    );

    let attribute = attributes.next().unwrap().unwrap();
    assert_eq!(attribute.attribute_type(), 0x7777);
    assert!(attribute.data.is_empty());

    let attribute = attributes.next().unwrap().unwrap();
    assert_eq!(attribute.attribute_type(), XOR_MAPPED_ADDRESS);
    assert_eq!(attribute.decode(&XorMappedAddress::decoder(tx_id)), Ok(v4));

    let attribute = attributes.next().unwrap().unwrap();
    assert_eq!(attribute.attribute_type(), MAPPED_ADDRESS);
    assert_eq!(attribute.decode(&MappedAddress::decoder()), Ok(v4));

    assert!(attributes.next().is_none());
}
