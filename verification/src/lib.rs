//! Encoding and decoding of STUN messages (RFC 5389), a small set of attribute
//! codecs, and a pure session state machine for NAT mapping probes.
//!
//! Every executable function carries a contract over a mathematical model of
//! the wire format: byte strings are `Seq<u8>`, each encoder has a spec
//! function that says what its bytes are, and each decoder one that says what
//! bytes decode to. That decoding undoes encoding is proved for the message
//! type field, the header, every attribute codec, sequences of attributes and
//! whole messages.
//!
//! ```
//! use bytes::BytesMut;
//! use stunne::attributes::SOFTWARE;
//! use stunne::encodings::Utf8Decoder;
//! use stunne::{
//!     MessageClass, MessageHeader, MessageMethod, StunDecoder, StunEncoder, TransactionId,
//! };
//!
//! // Create a buffer and encode a message into it.
//! let buf = BytesMut::with_capacity(1000);
//! let tx_id = TransactionId::random();
//! let bytes = StunEncoder::new(buf)
//!     .encode_header(MessageHeader {
//!         class: MessageClass::Request,
//!         method: MessageMethod::binding(),
//!         tx_id,
//!     })
//!     .add_attribute(SOFTWARE, &"Widget, Inc.")
//!     .unwrap()
//!     .finish();
//!
//! // `bytes` can now be sent to a socket. Here they are decoded again.
//! let message = StunDecoder::new(&bytes).unwrap();
//! assert_eq!(message.class(), MessageClass::Request);
//! assert_eq!(message.method(), MessageMethod::binding());
//! assert_eq!(message.tx_id(), tx_id);
//! let attribute = message.attributes().next().unwrap().unwrap();
//! assert_eq!(attribute.attribute_type(), SOFTWARE);
//! assert_eq!(attribute.decode(&Utf8Decoder::default()).unwrap(), "Widget, Inc.");
//! ```
//!
//! The buffers are those of the `bytes` crate. What its methods do is stated
//! in [`buffer`] and believed; everything else is proved.

pub mod attributes;
pub mod buffer;
pub mod decoder;
pub mod encoder;
pub mod encodings;
pub mod errors;
pub mod ext;
pub mod header;
pub mod message;
pub mod net;
pub mod protocol;
pub mod sessions;
pub mod utils;

pub use decoder::StunDecoder;
pub use encoder::{StunAttributeEncoder, StunEncoder};
pub use header::MessageHeader;
pub use message::{MessageClass, MessageMethod, TransactionId};
