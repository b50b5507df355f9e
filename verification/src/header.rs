//! The 20-byte header that starts every STUN message.

use vstd::prelude::*;
use bytes::BytesMut;
use crate::buffer::{buf_bytes, buf_extend_from_slice, buf_put_u16, buf_reserve};
use crate::errors::MessageDecodeError;
use crate::message::{MessageClass, MessageMethod, TransactionId};
use crate::utils::{
    decode_message_type, encode_message_type, lemma_message_type_roundtrip,
    lemma_u16_be_roundtrip, message_type, read_u16_be, type_class, type_method, u16_be_bytes,
    u16_from_be,
};

verus! {

/// The number of bytes in a header.
pub const STUN_HEADER_BYTES: usize = 20;

/// Magic data that must be included in all STUN messages to clarify that the
/// message uses RFC 5389, rather than the outdated RFC 3489.
pub const MAGIC_COOKIE: [u8; 4] = [0x21, 0x12, 0xA4, 0x42];

/// The four bytes of the magic cookie, `0x2112A442` in big endian form.
pub open spec fn magic_cookie() -> Seq<u8> {
    seq![0x21u8, 0x12u8, 0xA4u8, 0x42u8]
}

/// Represents contextual values in a STUN header: the message class, the
/// method and the transaction ID. The magic cookie and the message length are
/// part of the wire form only.
#[derive(Debug, Clone, Copy, PartialEq, Eq)]
pub struct MessageHeader {
    pub class: MessageClass,
    pub method: MessageMethod,
    pub tx_id: TransactionId,
}

/// The wire form of a header in front of `data_length` bytes of attributes:
/// the type field, the length, the magic cookie and the transaction ID.
pub open spec fn header_bytes(header: MessageHeader, data_length: u16) -> Seq<u8> {
    u16_be_bytes(message_type(header.class, header.method)) + u16_be_bytes(data_length)
        + magic_cookie() + header.tx_id@
}

/// What the first 20 bytes of a message decode to: the header and the length
/// that it states, or the first check that fails. The checks are, in order:
/// the two upper bits of the first byte are zero, and bytes 4 to 7 are the
/// magic cookie. The type field of a header that passes both always holds a
/// class and a method.
pub open spec fn parse_header(bytes: Seq<u8>) -> Result<(MessageHeader, u16), MessageDecodeError>
    recommends
        bytes.len() >= 20,
{
    if bytes[0] >= 0x40 {
        Err(MessageDecodeError::NonZeroStartingBits)
    } else if bytes.subrange(4, 8) != magic_cookie() {
        Err(MessageDecodeError::InvalidMagicCookie)
    } else {
        Ok(
            (
                MessageHeader {
                    class: type_class(u16_from_be(bytes[0], bytes[1])),
                    method: type_method(u16_from_be(bytes[0], bytes[1])),
                    tx_id: TransactionId::from_seq(bytes.subrange(8, 20)),
                },
                u16_from_be(bytes[2], bytes[3]),
            ),
        )
    }
}

/// `bytes` with bit `bit` of the byte at `index` flipped.
pub open spec fn with_bit_flipped(bytes: Seq<u8>, index: int, bit: u8) -> Seq<u8>
    recommends
        0 <= index < bytes.len(),
        bit < 8,
{
    bytes.update(index, bytes[index] ^ (1u8 << bit))
}

/// A header is 20 bytes long on the wire.
pub proof fn lemma_header_bytes_len(header: MessageHeader, data_length: u16)
    ensures
        header_bytes(header, data_length).len() == 20,
{
    header.tx_id.lemma_len();
}

/// Decoding the bytes that a header and a length were encoded to gives both
/// back, for every header and every length.
pub proof fn lemma_header_roundtrip(header: MessageHeader, data_length: u16)
    requires
        header.method.wf(),
    ensures
        parse_header(header_bytes(header, data_length)) == Ok::<
            (MessageHeader, u16),
            MessageDecodeError,
        >((header, data_length)),
{
    let bytes = header_bytes(header, data_length);
    let type_value = message_type(header.class, header.method);
    header.tx_id.lemma_len();
    lemma_message_type_roundtrip(header.class, header.method);
    lemma_u16_be_roundtrip(type_value);
    lemma_u16_be_roundtrip(data_length);
    assert(bytes[0] == u16_be_bytes(type_value)[0]);
    assert(bytes[1] == u16_be_bytes(type_value)[1]);
    assert(bytes[2] == u16_be_bytes(data_length)[0]);
    assert(bytes[3] == u16_be_bytes(data_length)[1]);
    assert(bytes.subrange(4, 8) =~= magic_cookie());
    assert(bytes.subrange(8, 20) =~= header.tx_id@);
    header.tx_id.lemma_view_of();
}

/// Twenty bytes whose first byte has one of its two upper bits set do not
/// decode: the error is `NonZeroStartingBits`, whatever the other bytes are.
pub proof fn lemma_starting_bits_rejected(bytes: Seq<u8>)
    requires
        bytes.len() >= 20,
        bytes[0] >= 0x40,
    ensures
        parse_header(bytes) == Err::<(MessageHeader, u16), MessageDecodeError>(
            MessageDecodeError::NonZeroStartingBits,
        ),
{
}

/// A header whose magic cookie has any single bit flipped does not decode: the
/// error is `InvalidMagicCookie`.
pub proof fn lemma_cookie_bit_flip_rejected(bytes: Seq<u8>, index: int, bit: u8)
    requires
        bytes.len() >= 20,
        bytes[0] < 0x40,
        bytes.subrange(4, 8) == magic_cookie(),
        4 <= index < 8,
        bit < 8,
    ensures
        parse_header(with_bit_flipped(bytes, index, bit)) == Err::<
            (MessageHeader, u16),
            MessageDecodeError,
        >(MessageDecodeError::InvalidMagicCookie),
{
    let flipped = with_bit_flipped(bytes, index, bit);
    let byte = bytes[index];
    assert(bit < 8 ==> byte ^ (1u8 << bit) != byte) by (bit_vector);
    assert(flipped.subrange(4, 8)[index - 4] == flipped[index]);
    assert(bytes.subrange(4, 8)[index - 4] == bytes[index]);
}

impl MessageHeader {
    /// Encodes the header into a buffer, with `data_length` as the length of
    /// the attributes that follow it.
    pub fn encode_with_length(&self, buf: &mut BytesMut, data_length: u16)
        requires
            buf_bytes(*old(buf)).len() + 20 <= isize::MAX,
        ensures
            buf_bytes(*final(buf)) == buf_bytes(*old(buf)) + header_bytes(*self, data_length),
    {
        let ghost before = buf_bytes(*buf);
        buf_reserve(buf, STUN_HEADER_BYTES);
        let type_bytes: [u8; 2] = encode_message_type(self.class, self.method);
        buf_extend_from_slice(buf, &type_bytes);
        buf_put_u16(buf, data_length);
        buf_extend_from_slice(buf, &MAGIC_COOKIE);
        buf_extend_from_slice(buf, self.tx_id.as_bytes());
        proof {
            self.tx_id.lemma_len();
            assert(MAGIC_COOKIE@ =~= magic_cookie());
            assert(buf_bytes(*buf) =~= before + header_bytes(*self, data_length));
        }
    }

    /// Decodes the header of a message from its first 20 bytes. Returns the
    /// header, and separately the length of the attributes as the header
    /// states it, which is not held against anything here.
    pub fn decode_with_length(buf: &[u8; 20]) -> (result: Result<
        (MessageHeader, u16),
        MessageDecodeError,
    >)
        ensures
            result == parse_header(buf@),
            buf@[0] >= 0x40 ==> result == Err::<(MessageHeader, u16), MessageDecodeError>(
                MessageDecodeError::NonZeroStartingBits,
            ),
            result matches Ok((header, _)) ==> header.method.wf(),
    {
        let first: u8 = buf[0];
        assert((first & 0b1100_0000) != 0 <==> first >= 0x40) by (bit_vector);
        if (first & 0b1100_0000) != 0 {
            return Err(MessageDecodeError::NonZeroStartingBits);
        }
        if buf[4] != MAGIC_COOKIE[0] || buf[5] != MAGIC_COOKIE[1] || buf[6] != MAGIC_COOKIE[2]
            || buf[7] != MAGIC_COOKIE[3] {
            proof {
                let found = buf@.subrange(4, 8);
                assert(found[0] == buf@[4] && found[1] == buf@[5] && found[2] == buf@[6]
                    && found[3] == buf@[7]);
            }
            return Err(MessageDecodeError::InvalidMagicCookie);
        }
        assert(buf@.subrange(4, 8) =~= magic_cookie());
        let type_bytes: [u8; 2] = [buf[0], buf[1]];
        let (class, method) = match decode_message_type(type_bytes) {
            Ok(decoded) => decoded,
            Err(e) => { return Err(e); },
        };
        let length: u16 = read_u16_be(buf[2], buf[3]);
        let tx_id = TransactionId::from_bytes(&buf[8..20]);
        proof {
            use_type_invariant(&method);
        }
        Ok((MessageHeader { class, method, tx_id }, length))
    }
}

} // verus!
