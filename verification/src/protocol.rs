//! A client's view of the protocol: the one request that a client sends, and
//! the header of a datagram that it receives.
//!
//! The header is read as the numbers that it holds. The length that it states
//! must be the number of bytes that follow it.

use vstd::prelude::*;
use crate::attributes::mapped_address::transaction_id_value;
use crate::decoder::parse_message;
use crate::errors::MessageDecodeError;
use crate::header::{magic_cookie, MAGIC_COOKIE};
use crate::message::{MessageClass, MessageMethod, TransactionId};
use crate::utils::{
    lemma_type_values_in_range, lemma_u128_upper_bytes_zero, read_u128_be, read_u16_be, type_class_value, type_method_value,
    u128_from_be, u16_from_be,
};

verus! {

/// The type field of a binding request.
pub const BINDING_REQUEST: [u8; 2] = [0x00, 0x01];

/// The number of bytes in a header.
pub const STUN_HEADER_BYTES: usize = 20;

/// The class for a given STUN message.
#[derive(Debug, Clone, Copy, PartialEq, Eq)]
pub enum StunClass {
    Request,
    Indication,
    SuccessResponse,
    ErrorResponse,
}

/// A binding request without attributes.
pub struct StunRequest {
    buf: [u8; 20],
}

impl View for StunRequest {
    type V = Seq<u8>;

    /// The bytes of the request.
    closed spec fn view(&self) -> Seq<u8> {
        self.buf@
    }
}

/// The bytes of a binding request without attributes: the type of a binding
/// request, a length of zero, the magic cookie and the transaction ID.
pub open spec fn binding_request_bytes(transaction_id: Seq<u8>) -> Seq<u8>
    recommends
        transaction_id.len() == 12,
{
    seq![0x00u8, 0x01u8, 0x00u8, 0x00u8] + magic_cookie() + transaction_id
}

impl StunRequest {
    /// The binding request with the given transaction ID, which is to be
    /// twelve bytes from a cryptographically secure random source.
    pub fn new(transaction_id: [u8; 12]) -> (request: Self)
        ensures
            request@ == binding_request_bytes(transaction_id@),
    {
        let buf: [u8; 20] = [
            BINDING_REQUEST[0],
            BINDING_REQUEST[1],
            0,
            0,
            MAGIC_COOKIE[0],
            MAGIC_COOKIE[1],
            MAGIC_COOKIE[2],
            MAGIC_COOKIE[3],
            transaction_id[0],
            transaction_id[1],
            transaction_id[2],
            transaction_id[3],
            transaction_id[4],
            transaction_id[5],
            transaction_id[6],
            transaction_id[7],
            transaction_id[8],
            transaction_id[9],
            transaction_id[10],
            transaction_id[11],
        ];
        assert(buf@ =~= binding_request_bytes(transaction_id@));
        StunRequest { buf }
    }

    /// The bytes of the request.
    pub fn bytes(&self) -> (bytes: &[u8])
        ensures
            bytes@ == self@,
    {
        &self.buf
    }
}

/// Gives the reason that the header of a datagram could not be parsed.
#[derive(Debug, Clone, Copy, PartialEq, Eq)]
pub enum HeaderParseError {
    /// Every STUN header must start with two zero bits. This error is raised if
    /// either of those two bits are set.
    NonZeroStartingBits,
    /// The byte slice that the header was to be parsed from was too small.
    ///
    /// Each STUN header is 20 bytes. Therefore, attempting to read bytes from a
    /// slice less than 20 bytes in size will never succeed.
    InvalidSize,
    /// The magic cookie field did not have the fixed value of 0x2112A442.
    InvalidMagicCookie,
    /// The length of the message indicated by the STUN header would be larger
    /// than the byte slice would have room for.
    LengthExceedsSlice,
    /// The length of the message indicated by the STUN header would be smaller
    /// than the byte slice allows.
    SliceExceedsLength,
}

/// The header of a datagram, as the numbers that it holds.
#[derive(Debug, Clone, Copy, PartialEq, Eq)]
pub struct StunHeader {
    /// The class of the message.
    pub class: StunClass,
    /// Always zero: the method is in `message_type`.
    pub method: u16,
    /// The length of the attributes.
    pub length: u16,
    /// The 12 bits of the type field that are the method.
    pub message_type: u16,
    /// The transaction ID as one number, its first byte the most significant.
    pub transaction_id: u128,
}

/// The class that the two class bits of a type field stand for.
pub open spec fn stun_class(type_value: u16) -> StunClass {
    let value = type_class_value(type_value);
    if value == 0 {
        StunClass::Request
    } else if value == 1 {
        StunClass::Indication
    } else if value == 2 {
        StunClass::SuccessResponse
    } else {
        StunClass::ErrorResponse
    }
}

/// What the bytes of a datagram parse to: the header and the bytes of the
/// attributes, or the first check that fails. The checks are, in order: there
/// are 20 bytes for a header, the two upper bits of the first byte are zero,
/// bytes 4 to 7 are the magic cookie, and the length that the header states
/// is neither more nor less than the number of bytes that follow it.
pub open spec fn parse_datagram(bytes: Seq<u8>) -> Result<(StunHeader, Seq<u8>), HeaderParseError> {
    if bytes.len() < 20 {
        Err(HeaderParseError::InvalidSize)
    } else if bytes[0] >= 0x40 {
        Err(HeaderParseError::NonZeroStartingBits)
    } else if bytes.subrange(4, 8) != magic_cookie() {
        Err(HeaderParseError::InvalidMagicCookie)
    } else if bytes.len() - 20 < u16_from_be(bytes[2], bytes[3]) {
        Err(HeaderParseError::LengthExceedsSlice)
    } else if bytes.len() - 20 > u16_from_be(bytes[2], bytes[3]) {
        Err(HeaderParseError::SliceExceedsLength)
    } else {
        Ok(
            (
                StunHeader {
                    class: stun_class(u16_from_be(bytes[0], bytes[1])),
                    method: 0,
                    length: u16_from_be(bytes[2], bytes[3]),
                    message_type: type_method_value(u16_from_be(bytes[0], bytes[1])),
                    transaction_id: u128_from_be(
                        seq![0u8, 0u8, 0u8, 0u8] + bytes.subrange(8, 20),
                    ),
                },
                bytes.subrange(20, bytes.len() as int),
            ),
        )
    }
}

/// The class of a header as the message decoder names it.
pub open spec fn message_class(class: StunClass) -> MessageClass {
    match class {
        StunClass::Request => MessageClass::Request,
        StunClass::Indication => MessageClass::Indication,
        StunClass::SuccessResponse => MessageClass::SuccessResponse,
        StunClass::ErrorResponse => MessageClass::ErrorResponse,
    }
}

/// Whether two errors name the same failed check.
pub open spec fn same_error(header_error: HeaderParseError, message_error: MessageDecodeError) -> bool {
    match header_error {
        HeaderParseError::InvalidSize => message_error == MessageDecodeError::UnexpectedEndOfData,
        HeaderParseError::NonZeroStartingBits => message_error
            == MessageDecodeError::NonZeroStartingBits,
        HeaderParseError::InvalidMagicCookie => message_error
            == MessageDecodeError::InvalidMagicCookie,
        HeaderParseError::LengthExceedsSlice => message_error
            == MessageDecodeError::LengthExceedsSlice,
        HeaderParseError::SliceExceedsLength => message_error
            == MessageDecodeError::SliceExceedsLength,
    }
}

/// A datagram parses here if and only if the message decoder decodes it, and
/// both find the same in it: the same class, method, length, transaction ID
/// and attributes, or the same failed check.
pub proof fn lemma_datagram_is_message(bytes: Seq<u8>)
    ensures
        match parse_datagram(bytes) {
            Ok((header, attributes)) => parse_message(bytes) matches Ok(message) && {
                &&& message.attributes == attributes
                &&& message.header.class == message_class(header.class)
                &&& message.header.method.value() == header.message_type
                &&& transaction_id_value(message.header.tx_id) == header.transaction_id
                &&& attributes.len() == header.length
                &&& header.method == 0
            },
            Err(header_error) => parse_message(bytes) matches Err(message_error) && same_error(
                header_error,
                message_error,
            ),
        },
{
    if bytes.len() >= 20 {
        let head = bytes.subrange(0, 20);
        assert(head[0] == bytes[0] && head[1] == bytes[1] && head[2] == bytes[2] && head[3]
            == bytes[3]);
        assert(head.subrange(4, 8) =~= bytes.subrange(4, 8));
        assert(head.subrange(8, 20) =~= bytes.subrange(8, 20));
        let type_value = u16_from_be(bytes[0], bytes[1]);
        lemma_type_values_in_range(type_value);
        MessageMethod::lemma_with_value(type_method_value(type_value));
        TransactionId::lemma_from_seq(bytes.subrange(8, 20));
        assert(bytes.subrange(8, 20).subrange(0, 12) =~= bytes.subrange(8, 20));
    }
}

impl StunHeader {
    /// Given a byte slice containing the full message, return information
    /// found in the header, as well as a byte slice that points to the
    /// attributes. The attributes are not parsed in any way, but they must
    /// have the length that the header states.
    pub fn from_bytes(buf: &[u8]) -> (result: Result<(Self, &[u8]), HeaderParseError>)
        ensures
            match result {
                Ok((header, attributes)) => parse_datagram(buf@) == Ok::<
                    (StunHeader, Seq<u8>),
                    HeaderParseError,
                >((header, attributes@)),
                Err(e) => parse_datagram(buf@) == Err::<(StunHeader, Seq<u8>), HeaderParseError>(e),
            },
            result matches Ok((header, _)) ==> header.transaction_id
                <= 0xffff_ffff_ffff_ffff_ffff_ffff,
    {
        if buf.len() < STUN_HEADER_BYTES {
            return Err(HeaderParseError::InvalidSize);
        }
        let first: u8 = buf[0];
        assert((first & 0b1100_0000) != 0 <==> first >= 0x40) by (bit_vector);
        if (first & 0b1100_0000) != 0 {
            return Err(HeaderParseError::NonZeroStartingBits);
        }
        if buf[4] != MAGIC_COOKIE[0] || buf[5] != MAGIC_COOKIE[1] || buf[6] != MAGIC_COOKIE[2]
            || buf[7] != MAGIC_COOKIE[3] {
            proof {
                let found = buf@.subrange(4, 8);
                assert(found[0] == buf@[4] && found[1] == buf@[5] && found[2] == buf@[6]
                    && found[3] == buf@[7]);
            }
            return Err(HeaderParseError::InvalidMagicCookie);
        }
        assert(buf@.subrange(4, 8) =~= magic_cookie());

        // The type field holds the method in 12 of its bits, around the two
        // bits that hold the class.
        let message_type: u16 = read_u16_be(buf[0], buf[1]);
        let class_bit_one: u16 = (message_type & 0b0000_0001_0000_0000) >> 7;
        let class_bit_two: u16 = (message_type & 0b0000_0000_0001_0000) >> 4;
        proof {
            lemma_type_values_in_range(message_type);
        }
        let class = match class_bit_one | class_bit_two {
            0b00 => StunClass::Request,
            0b01 => StunClass::Indication,
            0b10 => StunClass::SuccessResponse,
            _ => StunClass::ErrorResponse,
        };

        let message_type_first_bits: u16 = message_type & 0b0000_0000_0000_1111;
        let message_type_second_bits: u16 = (message_type & 0b0000_0000_1110_0000) >> 1;
        let message_type_third_bits: u16 = (message_type & 0b0011_1110_0000_0000) >> 2;
        let method_bits: u16 = message_type_third_bits | message_type_second_bits
            | message_type_first_bits;

        let length: u16 = read_u16_be(buf[2], buf[3]);
        let attribute_len: usize = buf.len() - STUN_HEADER_BYTES;
        if attribute_len < length as usize {
            return Err(HeaderParseError::LengthExceedsSlice);
        }
        if attribute_len > length as usize {
            return Err(HeaderParseError::SliceExceedsLength);
        }
        let transaction_id_buf: [u8; 16] = [
            0,
            0,
            0,
            0,
            buf[8],
            buf[9],
            buf[10],
            buf[11],
            buf[12],
            buf[13],
            buf[14],
            buf[15],
            buf[16],
            buf[17],
            buf[18],
            buf[19],
        ];
        assert(transaction_id_buf@ =~= seq![0u8, 0u8, 0u8, 0u8] + buf@.subrange(8, 20));
        let transaction_id: u128 = read_u128_be(&transaction_id_buf);
        proof {
            lemma_u128_upper_bytes_zero(transaction_id_buf@);
        }
        let attribute_bytes: &[u8] = &buf[20..buf.len()];

        Ok(
            (
                StunHeader { method: 0, length, class, message_type: method_bits, transaction_id },
                attribute_bytes,
            ),
        )
    }
}

} // verus!
