//! The CHANGE-REQUEST attribute: a 32-bit value of which two bits are flags.

use vstd::prelude::*;
use bytes::BytesMut;
use crate::buffer::{buf_put_u32, buf_reserve};
use crate::encodings::{AttributeDecoder, AttributeEncoder};
use crate::utils::{read_u32_be, u32_be_bytes};

verus! {

/// The bit that asks the server to answer from another IP address.
pub const CHANGE_IP: u32 = 0b100;

/// The bit that asks the server to answer from another port.
pub const CHANGE_PORT: u32 = 0b10;

/// The number of bytes in the value of a CHANGE-REQUEST attribute.
pub const CHANGE_REQUEST_BYTES: usize = 4;

/// Gives the reason that a CHANGE-REQUEST attribute's value could not be
/// decoded.
#[derive(Debug, Clone, Copy, PartialEq, Eq)]
pub enum ChangeRequestDecodeError {
    /// The value has fewer than four bytes.
    UnexpectedEndOfData,
    /// The value has more than four bytes.
    InvalidDataSize,
}

/// What a client asks the server to change for its answer.
#[derive(Debug, Copy, Clone, PartialEq, Eq)]
pub struct ChangeRequest {
    pub change_ip: bool,
    pub change_port: bool,
}

/// The 32-bit value of a request: bit `0x4` is set if and only if the IP
/// address is to change, bit `0x2` if and only if the port is, and no other
/// bit is set.
pub open spec fn change_request_value(request: ChangeRequest) -> u32 {
    if request.change_ip && request.change_port {
        0b110
    } else if request.change_ip {
        0b100
    } else if request.change_port {
        0b010
    } else {
        0
    }
}

/// What the value of a CHANGE-REQUEST attribute decodes to. The value must
/// have exactly four bytes. Of these only the two flags are read, which are
/// both in the last byte.
pub open spec fn parse_change_request(bytes: Seq<u8>) -> Result<
    ChangeRequest,
    ChangeRequestDecodeError,
> {
    if bytes.len() < 4 {
        Err(ChangeRequestDecodeError::UnexpectedEndOfData)
    } else if bytes.len() > 4 {
        Err(ChangeRequestDecodeError::InvalidDataSize)
    } else {
        Ok(ChangeRequest { change_ip: bytes[3] & 4 != 0, change_port: bytes[3] & 2 != 0 })
    }
}

impl AttributeEncoder for ChangeRequest {
    open spec fn encoding(&self) -> Seq<u8> {
        u32_be_bytes(change_request_value(*self))
    }

    fn encode(&self, dst: &mut BytesMut) {
        buf_reserve(dst, CHANGE_REQUEST_BYTES);

        let mut value: u32 = 0;
        if self.change_ip {
            value += CHANGE_IP;
        }
        if self.change_port {
            value += CHANGE_PORT;
        }
        buf_put_u32(dst, value);
    }
}

/// Reads the value of a CHANGE-REQUEST attribute.
pub struct ChangeRequestDecoder;

impl Default for ChangeRequestDecoder {
    fn default() -> Self {
        ChangeRequestDecoder
    }
}

impl AttributeDecoder<'_> for ChangeRequestDecoder {
    type Item = ChangeRequest;

    type Error = ChangeRequestDecodeError;

    open spec fn decodes(
        &self,
        bytes: Seq<u8>,
        result: Result<ChangeRequest, ChangeRequestDecodeError>,
    ) -> bool {
        result == parse_change_request(bytes)
    }

    fn decode(&self, buf: &[u8]) -> (result: Result<ChangeRequest, ChangeRequestDecodeError>) {
        if buf.len() < CHANGE_REQUEST_BYTES {
            return Err(ChangeRequestDecodeError::UnexpectedEndOfData);
        }
        if buf.len() > CHANGE_REQUEST_BYTES {
            return Err(ChangeRequestDecodeError::InvalidDataSize);
        }
        let value: u32 = read_u32_be(buf[0], buf[1], buf[2], buf[3]);
        let change_ip: bool = (value & CHANGE_IP) != 0;
        let change_port: bool = (value & CHANGE_PORT) != 0;
        proof {
            let (b0, b1, b2, b3) = (buf[0], buf[1], buf[2], buf[3]);
            assert(value & 0b100 != 0 <==> b3 & 4 != 0) by (bit_vector)
                requires
                    value == (b0 as u32) * 0x100_0000 + (b1 as u32) * 0x1_0000 + (b2 as u32)
                        * 0x100 + (b3 as u32),
            ;
            assert(value & 0b10 != 0 <==> b3 & 2 != 0) by (bit_vector)
                requires
                    value == (b0 as u32) * 0x100_0000 + (b1 as u32) * 0x1_0000 + (b2 as u32)
                        * 0x100 + (b3 as u32),
            ;
        }
        Ok(ChangeRequest { change_ip, change_port })
    }
}

/// A request that is written and read again is the same request: the value
/// of every request is four bytes that decode to it.
pub proof fn lemma_change_request_roundtrip(request: ChangeRequest)
    ensures
        request.encoding().len() == 4,
        parse_change_request(request.encoding()) == Ok::<ChangeRequest, ChangeRequestDecodeError>(
            request,
        ),
{
    assert(4u8 & 4 != 0 && 4u8 & 2 == 0 && 2u8 & 4 == 0 && 2u8 & 2 != 0 && 6u8 & 4 != 0 && 6u8 & 2
        != 0 && 0u8 & 4 == 0 && 0u8 & 2 == 0) by (bit_vector);
}

} // verus!
