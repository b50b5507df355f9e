//! The encoder of messages.
//!
//! A message is written in one pass. The encoder first sets 20 bytes aside for
//! the header, whose length field is not known yet, then appends the
//! attributes one by one, each behind a placeholder for its type and length
//! that is filled in once the value is written, and at last writes the header
//! into the bytes that were set aside.

use vstd::prelude::*;
use bytes::{Bytes, BytesMut};
use crate::attributes::{attribute_bytes, AttributeView};
use crate::buffer::{
    buf_bytes, buf_freeze, buf_len, buf_put_bytes, buf_put_u16, buf_reserve, buf_split_off,
    buf_truncate, buf_unsplit, frozen_bytes,
};
use crate::encodings::AttributeEncoder;
use crate::errors::MessageEncodeError;
use crate::header::{header_bytes, lemma_header_bytes_len, MessageHeader, STUN_HEADER_BYTES};
use crate::utils::{padded_len, padding_for_attribute_length};

verus! {

/// The byte that pads attributes.
pub const PADDING_VALUE: u8 = 0;

/// The number of bytes in front of an attribute's value.
pub const ATTRIBUTE_HEADER_BYTES: usize = 4;

/// The largest number that a 16-bit length field can state.
pub const MAX_LENGTH: usize = 65535;

/// Whether an attribute with a value of `value_len` bytes can be added to
/// attributes that take `data_len` bytes: the length field of the attribute
/// can state `value_len`, and the length field of the header can state the
/// length of all attributes together.
pub open spec fn attribute_fits(data_len: nat, value_len: nat) -> bool {
    value_len <= 65535 && data_len + 4 + padded_len(value_len) <= 65535
}

/// Provides an interface that can be used to encode a STUN message into a
/// supplied buffer.
///
/// The encoder reserves more bytes from the buffer as needed. Allocations can
/// be avoided if the buffer is given a sufficient starting capacity.
pub struct StunEncoder {
    buf: BytesMut,
}

impl StunEncoder {
    /// The bytes that the buffer held when it was handed over. They stay in
    /// front of the message.
    pub closed spec fn buffered(&self) -> Seq<u8> {
        buf_bytes(self.buf)
    }

    /// Create the encoder with the given buffer.
    pub fn new(buf: BytesMut) -> (encoder: StunEncoder)
        ensures
            encoder.buffered() == buf_bytes(buf),
    {
        Self { buf }
    }

    /// Associates the given header information to be written to the buffer.
    ///
    /// The header is not written when this method is called, as the length of
    /// the attributes must be written with it. It is written by
    /// [`StunAttributeEncoder::finish`], into 20 bytes that are set aside for
    /// it here.
    ///
    /// The buffer must leave room for a whole message: no more than
    /// `isize::MAX` bytes fit into a buffer.
    pub fn encode_header(self, header: MessageHeader) -> (encoder: StunAttributeEncoder)
        requires
            self.buffered().len() + 20 + 65535 <= isize::MAX,
        ensures
            encoder.prefix() == self.buffered(),
            encoder.header() == header,
            encoder.data() == Seq::<u8>::empty(),
    {
        let StunEncoder { buf } = self;
        let mut header_buf = buf;
        let ghost prefix = buf_bytes(header_buf);
        let start: usize = buf_len(&header_buf);
        buf_reserve(&mut header_buf, STUN_HEADER_BYTES);
        buf_put_bytes(&mut header_buf, PADDING_VALUE, STUN_HEADER_BYTES);
        let data_buf = buf_split_off(&mut header_buf, start + STUN_HEADER_BYTES);
        proof {
            assert(buf_bytes(header_buf).subrange(0, start as int) =~= prefix);
            assert(buf_bytes(data_buf) =~= Seq::<u8>::empty());
        }
        StunAttributeEncoder { header_buf, buf: data_buf, next_attribute_byte: 0, header }
    }
}

/// The encoder of a message whose header is known: it takes the attributes.
pub struct StunAttributeEncoder {
    header_buf: BytesMut,
    buf: BytesMut,
    next_attribute_byte: usize,
    header: MessageHeader,
}

impl StunAttributeEncoder {
    /// The 20 bytes for the header are set aside behind the prefix, the
    /// attributes take no more bytes than the header can state, and the whole
    /// message fits into a buffer.
    #[verifier::type_invariant]
    closed spec fn wf(self) -> bool {
        &&& buf_bytes(self.header_buf).len() >= 20
        &&& buf_bytes(self.header_buf).len() + 65535 <= isize::MAX
        &&& self.next_attribute_byte == buf_bytes(self.buf).len()
        &&& buf_bytes(self.buf).len() <= 65535
    }

    /// The bytes that stay in front of the message.
    pub closed spec fn prefix(&self) -> Seq<u8> {
        buf_bytes(self.header_buf).subrange(0, buf_bytes(self.header_buf).len() - 20)
    }

    /// The header of the message.
    pub closed spec fn header(&self) -> MessageHeader {
        self.header
    }

    /// The wire form of the attributes added so far.
    pub closed spec fn data(&self) -> Seq<u8> {
        buf_bytes(self.buf)
    }

    /// Appends an attribute of the given type, whose value is what `encoder`
    /// writes, with its padding.
    ///
    /// The attribute is refused with `InvalidDataSize`, and the message given
    /// up, if its value is longer than 65535 bytes or if the attributes would
    /// then take more than 65535 bytes together. Nothing is ever truncated.
    pub fn add_attribute<T: AttributeEncoder>(self, attribute_type: u16, encoder: &T) -> (result:
        Result<Self, MessageEncodeError>)
        requires
            encoder.encoding().len() <= isize::MAX,
        ensures
            result is Ok <==> attribute_fits(self.data().len(), encoder.encoding().len()),
            result matches Ok(next) ==> {
                &&& next.prefix() == self.prefix()
                &&& next.header() == self.header()
                &&& next.data() == self.data() + attribute_bytes(
                    AttributeView { attribute_type, value: encoder.encoding() },
                )
            },
            result matches Err(e) ==> e == MessageEncodeError::InvalidDataSize,
    {
        proof {
            use_type_invariant(&self);
        }
        let StunAttributeEncoder { header_buf, buf, next_attribute_byte, header } = self;
        let mut buf = buf;
        let ghost data = buf_bytes(buf);
        let ghost value = encoder.encoding();

        let mut attribute_header = buf_split_off(&mut buf, next_attribute_byte);
        buf_reserve(&mut attribute_header, ATTRIBUTE_HEADER_BYTES);
        buf_put_bytes(&mut attribute_header, PADDING_VALUE, ATTRIBUTE_HEADER_BYTES);

        let mut attribute_data = buf_split_off(&mut attribute_header, ATTRIBUTE_HEADER_BYTES);
        encoder.encode(&mut attribute_data);
        let attribute_length: usize = buf_len(&attribute_data);
        assert(buf_bytes(attribute_data) =~= value);
        if attribute_length > MAX_LENGTH {
            return Err(MessageEncodeError::InvalidDataSize);
        }
        // Add additional padding onto the attribute value if necessary
        let padding_length: usize = padding_for_attribute_length(attribute_length);
        let end: usize = next_attribute_byte + ATTRIBUTE_HEADER_BYTES + attribute_length
            + padding_length;
        if end > MAX_LENGTH {
            return Err(MessageEncodeError::InvalidDataSize);
        }
        buf_reserve(&mut attribute_data, padding_length);
        buf_put_bytes(&mut attribute_data, PADDING_VALUE, padding_length);

        // Write to the attribute "header"
        buf_truncate(&mut attribute_header, 0);
        buf_put_u16(&mut attribute_header, attribute_type);
        buf_put_u16(&mut attribute_header, attribute_length as u16);

        // Put all of the split items back together again.
        buf_unsplit(&mut attribute_header, attribute_data);
        buf_unsplit(&mut buf, attribute_header);
        proof {
            assert(buf_bytes(buf) =~= data + attribute_bytes(
                AttributeView { attribute_type, value },
            ));
        }
        Ok(StunAttributeEncoder { header_buf, buf, next_attribute_byte: end, header })
    }

    /// Writes the header, with the length of the attributes in it, and returns
    /// the bytes: the prefix, the header and the attributes.
    pub fn finish(self) -> (bytes: Bytes)
        ensures
            frozen_bytes(bytes) == self.prefix() + header_bytes(
                self.header(),
                self.data().len() as u16,
            ) + self.data(),
            self.data().len() <= 65535,
    {
        proof {
            use_type_invariant(&self);
        }
        let StunAttributeEncoder { header_buf, buf, header, .. } = self;
        let mut header_buf = header_buf;
        let prefix_len: usize = buf_len(&header_buf) - STUN_HEADER_BYTES;
        let data_length: usize = buf_len(&buf);
        buf_truncate(&mut header_buf, prefix_len);
        header.encode_with_length(&mut header_buf, data_length as u16);
        proof {
            lemma_header_bytes_len(header, data_length as u16);
        }
        buf_unsplit(&mut header_buf, buf);
        buf_freeze(header_buf)
    }
}

} // verus!
