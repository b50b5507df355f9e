//! The decoder of messages.

use vstd::prelude::*;
use crate::attributes::{
    as_items, attributes_bytes, decode_attributes, lemma_attributes_roundtrip, AttributeView,
    StunAttributeIterator,
};
use crate::errors::MessageDecodeError;
use crate::header::{
    header_bytes, lemma_header_bytes_len, lemma_header_roundtrip, parse_header, MessageHeader,
    STUN_HEADER_BYTES,
};
use crate::message::{MessageClass, MessageMethod, TransactionId};

verus! {

/// What a message says: its header, and the bytes of its attributes.
pub struct MessageView {
    pub header: MessageHeader,
    pub attributes: Seq<u8>,
}

/// What the bytes of a datagram decode to: the header and the bytes of the
/// attributes, or the first check that fails. The checks are, in order: there
/// are 20 bytes for a header, the header decodes, and the length that it
/// states is the number of bytes behind it.
pub open spec fn parse_message(bytes: Seq<u8>) -> Result<MessageView, MessageDecodeError> {
    if bytes.len() < 20 {
        Err(MessageDecodeError::UnexpectedEndOfData)
    } else {
        match parse_header(bytes.subrange(0, 20)) {
            Err(e) => Err(e),
            Ok((header, length)) => if bytes.len() - 20 < length {
                Err(MessageDecodeError::LengthExceedsSlice)
            } else if bytes.len() - 20 > length {
                Err(MessageDecodeError::SliceExceedsLength)
            } else {
                Ok(MessageView { header, attributes: bytes.subrange(20, bytes.len() as int) })
            },
        }
    }
}

/// Bytes that are too few for a header do not decode: the error is
/// `UnexpectedEndOfData`.
pub proof fn lemma_short_message_rejected(bytes: Seq<u8>)
    requires
        bytes.len() < 20,
    ensures
        parse_message(bytes) == Err::<MessageView, MessageDecodeError>(
            MessageDecodeError::UnexpectedEndOfData,
        ),
{
}

/// Bytes that start with a byte of `0x40` or more do not decode: the error is
/// `NonZeroStartingBits` where there are bytes for a header, whatever they
/// are.
pub proof fn lemma_starting_bits_rejected(bytes: Seq<u8>)
    requires
        bytes.len() >= 20,
        bytes[0] >= 0x40,
    ensures
        parse_message(bytes) == Err::<MessageView, MessageDecodeError>(
            MessageDecodeError::NonZeroStartingBits,
        ),
{
    assert(bytes.subrange(0, 20)[0] == bytes[0]);
}

/// A header, written with the length of the bytes that follow it, decodes
/// with those bytes to the same header and the same bytes.
pub proof fn lemma_message_roundtrip(header: MessageHeader, data: Seq<u8>)
    requires
        header.method.wf(),
        data.len() <= 65535,
    ensures
        parse_message(header_bytes(header, data.len() as u16) + data) == Ok::<
            MessageView,
            MessageDecodeError,
        >(MessageView { header, attributes: data }),
{
    let head = header_bytes(header, data.len() as u16);
    let bytes = head + data;
    lemma_header_bytes_len(header, data.len() as u16);
    lemma_header_roundtrip(header, data.len() as u16);
    assert(bytes.subrange(0, 20) =~= head);
    assert(bytes.subrange(20, bytes.len() as int) =~= data);
}

/// A message that is encoded and decoded again has the same header and the
/// same attributes in the same order, each with its type and its value.
pub proof fn lemma_encode_decode_cycle(header: MessageHeader, attributes: Seq<AttributeView>)
    requires
        header.method.wf(),
        forall|i: int| 0 <= i < attributes.len() ==> (#[trigger] attributes[i]).value.len() <= 65535,
        attributes_bytes(attributes).len() <= 65535,
    ensures
        parse_message(
            header_bytes(header, attributes_bytes(attributes).len() as u16) + attributes_bytes(
                attributes,
            ),
        ) matches Ok(message) && message.header == header && decode_attributes(
            message.attributes,
        ) == as_items(attributes),
{
    lemma_message_roundtrip(header, attributes_bytes(attributes));
    lemma_attributes_roundtrip(attributes);
}

/// Used to decode a byte slice into a structured STUN message.
pub struct StunDecoder<'a> {
    header: MessageHeader,
    attribute_buf: &'a [u8],
}

impl<'a> View for StunDecoder<'a> {
    type V = MessageView;

    closed spec fn view(&self) -> MessageView {
        MessageView { header: self.header, attributes: self.attribute_buf@ }
    }
}

impl<'a> StunDecoder<'a> {
    /// Create a new decoder, passing in the byte slice to be decoded.
    ///
    /// This method immediately parses the header from the byte slice, and
    /// holds the length that it states against the number of bytes that
    /// follow it: a datagram holds one whole message. The attributes are not
    /// looked at: an error in them shows when they are iterated over.
    pub fn new(buf: &'a [u8]) -> (result: Result<Self, MessageDecodeError>)
        ensures
            match result {
                Ok(decoder) => parse_message(buf@) == Ok::<MessageView, MessageDecodeError>(
                    decoder@,
                ),
                Err(e) => parse_message(buf@) == Err::<MessageView, MessageDecodeError>(e),
            },
            buf@.len() < 20 ==> result is Err && result->Err_0
                == MessageDecodeError::UnexpectedEndOfData,
    {
        if buf.len() < STUN_HEADER_BYTES {
            return Err(MessageDecodeError::UnexpectedEndOfData);
        }
        let header_slice: &[u8] = &buf[0..20];
        let attribute_buf: &'a [u8] = &buf[20..buf.len()];
        let mut header_buf: [u8; 20] = [0; 20];
        let mut i: usize = 0;
        while i < 20
            invariant
                i <= 20,
                header_slice@.len() == 20,
                forall|j: int| 0 <= j < i ==> #[trigger] header_buf@[j] == header_slice@[j],
            decreases 20 - i,
        {
            header_buf[i] = header_slice[i];
            i += 1;
        }
        assert(header_buf@ =~= buf@.subrange(0, 20));
        let (header, attribute_length) = match MessageHeader::decode_with_length(&header_buf) {
            Ok(decoded) => decoded,
            Err(e) => { return Err(e); },
        };
        if attribute_buf.len() < attribute_length as usize {
            return Err(MessageDecodeError::LengthExceedsSlice);
        }
        if attribute_buf.len() > attribute_length as usize {
            return Err(MessageDecodeError::SliceExceedsLength);
        }
        Ok(Self { header, attribute_buf })
    }

    /// Returns the decoded message header.
    pub fn header(&self) -> (header: &MessageHeader)
        ensures
            *header == self@.header,
    {
        &self.header
    }

    /// Returns the class of the decoded message header.
    pub fn class(&self) -> (class: MessageClass)
        ensures
            class == self@.header.class,
    {
        self.header.class
    }

    /// Returns the method of the decoded message header.
    pub fn method(&self) -> (method: MessageMethod)
        ensures
            method == self@.header.method,
    {
        self.header.method
    }

    /// Returns the transaction ID of the decoded message header.
    pub fn tx_id(&self) -> (tx_id: TransactionId)
        ensures
            tx_id == self@.header.tx_id,
    {
        self.header.tx_id
    }

    /// Returns an iterator over all of the attributes of the message.
    ///
    /// Each iteration returns a `Result`: the message might be invalid, which
    /// shows only when the attribute in question is reached.
    pub fn attributes(&self) -> (iterator: StunAttributeIterator<'a>)
        ensures
            iterator@ == self@.attributes,
    {
        StunAttributeIterator::from_bytes(self.attribute_buf)
    }
}

} // verus!
