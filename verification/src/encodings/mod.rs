//! Codecs for the values of attributes.
//!
//! An encoder appends the bytes of a value to a buffer; a decoder reads a
//! value from the bytes of an attribute. Neither deals with the attribute's
//! type, its length field or its padding.

pub mod change_request;
pub mod mapped_address;

use vstd::prelude::*;
use vstd::string::StringSliceAdditionalSpecFns;
use vstd::utf8::{decode_utf8, valid_utf8};
use bytes::BytesMut;
use crate::buffer::{buf_bytes, buf_extend_from_slice, buf_reserve};

pub use change_request::{ChangeRequest, ChangeRequestDecodeError, ChangeRequestDecoder};
pub use mapped_address::{
    MappedAddress, MappedAddressDecodeError, MappedAddressDecoder, MappedAddressEncoder,
    XorMappedAddress, XorMappedAddressDecoder, XorMappedAddressEncoder,
};

verus! {

/// A value that can be written as the value of an attribute.
pub trait AttributeEncoder {
    /// The bytes of the value.
    spec fn encoding(&self) -> Seq<u8>;

    /// Appends the bytes of the value to `dst`.
    fn encode(&self, dst: &mut BytesMut)
        requires
            buf_bytes(*old(dst)).len() + self.encoding().len() <= isize::MAX,
        ensures
            buf_bytes(*final(dst)) == buf_bytes(*old(dst)) + self.encoding(),
    ;
}

/// A way to read a value from the bytes of an attribute.
pub trait AttributeDecoder<'buf> {
    /// What is read.
    type Item;

    /// Why nothing could be read.
    type Error;

    /// Whether `result` is what `bytes` decode to.
    spec fn decodes(&self, bytes: Seq<u8>, result: Result<Self::Item, Self::Error>) -> bool;

    /// Reads the value from `buf`.
    fn decode(&self, buf: &'buf [u8]) -> (result: Result<Self::Item, Self::Error>)
        ensures
            self.decodes(buf@, result),
    ;
}

/// A string is written as its UTF-8 bytes.
impl AttributeEncoder for &str {
    open spec fn encoding(&self) -> Seq<u8> {
        self.spec_bytes()
    }

    fn encode(&self, dst: &mut BytesMut) {
        let bytes: &[u8] = self.as_bytes();
        buf_reserve(dst, bytes.len());
        buf_extend_from_slice(dst, bytes);
    }
}

/// Why bytes are not a string in UTF-8.
#[derive(Debug, Clone, Copy, PartialEq, Eq)]
pub struct Utf8Error {
    /// The index of the first byte that is not part of valid UTF-8: the
    /// number of bytes in front of it that are.
    pub valid_up_to: usize,
}

/// What bytes that are not valid UTF-8 are told apart by: the longest of
/// their prefixes that is valid UTF-8 has `index` bytes.
pub open spec fn is_first_invalid(bytes: Seq<u8>, index: int) -> bool {
    &&& 0 <= index < bytes.len()
    &&& valid_utf8(bytes.subrange(0, index))
    &&& forall|longer: int|
        index < longer <= bytes.len() ==> !valid_utf8(#[trigger] bytes.subrange(0, longer))
}

/// `std::str::from_utf8`: the bytes as a string, if and only if they are valid
/// UTF-8. The string then has exactly these bytes. Of bytes that are not valid
/// UTF-8, what `Utf8Error::valid_up_to` gives is handed on: the greatest index
/// up to which the bytes are valid UTF-8.
#[verifier::external_body]
fn str_from_utf8<'buf>(buf: &'buf [u8]) -> (result: Result<&'buf str, Utf8Error>)
    ensures
        result is Ok <==> valid_utf8(buf@),
        result matches Ok(s) ==> s.spec_bytes() == buf@,
        result matches Err(e) ==> is_first_invalid(buf@, e.valid_up_to as int),
{
    match std::str::from_utf8(buf) {
        Ok(s) => Ok(s),
        Err(e) => Err(Utf8Error { valid_up_to: e.valid_up_to() }),
    }
}

/// Reads an attribute as a string in UTF-8.
pub struct Utf8Decoder;

impl Default for Utf8Decoder {
    fn default() -> Self {
        Utf8Decoder
    }
}

impl<'buf> AttributeDecoder<'buf> for Utf8Decoder {
    type Item = &'buf str;

    type Error = Utf8Error;

    /// The bytes decode to a string exactly when they are valid UTF-8, and
    /// then to the string of the characters that they encode. Else the error
    /// names the first byte that is not part of valid UTF-8.
    open spec fn decodes(&self, bytes: Seq<u8>, result: Result<&'buf str, Utf8Error>) -> bool {
        &&& result is Ok <==> valid_utf8(bytes)
        &&& result matches Ok(s) ==> s@ == decode_utf8(bytes)
        &&& result matches Err(e) ==> is_first_invalid(bytes, e.valid_up_to as int)
    }

    fn decode(&self, buf: &'buf [u8]) -> (result: Result<&'buf str, Utf8Error>) {
        let result = str_from_utf8(buf);
        proof {
            if let Ok(s) = result {
                vstd::utf8::encode_utf8_decode_utf8(s@);
            }
        }
        result
    }
}

/// A string that is written and read again is the same string: its bytes are
/// valid UTF-8, and they decode to its characters.
pub proof fn lemma_utf8_roundtrip(s: &str)
    ensures
        valid_utf8(s.encoding()),
        decode_utf8(s.encoding()) == s@,
{
    vstd::utf8::encode_utf8_valid_utf8(s@);
    vstd::utf8::encode_utf8_decode_utf8(s@);
}

} // verus!
