//! Errors raised while encoding or decoding a message.

use vstd::prelude::*;

verus! {

/// This error occurs whenever an attempt to decode a message fails due to the
/// message having an invalid format.
#[derive(Debug, Clone, Copy, PartialEq, Eq)]
pub enum MessageDecodeError {
    /// Every STUN header must start with two zero bits. This error is raised if
    /// either of those two bits are set.
    NonZeroStartingBits,
    /// The magic cookie field did not have the fixed value of 0x2112A442.
    InvalidMagicCookie,
    /// An attempt was made to decode a value into a message class that did not
    /// correspond to one of the valid message classes.
    InvalidMessageClass,
    /// An attempt was made to decode a value into a message method that did not
    /// correspond to a valid message method.
    InvalidMessageMethod,
    /// The data provided to the decoder was not large enough to perform the
    /// current operation: decoding the header, or decoding a whole attribute.
    UnexpectedEndOfData,
    /// The length stated in the header is larger than the data that follows it.
    LengthExceedsSlice,
    /// The data that follows the header is larger than the length stated in it.
    SliceExceedsLength,
}

/// This error occurs when a message cannot be encoded as asked.
#[derive(Debug, Clone, Copy, PartialEq, Eq)]
pub enum MessageEncodeError {
    /// An attribute value is longer than its 16-bit length field can state, or
    /// the attributes together are longer than the header's 16-bit length field
    /// can state.
    InvalidDataSize,
}

} // verus!
