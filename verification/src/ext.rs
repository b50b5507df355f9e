//! Shorthands that make the encoders of an address from the address itself.

use vstd::prelude::*;
use crate::encodings::{MappedAddressEncoder, XorMappedAddressEncoder};
use crate::message::TransactionId;
use crate::net::SocketAddr;

verus! {

/// An address that can be written as a MAPPED-ADDRESS or as an
/// XOR-MAPPED-ADDRESS attribute.
pub trait SocketAddrExt {
    /// The address that is written.
    spec fn address(&self) -> SocketAddr;

    /// The encoder of the address as a MAPPED-ADDRESS.
    fn as_mapped_address(&self) -> (encoder: MappedAddressEncoder)
        ensures
            encoder.address() == self.address(),
    ;

    /// The encoder of the address as an XOR-MAPPED-ADDRESS, in a message with
    /// the given transaction ID.
    fn as_xor_mapped_address(&self, tx_id: TransactionId) -> (encoder: XorMappedAddressEncoder)
        ensures
            encoder.address() == self.address(),
            encoder.transaction_id() == tx_id,
    ;
}

impl SocketAddrExt for SocketAddr {
    open spec fn address(&self) -> SocketAddr {
        *self
    }

    fn as_mapped_address(&self) -> (encoder: MappedAddressEncoder) {
        MappedAddressEncoder::new(*self)
    }

    fn as_xor_mapped_address(&self, tx_id: TransactionId) -> (encoder: XorMappedAddressEncoder) {
        XorMappedAddressEncoder::new(*self, tx_id)
    }
}

} // verus!
