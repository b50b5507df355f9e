//! The MAPPED-ADDRESS and XOR-MAPPED-ADDRESS attributes.
//!
//! Both have one layout: a zero byte, the address family, the port, and the
//! four or sixteen octets of the address. In an XOR-MAPPED-ADDRESS the port
//! and the octets are masked with the magic cookie and the transaction ID.
//! The mask is applied by XOR, so that applying it twice gives the address
//! back: one function masks and unmasks.

use vstd::prelude::*;
use bytes::BytesMut;
use crate::buffer::{buf_bytes, buf_extend_from_slice, buf_put_u16, buf_put_u8, buf_reserve};
use crate::encodings::{AttributeDecoder, AttributeEncoder};
use crate::header::{magic_cookie, MAGIC_COOKIE};
use crate::message::TransactionId;
use crate::net::{
    lemma_octets16_of_view, lemma_octets4_of_view, octets16, octets4, read_octets16,
    read_octets4, IpAddr, SocketAddr,
};
use crate::utils::{lemma_u16_be_roundtrip, read_u16_be, u16_be_bytes, u16_from_be, xor};

verus! {

/// Number of bytes to read the zero byte, family byte, and port.
pub const MAPPED_ADDRESS_HEADER_BYTES: usize = 4;

/// The family byte of an IPv4 address.
pub const IPV4_FAMILY: u8 = 0x01;

/// The family byte of an IPv6 address.
pub const IPV6_FAMILY: u8 = 0x02;

/// Number of bytes needed to store the IP address portion of an IPv4 address.
pub const IPV4_BYTE_LENGTH: usize = 4;

/// Number of bytes needed to store the IP address portion of an IPv6 address.
pub const IPV6_BYTE_LENGTH: usize = 16;

/// The most significant 16 bits of the magic cookie. Used for XORing against
/// the port.
pub const MAGIC_COOKIE_MSB: u16 = 0x2112;

/// Gives the reason that a MAPPED-ADDRESS attribute's value could not be
/// decoded.
#[derive(Debug, Clone, Copy, PartialEq, Eq)]
pub enum MappedAddressDecodeError {
    /// RFC 5389 states that the first byte of a mapped address MUST be zero.
    /// This error is returned if the first byte of the attribute's data is
    /// non-zero.
    NonZeroFirstByte,
    /// Returned if the address family in the attribute data is not known.
    ///
    /// RFC 5389 defines only two families: IPv4 and IPv6.
    UnknownFamily,
    /// The length of the byte slice given did not match the expected number of
    /// bytes required to parse the address. Either too few or too many bytes
    /// were given.
    UnexpectedEndOfSlice,
}

/// The value of a MAPPED-ADDRESS attribute for an address: a zero byte, the
/// family, the port in big endian form, and the octets of the address.
pub open spec fn mapped_address_bytes(addr: SocketAddr) -> Seq<u8> {
    match addr.ip {
        IpAddr::V4(octets) => seq![0u8, 0x01u8] + u16_be_bytes(addr.port) + octets@,
        IpAddr::V6(octets) => seq![0u8, 0x02u8] + u16_be_bytes(addr.port) + octets@,
    }
}

/// What the value of a MAPPED-ADDRESS attribute decodes to. The checks are,
/// in order: there are four bytes for the zero byte, the family and the port;
/// the first byte is zero; the family is known; and behind the port there are
/// exactly as many bytes as an address of the family has.
pub open spec fn parse_mapped(bytes: Seq<u8>) -> Result<SocketAddr, MappedAddressDecodeError> {
    if bytes.len() < 4 {
        Err(MappedAddressDecodeError::UnexpectedEndOfSlice)
    } else if bytes[0] != 0 {
        Err(MappedAddressDecodeError::NonZeroFirstByte)
    } else if bytes[1] == 0x01 {
        if bytes.len() != 4 + 4 {
            Err(MappedAddressDecodeError::UnexpectedEndOfSlice)
        } else {
            Ok(
                SocketAddr {
                    ip: IpAddr::V4(octets4(bytes, 4)),
                    port: u16_from_be(bytes[2], bytes[3]),
                },
            )
        }
    } else if bytes[1] == 0x02 {
        if bytes.len() != 4 + 16 {
            Err(MappedAddressDecodeError::UnexpectedEndOfSlice)
        } else {
            Ok(
                SocketAddr {
                    ip: IpAddr::V6(octets16(bytes, 4)),
                    port: u16_from_be(bytes[2], bytes[3]),
                },
            )
        }
    } else {
        Err(MappedAddressDecodeError::UnknownFamily)
    }
}

/// The sixteen bytes that mask an IPv6 address: the magic cookie, then the
/// transaction ID. The first four of them mask an IPv4 address.
pub open spec fn address_mask(tx_id: TransactionId) -> Seq<u8> {
    magic_cookie() + tx_id@
}

/// An address with its port and its octets masked: the port XOR the upper 16
/// bits of the magic cookie, and each octet XOR the byte of the mask at its
/// place.
pub open spec fn xor_address(addr: SocketAddr, tx_id: TransactionId) -> SocketAddr {
    let mask = address_mask(tx_id);
    SocketAddr {
        ip: match addr.ip {
            IpAddr::V4(octets) => IpAddr::V4(
                [
                    octets[0] ^ mask[0],
                    octets[1] ^ mask[1],
                    octets[2] ^ mask[2],
                    octets[3] ^ mask[3],
                ],
            ),
            IpAddr::V6(octets) => IpAddr::V6(
                [
                    octets[0] ^ mask[0],
                    octets[1] ^ mask[1],
                    octets[2] ^ mask[2],
                    octets[3] ^ mask[3],
                    octets[4] ^ mask[4],
                    octets[5] ^ mask[5],
                    octets[6] ^ mask[6],
                    octets[7] ^ mask[7],
                    octets[8] ^ mask[8],
                    octets[9] ^ mask[9],
                    octets[10] ^ mask[10],
                    octets[11] ^ mask[11],
                    octets[12] ^ mask[12],
                    octets[13] ^ mask[13],
                    octets[14] ^ mask[14],
                    octets[15] ^ mask[15],
                ],
            ),
        },
        port: addr.port ^ 0x2112,
    }
}

/// What the value of an XOR-MAPPED-ADDRESS attribute decodes to: it is read
/// as a MAPPED-ADDRESS, and the mask is taken off what was read.
pub open spec fn parse_xor_mapped(bytes: Seq<u8>, tx_id: TransactionId) -> Result<
    SocketAddr,
    MappedAddressDecodeError,
> {
    match parse_mapped(bytes) {
        Ok(addr) => Ok(xor_address(addr, tx_id)),
        Err(e) => Err(e),
    }
}

/// Decoding the value that an address was encoded to gives the address back.
pub proof fn lemma_mapped_address_roundtrip(addr: SocketAddr)
    ensures
        parse_mapped(mapped_address_bytes(addr)) == Ok::<SocketAddr, MappedAddressDecodeError>(
            addr,
        ),
{
    let bytes = mapped_address_bytes(addr);
    lemma_u16_be_roundtrip(addr.port);
    assert(bytes[2] == u16_be_bytes(addr.port)[0]);
    assert(bytes[3] == u16_be_bytes(addr.port)[1]);
    match addr.ip {
        IpAddr::V4(octets) => {
            lemma_octets4_of_view(octets, seq![0u8, 0x01u8] + u16_be_bytes(addr.port));
        },
        IpAddr::V6(octets) => {
            lemma_octets16_of_view(octets, seq![0u8, 0x02u8] + u16_be_bytes(addr.port));
        },
    }
}

/// Masking an address twice with the same transaction ID gives the address
/// back.
pub proof fn lemma_xor_address_involution(addr: SocketAddr, tx_id: TransactionId)
    ensures
        xor_address(xor_address(addr, tx_id), tx_id) == addr,
{
    assert forall|a: u8, m: u8| #[trigger] ((a ^ m) ^ m) == a by {
        assert((a ^ m) ^ m == a) by (bit_vector);
    }
    let port = addr.port;
    assert((port ^ 0x2112) ^ 0x2112 == port) by (bit_vector);
    let twice = xor_address(xor_address(addr, tx_id), tx_id);
    match addr.ip {
        IpAddr::V4(octets) => {
            assert(twice.ip->V4_0 =~= octets);
        },
        IpAddr::V6(octets) => {
            assert(twice.ip->V6_0 =~= octets);
        },
    }
}

/// Decoding the value that an address was encoded to as an
/// XOR-MAPPED-ADDRESS, with the same transaction ID, gives the address back.
pub proof fn lemma_xor_mapped_address_roundtrip(addr: SocketAddr, tx_id: TransactionId)
    ensures
        parse_xor_mapped(mapped_address_bytes(xor_address(addr, tx_id)), tx_id) == Ok::<
            SocketAddr,
            MappedAddressDecodeError,
        >(addr),
{
    lemma_mapped_address_roundtrip(xor_address(addr, tx_id));
    lemma_xor_address_involution(addr, tx_id);
}

/// A value of four bytes or more whose first byte is not zero decodes to
/// `NonZeroFirstByte`. A value that starts with a zero byte and a family other
/// than 1 and 2 decodes to `UnknownFamily`. A value of a known family with
/// more or fewer address bytes than the family has, and any value of fewer
/// than four bytes, decodes to `UnexpectedEndOfSlice`.
pub proof fn lemma_mapped_address_rejections(bytes: Seq<u8>)
    ensures
        bytes.len() >= 4 && bytes[0] != 0 ==> parse_mapped(bytes) == Err::<
            SocketAddr,
            MappedAddressDecodeError,
        >(MappedAddressDecodeError::NonZeroFirstByte),
        bytes.len() >= 4 && bytes[0] == 0 && bytes[1] != 1 && bytes[1] != 2 ==> parse_mapped(bytes)
            == Err::<SocketAddr, MappedAddressDecodeError>(MappedAddressDecodeError::UnknownFamily),
        bytes.len() >= 4 && bytes[0] == 0 && bytes[1] == 1 && bytes.len() - 4 != 4
            ==> parse_mapped(bytes) == Err::<SocketAddr, MappedAddressDecodeError>(
            MappedAddressDecodeError::UnexpectedEndOfSlice,
        ),
        bytes.len() >= 4 && bytes[0] == 0 && bytes[1] == 2 && bytes.len() - 4 != 16
            ==> parse_mapped(bytes) == Err::<SocketAddr, MappedAddressDecodeError>(
            MappedAddressDecodeError::UnexpectedEndOfSlice,
        ),
        bytes.len() < 4 ==> parse_mapped(bytes) == Err::<SocketAddr, MappedAddressDecodeError>(
            MappedAddressDecodeError::UnexpectedEndOfSlice,
        ),
{
}

/// The MAPPED-ADDRESS attribute: makes its encoder and its decoder.
pub struct MappedAddress;

impl MappedAddress {
    /// The encoder of the given address.
    pub fn encoder(addr: SocketAddr) -> (encoder: MappedAddressEncoder)
        ensures
            encoder.address() == addr,
    {
        MappedAddressEncoder::new(addr)
    }

    /// The decoder of addresses.
    pub fn decoder() -> MappedAddressDecoder {
        MappedAddressDecoder::default()
    }
}

/// The XOR-MAPPED-ADDRESS attribute: makes its encoder and its decoder.
pub struct XorMappedAddress;

impl XorMappedAddress {
    /// The encoder of the given address in a message with the given
    /// transaction ID.
    pub fn encoder(addr: SocketAddr, tx_id: TransactionId) -> (encoder: XorMappedAddressEncoder)
        ensures
            encoder.address() == addr,
            encoder.transaction_id() == tx_id,
    {
        XorMappedAddressEncoder::new(addr, tx_id)
    }

    /// The decoder of addresses in a message with the given transaction ID.
    pub fn decoder(tx_id: TransactionId) -> (decoder: XorMappedAddressDecoder)
        ensures
            decoder.transaction_id() == tx_id,
    {
        XorMappedAddressDecoder::new(tx_id)
    }
}

/// Writes an address as the value of a MAPPED-ADDRESS attribute.
pub struct MappedAddressEncoder {
    addr: SocketAddr,
}

impl MappedAddressEncoder {
    /// The address that is written.
    pub closed spec fn address(&self) -> SocketAddr {
        self.addr
    }

    /// The encoder of the given address.
    pub fn new(addr: SocketAddr) -> (encoder: Self)
        ensures
            encoder.address() == addr,
    {
        Self { addr }
    }
}

impl AttributeEncoder for MappedAddressEncoder {
    open spec fn encoding(&self) -> Seq<u8> {
        mapped_address_bytes(self.address())
    }

    fn encode(&self, dst: &mut BytesMut) {
        let ghost before = buf_bytes(*dst);
        match self.addr.ip {
            IpAddr::V4(octets) => {
                buf_reserve(dst, 8);
                buf_put_u8(dst, 0);
                buf_put_u8(dst, IPV4_FAMILY);
                buf_put_u16(dst, self.addr.port);
                buf_extend_from_slice(dst, &octets);
            },
            IpAddr::V6(octets) => {
                buf_reserve(dst, 20);
                buf_put_u8(dst, 0);
                buf_put_u8(dst, IPV6_FAMILY);
                buf_put_u16(dst, self.addr.port);
                buf_extend_from_slice(dst, &octets);
            },
        }
        assert(buf_bytes(*dst) =~= before + mapped_address_bytes(self.addr));
    }
}

/// Reads the value of a MAPPED-ADDRESS attribute.
pub struct MappedAddressDecoder;

impl Default for MappedAddressDecoder {
    fn default() -> Self {
        MappedAddressDecoder
    }
}

impl AttributeDecoder<'_> for MappedAddressDecoder {
    type Item = SocketAddr;

    type Error = MappedAddressDecodeError;

    open spec fn decodes(
        &self,
        bytes: Seq<u8>,
        result: Result<SocketAddr, MappedAddressDecodeError>,
    ) -> bool {
        result == parse_mapped(bytes)
    }

    fn decode(&self, buf: &[u8]) -> (result: Result<SocketAddr, MappedAddressDecodeError>) {
        parse_mapped_address(buf)
    }
}

/// Writes an address as the value of an XOR-MAPPED-ADDRESS attribute.
pub struct XorMappedAddressEncoder {
    addr: SocketAddr,
    tx_id: TransactionId,
}

impl XorMappedAddressEncoder {
    /// The address that is written.
    pub closed spec fn address(&self) -> SocketAddr {
        self.addr
    }

    /// The transaction ID of the message that the address is written into.
    pub closed spec fn transaction_id(&self) -> TransactionId {
        self.tx_id
    }

    /// The encoder of the given address in a message with the given
    /// transaction ID.
    pub fn new(addr: SocketAddr, tx_id: TransactionId) -> (encoder: Self)
        ensures
            encoder.address() == addr,
            encoder.transaction_id() == tx_id,
    {
        Self { addr, tx_id }
    }
}

impl AttributeEncoder for XorMappedAddressEncoder {
    open spec fn encoding(&self) -> Seq<u8> {
        mapped_address_bytes(xor_address(self.address(), self.transaction_id()))
    }

    fn encode(&self, dst: &mut BytesMut) {
        let processed_address = masked(self.addr, &self.tx_id);
        MappedAddressEncoder::new(processed_address).encode(dst);
    }
}

/// Reads the value of an XOR-MAPPED-ADDRESS attribute.
pub struct XorMappedAddressDecoder {
    tx_id: TransactionId,
}

impl XorMappedAddressDecoder {
    /// The transaction ID of the message that addresses are read from.
    pub closed spec fn transaction_id(&self) -> TransactionId {
        self.tx_id
    }

    /// The decoder of addresses in a message with the given transaction ID.
    pub fn new(tx_id: TransactionId) -> (decoder: Self)
        ensures
            decoder.transaction_id() == tx_id,
    {
        Self { tx_id }
    }
}

impl AttributeDecoder<'_> for XorMappedAddressDecoder {
    type Item = SocketAddr;

    type Error = MappedAddressDecodeError;

    open spec fn decodes(
        &self,
        bytes: Seq<u8>,
        result: Result<SocketAddr, MappedAddressDecodeError>,
    ) -> bool {
        result == parse_xor_mapped(bytes, self.transaction_id())
    }

    fn decode(&self, buf: &[u8]) -> (result: Result<SocketAddr, MappedAddressDecodeError>) {
        let addr = match parse_mapped_address(buf) {
            Ok(addr) => addr,
            Err(e) => { return Err(e); },
        };
        Ok(masked(addr, &self.tx_id))
    }
}

/// The sixteen bytes that mask an IPv6 address: the magic cookie, then the
/// transaction ID.
fn mask_bytes(tx_id: &TransactionId) -> (mask: [u8; 16])
    ensures
        mask@ == address_mask(*tx_id),
{
    let id: &[u8; 12] = tx_id.as_bytes();
    let mask: [u8; 16] = [
        MAGIC_COOKIE[0],
        MAGIC_COOKIE[1],
        MAGIC_COOKIE[2],
        MAGIC_COOKIE[3],
        id[0],
        id[1],
        id[2],
        id[3],
        id[4],
        id[5],
        id[6],
        id[7],
        id[8],
        id[9],
        id[10],
        id[11],
    ];
    assert(mask@ =~= address_mask(*tx_id));
    mask
}

/// Puts the mask on an address, or takes it off: the two are the same.
fn masked(addr: SocketAddr, tx_id: &TransactionId) -> (processed: SocketAddr)
    ensures
        processed == xor_address(addr, *tx_id),
{
    proof {
        tx_id.lemma_len();
    }
    let processed_ip = match addr.ip {
        IpAddr::V4(ip) => {
            let mut octets: [u8; 4] = ip;
            xor(&mut octets, &MAGIC_COOKIE);
            assert(octets =~= xor_address(addr, *tx_id).ip->V4_0);
            IpAddr::V4(octets)
        },
        IpAddr::V6(ip) => {
            let mut octets: [u8; 16] = ip;
            let mask: [u8; 16] = mask_bytes(tx_id);
            xor(&mut octets, &mask);
            assert(octets =~= xor_address(addr, *tx_id).ip->V6_0);
            IpAddr::V6(octets)
        },
    };
    let processed_port: u16 = addr.port ^ MAGIC_COOKIE_MSB;
    SocketAddr::new(processed_ip, processed_port)
}

/// Reads an address from the value of a MAPPED-ADDRESS attribute.
fn parse_mapped_address(bytes: &[u8]) -> (result: Result<SocketAddr, MappedAddressDecodeError>)
    ensures
        result == parse_mapped(bytes@),
{
    if bytes.len() < MAPPED_ADDRESS_HEADER_BYTES {
        return Err(MappedAddressDecodeError::UnexpectedEndOfSlice);
    }
    if bytes[0] != 0 {
        return Err(MappedAddressDecodeError::NonZeroFirstByte);
    }
    let port: u16 = read_u16_be(bytes[2], bytes[3]);
    let address_len: usize = bytes.len() - MAPPED_ADDRESS_HEADER_BYTES;

    let ip_addr = match bytes[1] {
        0x01 => {
            if address_len != IPV4_BYTE_LENGTH {
                return Err(MappedAddressDecodeError::UnexpectedEndOfSlice);
            }
            IpAddr::V4(read_octets4(bytes, MAPPED_ADDRESS_HEADER_BYTES))
        },
        0x02 => {
            if address_len != IPV6_BYTE_LENGTH {
                return Err(MappedAddressDecodeError::UnexpectedEndOfSlice);
            }
            IpAddr::V6(read_octets16(bytes, MAPPED_ADDRESS_HEADER_BYTES))
        },
        _ => {
            return Err(MappedAddressDecodeError::UnknownFamily);
        },
    };

    Ok(SocketAddr::new(ip_addr, port))
}

} // verus!
