//! Parsing of mapped addresses from the value of an attribute, for callers
//! that hold the transaction ID of a message as one 96-bit number.

use vstd::prelude::*;
use crate::encodings::mapped_address::{
    parse_mapped, parse_xor_mapped, xor_address, MappedAddressDecodeError,
};
use crate::message::TransactionId;
use crate::net::{octets4, read_octets16, read_octets4, IpAddr, SocketAddr};
use crate::utils::{
    read_u128_be, read_u16_be, read_u32_be, u128_be_octets, u128_from_be, u32_be_bytes,
    u32_from_be, write_u128_be, write_u32_be,
};

verus! {

/// Gives the reason that a MAPPED-ADDRESS attribute's value could not be
/// parsed.
#[derive(Debug, Clone, Copy, PartialEq, Eq)]
pub enum MappedAddressParseError {
    /// RFC 5389 states that the first byte of a mapped address MUST be zero.
    /// This error is returned if the first byte of the attribute's data is
    /// non-zero.
    NonZeroFirstByte,
    /// Returned if the address family in the attribute data is not known.
    ///
    /// RFC 5389 defines only two families: IPv4 and IPv6.
    UnknownFamily,
    /// The length of the byte slice given did not match the expected number of
    /// bytes required to parse the address. Either too few or too many bytes
    /// were given.
    UnexpectedEndOfSlice,
}

/// Number of bytes to read the zero byte, family byte, and port.
pub const MAPPED_ADDRESS_HEADER_BYTES: usize = 4;

/// Number of bytes needed to store the IP address portion of an IPv4 address.
pub const IPV4_BYTE_LENGTH: usize = 4;

/// Number of bytes needed to store the IP address portion of an IPv6 address.
pub const IPV6_BYTE_LENGTH: usize = 16;

/// The most significant 16 bits of the magic cookie. Used for XORing against
/// the port.
pub const MAGIC_COOKIE_MSB: u16 = 0x2112;

/// The magic cookie as a number.
pub const MAGIC_COOKIE_FULL: u32 = 0x2112A442;

/// The largest number that a transaction ID of 96 bits can be.
pub const MAX_TRANSACTION_ID: u128 = 0xffff_ffff_ffff_ffff_ffff_ffff;

/// The parse error that stands for a decode error of the same name.
pub open spec fn as_parse_error(e: MappedAddressDecodeError) -> MappedAddressParseError {
    match e {
        MappedAddressDecodeError::NonZeroFirstByte => MappedAddressParseError::NonZeroFirstByte,
        MappedAddressDecodeError::UnknownFamily => MappedAddressParseError::UnknownFamily,
        MappedAddressDecodeError::UnexpectedEndOfSlice =>
            MappedAddressParseError::UnexpectedEndOfSlice,
    }
}

/// What the value of a MAPPED-ADDRESS attribute parses to: what it decodes to
/// as the codec reads it.
pub open spec fn parsed_mapped_address(bytes: Seq<u8>) -> Result<
    SocketAddr,
    MappedAddressParseError,
> {
    match parse_mapped(bytes) {
        Ok(addr) => Ok(addr),
        Err(e) => Err(as_parse_error(e)),
    }
}

/// The number that masks an IPv6 address in a message with the given
/// transaction ID: the magic cookie in the upper 32 bits, the ID below it.
pub open spec fn address_mask_value(transaction_id: u128) -> u128
    recommends
        transaction_id <= MAX_TRANSACTION_ID,
{
    (0x2112A442_0000_0000_0000_0000_0000_0000u128 + transaction_id) as u128
}

/// An address with the mask of an XOR-MAPPED-ADDRESS taken off: the port XOR
/// the upper 16 bits of the magic cookie, and the address, as a number in big
/// endian form, XOR the magic cookie (IPv4) or XOR the magic cookie followed
/// by the transaction ID (IPv6).
pub open spec fn unmasked_address(addr: SocketAddr, transaction_id: u128) -> SocketAddr {
    SocketAddr {
        ip: match addr.ip {
            IpAddr::V4(octets) => IpAddr::V4(
                octets4(
                    u32_be_bytes(
                        u32_from_be(octets[0], octets[1], octets[2], octets[3]) ^ 0x2112A442,
                    ),
                    0,
                ),
            ),
            IpAddr::V6(octets) => IpAddr::V6(
                u128_be_octets(u128_from_be(octets@) ^ address_mask_value(transaction_id)),
            ),
        },
        port: addr.port ^ 0x2112,
    }
}

/// What the value of an XOR-MAPPED-ADDRESS attribute parses to, in a message
/// with the given transaction ID.
pub open spec fn parsed_xor_mapped_address(bytes: Seq<u8>, transaction_id: u128) -> Result<
    SocketAddr,
    MappedAddressParseError,
> {
    match parsed_mapped_address(bytes) {
        Ok(addr) => Ok(unmasked_address(addr, transaction_id)),
        Err(e) => Err(e),
    }
}

/// A transaction ID as one number: its first byte is the most significant of
/// the twelve.
pub open spec fn transaction_id_value(tx_id: TransactionId) -> u128 {
    u128_from_be(seq![0u8, 0u8, 0u8, 0u8] + tx_id@)
}

/// Taking the mask off an address as a number is taking it off octet by
/// octet: both give the same address, for every transaction ID.
pub proof fn lemma_unmasked_is_xor_address(addr: SocketAddr, tx_id: TransactionId)
    ensures
        transaction_id_value(tx_id) <= MAX_TRANSACTION_ID,
        unmasked_address(addr, transaction_id_value(tx_id)) == xor_address(addr, tx_id),
{
    tx_id.lemma_len();
    let id = tx_id@;
    let tid = transaction_id_value(tx_id);
    let padded = seq![0u8, 0u8, 0u8, 0u8] + id;
    crate::utils::lemma_u128_upper_bytes_zero(padded);
    match addr.ip {
        IpAddr::V4(octets) => {
            let (o0, o1, o2, o3) = (octets[0], octets[1], octets[2], octets[3]);
            let n = u32_from_be(o0, o1, o2, o3);
            let x = n ^ 0x2112A442;
            assert(x / 0x100_0000 == (o0 ^ 0x21) as u32 && x / 0x1_0000 % 0x100 == (o1 ^ 0x12) as u32
                && x / 0x100 % 0x100 == (o2 ^ 0xA4) as u32 && x % 0x100 == (o3 ^ 0x42) as u32)
                by (bit_vector)
                requires
                    x == (((o0 as u32) * 0x100_0000 + (o1 as u32) * 0x1_0000 + (o2 as u32) * 0x100
                        + (o3 as u32)) as u32) ^ 0x2112A442,
            ;
            assert(unmasked_address(addr, tid).ip->V4_0 =~= xor_address(addr, tx_id).ip->V4_0);
        },
        IpAddr::V6(octets) => {
            let o = octets@;
            let x = u128_from_be(o) ^ address_mask_value(tid);
            lemma_masked_bytes(
                x,
                o[0], o[1], o[2], o[3], o[4], o[5], o[6], o[7],
                o[8], o[9], o[10], o[11], o[12], o[13], o[14], o[15],
                id[0], id[1], id[2], id[3], id[4], id[5], id[6], id[7], id[8], id[9], id[10], id[11],
            );
            assert(unmasked_address(addr, tid).ip->V6_0 =~= xor_address(addr, tx_id).ip->V6_0);
        },
    }
}

/// The bytes of a 128-bit number that is sixteen bytes XOR the magic cookie
/// followed by twelve more bytes: each byte XOR the byte of the mask at its
/// place.
proof fn lemma_masked_bytes(
    x: u128,
    o0: u8, o1: u8, o2: u8, o3: u8, o4: u8, o5: u8, o6: u8, o7: u8,
    o8: u8, o9: u8, o10: u8, o11: u8, o12: u8, o13: u8, o14: u8, o15: u8,
    t0: u8, t1: u8, t2: u8, t3: u8, t4: u8, t5: u8, t6: u8, t7: u8,
    t8: u8, t9: u8, t10: u8, t11: u8,
)
    by (bit_vector)
    requires
        x == (((o0 as u128) << 120) | ((o1 as u128) << 112) | ((o2 as u128) << 104) | ((
        o3 as u128) << 96) | ((o4 as u128) << 88) | ((o5 as u128) << 80) | ((o6 as u128) << 72)
            | ((o7 as u128) << 64) | ((o8 as u128) << 56) | ((o9 as u128) << 48) | ((o10 as u128)
            << 40) | ((o11 as u128) << 32) | ((o12 as u128) << 24) | ((o13 as u128) << 16) | ((
        o14 as u128) << 8) | (o15 as u128)) ^ ((0x2112A442_0000_0000_0000_0000_0000_0000u128 + (((
        0u8 as u128) << 120) | ((0u8 as u128) << 112) | ((0u8 as u128) << 104) | ((0u8 as u128)
            << 96) | ((t0 as u128) << 88) | ((t1 as u128) << 80) | ((t2 as u128) << 72) | ((
        t3 as u128) << 64) | ((t4 as u128) << 56) | ((t5 as u128) << 48) | ((t6 as u128) << 40)
            | ((t7 as u128) << 32) | ((t8 as u128) << 24) | ((t9 as u128) << 16) | ((t10 as u128)
            << 8) | (t11 as u128))) as u128),
    ensures
        ((x >> 120) & 0xff) as u8 == o0 ^ 0x21,
        ((x >> 112) & 0xff) as u8 == o1 ^ 0x12,
        ((x >> 104) & 0xff) as u8 == o2 ^ 0xA4,
        ((x >> 96) & 0xff) as u8 == o3 ^ 0x42,
        ((x >> 88) & 0xff) as u8 == o4 ^ t0,
        ((x >> 80) & 0xff) as u8 == o5 ^ t1,
        ((x >> 72) & 0xff) as u8 == o6 ^ t2,
        ((x >> 64) & 0xff) as u8 == o7 ^ t3,
        ((x >> 56) & 0xff) as u8 == o8 ^ t4,
        ((x >> 48) & 0xff) as u8 == o9 ^ t5,
        ((x >> 40) & 0xff) as u8 == o10 ^ t6,
        ((x >> 32) & 0xff) as u8 == o11 ^ t7,
        ((x >> 24) & 0xff) as u8 == o12 ^ t8,
        ((x >> 16) & 0xff) as u8 == o13 ^ t9,
        ((x >> 8) & 0xff) as u8 == o14 ^ t10,
        (x & 0xff) as u8 == o15 ^ t11,
{
}

/// Parsing with the transaction ID as a number gives what the codec gives
/// with the transaction ID itself.
pub proof fn lemma_parsed_is_decoded(bytes: Seq<u8>, tx_id: TransactionId)
    ensures
        parsed_xor_mapped_address(bytes, transaction_id_value(tx_id)) == (match parse_xor_mapped(
            bytes,
            tx_id,
        ) {
            Ok(addr) => Ok(addr),
            Err(e) => Err(as_parse_error(e)),
        }),
{
    if let Ok(addr) = parse_mapped(bytes) {
        lemma_unmasked_is_xor_address(addr, tx_id);
    }
}

/// Parses the value of a MAPPED-ADDRESS attribute.
pub fn parse_mapped_address(bytes: &[u8]) -> (result: Result<SocketAddr, MappedAddressParseError>)
    ensures
        result == parsed_mapped_address(bytes@),
{
    if bytes.len() < MAPPED_ADDRESS_HEADER_BYTES {
        return Err(MappedAddressParseError::UnexpectedEndOfSlice);
    }
    if bytes[0] != 0 {
        return Err(MappedAddressParseError::NonZeroFirstByte);
    }
    let port: u16 = read_u16_be(bytes[2], bytes[3]);
    let address_len: usize = bytes.len() - MAPPED_ADDRESS_HEADER_BYTES;

    let ip_addr = match bytes[1] {
        0x01 => {
            if address_len != IPV4_BYTE_LENGTH {
                return Err(MappedAddressParseError::UnexpectedEndOfSlice);
            }
            IpAddr::V4(read_octets4(bytes, MAPPED_ADDRESS_HEADER_BYTES))
        },
        0x02 => {
            if address_len != IPV6_BYTE_LENGTH {
                return Err(MappedAddressParseError::UnexpectedEndOfSlice);
            }
            IpAddr::V6(read_octets16(bytes, MAPPED_ADDRESS_HEADER_BYTES))
        },
        _ => {
            return Err(MappedAddressParseError::UnknownFamily);
        },
    };

    Ok(SocketAddr::new(ip_addr, port))
}

/// Parses the value of an XOR-MAPPED-ADDRESS attribute of a message whose
/// transaction ID is the given number of at most 96 bits.
pub fn parse_xor_mapped_address(bytes: &[u8], transaction_id: u128) -> (result: Result<
    SocketAddr,
    MappedAddressParseError,
>)
    requires
        transaction_id <= MAX_TRANSACTION_ID,
    ensures
        result == parsed_xor_mapped_address(bytes@, transaction_id),
{
    let addr = match parse_mapped_address(bytes) {
        Ok(addr) => addr,
        Err(e) => { return Err(e); },
    };
    let processed_ip = match addr.ip {
        IpAddr::V4(ip) => {
            let address: u32 = read_u32_be(ip[0], ip[1], ip[2], ip[3]);
            let new_address: u32 = address ^ MAGIC_COOKIE_FULL;
            let octets: [u8; 4] = write_u32_be(new_address);
            assert(octets =~= octets4(u32_be_bytes(new_address), 0));
            IpAddr::V4(octets)
        },
        IpAddr::V6(ip) => {
            let address: u128 = read_u128_be(&ip);
            let xor_mask: u128 = 0x2112A442_0000_0000_0000_0000_0000_0000u128 + transaction_id;
            let new_address: u128 = address ^ xor_mask;
            IpAddr::V6(write_u128_be(new_address))
        },
    };
    let processed_port: u16 = addr.port ^ MAGIC_COOKIE_MSB;

    Ok(SocketAddr::new(processed_ip, processed_port))
}

} // verus!
