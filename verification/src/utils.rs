//! Byte-level helpers: in-place XOR, big-endian integers, the packing of the
//! message type field, and the padding that aligns attributes to 32 bits.

use vstd::prelude::*;
use crate::errors::MessageDecodeError;
use crate::message::{MessageClass, MessageMethod};

verus! {

/// Execute an in place XOR operation on `bytes` using bytes from `mask` as the
/// mask.
pub fn xor<const N: usize>(bytes: &mut [u8; N], mask: &[u8; N])
    ensures
        forall|i: int| 0 <= i < N ==> #[trigger] final(bytes)@[i] == old(bytes)@[i] ^ mask@[i],
{
    let mut i: usize = 0;
    while i < N
        invariant
            i <= N,
            forall|j: int| 0 <= j < i ==> #[trigger] bytes@[j] == old(bytes)@[j] ^ mask@[j],
            forall|j: int| i <= j < N ==> #[trigger] bytes@[j] == old(bytes)@[j],
        decreases N - i,
    {
        bytes[i] = bytes[i] ^ mask[i];
        i += 1;
    }
}

/// The 16-bit number whose big-endian bytes are `hi`, `lo`.
pub open spec fn u16_from_be(hi: u8, lo: u8) -> u16 {
    (hi as int * 256 + lo as int) as u16
}

/// The two bytes of a 16-bit number, most significant first.
pub open spec fn u16_be_bytes(n: u16) -> Seq<u8> {
    seq![(n / 256) as u8, (n % 256) as u8]
}

/// Reads a 16-bit number from its two big-endian bytes.
pub fn read_u16_be(hi: u8, lo: u8) -> (n: u16)
    ensures
        n == u16_from_be(hi, lo),
        u16_be_bytes(n) == seq![hi, lo],
{
    let n: u16 = (hi as u16) * 256 + (lo as u16);
    assert(u16_be_bytes(n) =~= seq![hi, lo]);
    n
}

/// Reading the big-endian bytes of a number gives the number back.
pub proof fn lemma_u16_be_roundtrip(n: u16)
    ensures
        u16_be_bytes(n).len() == 2,
        u16_from_be(u16_be_bytes(n)[0], u16_be_bytes(n)[1]) == n,
{
}

/// The 32-bit number whose big-endian bytes are `b0`, `b1`, `b2`, `b3`.
pub open spec fn u32_from_be(b0: u8, b1: u8, b2: u8, b3: u8) -> u32 {
    (b0 as int * 0x100_0000 + b1 as int * 0x1_0000 + b2 as int * 0x100 + b3 as int) as u32
}

/// The four bytes of a 32-bit number, most significant first.
pub open spec fn u32_be_bytes(n: u32) -> Seq<u8> {
    seq![
        (n / 0x100_0000) as u8,
        (n / 0x1_0000 % 0x100) as u8,
        (n / 0x100 % 0x100) as u8,
        (n % 0x100) as u8,
    ]
}

/// Reads a 32-bit number from its four big-endian bytes.
pub fn read_u32_be(b0: u8, b1: u8, b2: u8, b3: u8) -> (n: u32)
    ensures
        n == u32_from_be(b0, b1, b2, b3),
        n == b0 * 0x100_0000 + b1 * 0x1_0000 + b2 * 0x100 + b3,
{
    (b0 as u32) * 0x100_0000 + (b1 as u32) * 0x1_0000 + (b2 as u32) * 0x100 + (b3 as u32)
}

/// The four big-endian bytes of a 32-bit number.
pub fn write_u32_be(n: u32) -> (octets: [u8; 4])
    ensures
        octets@ == u32_be_bytes(n),
{
    let octets: [u8; 4] = [
        (n / 0x100_0000) as u8,
        (n / 0x1_0000 % 0x100) as u8,
        (n / 0x100 % 0x100) as u8,
        (n % 0x100) as u8,
    ];
    assert(octets@ =~= u32_be_bytes(n));
    octets
}

/// The 128-bit number whose big-endian bytes are the sixteen given ones.
pub open spec fn u128_from_be(bytes: Seq<u8>) -> u128
    recommends
        bytes.len() == 16,
{
    ((bytes[0] as u128) << 120) | ((bytes[1] as u128) << 112) | ((bytes[2] as u128) << 104) | ((
    bytes[3] as u128) << 96) | ((bytes[4] as u128) << 88) | ((bytes[5] as u128) << 80) | ((
    bytes[6] as u128) << 72) | ((bytes[7] as u128) << 64) | ((bytes[8] as u128) << 56) | ((
    bytes[9] as u128) << 48) | ((bytes[10] as u128) << 40) | ((bytes[11] as u128) << 32) | ((
    bytes[12] as u128) << 24) | ((bytes[13] as u128) << 16) | ((bytes[14] as u128) << 8) | (
    bytes[15] as u128)
}

/// The sixteen bytes of a 128-bit number, most significant first.
pub open spec fn u128_be_octets(n: u128) -> [u8; 16] {
    [
        ((n >> 120) & 0xff) as u8,
        ((n >> 112) & 0xff) as u8,
        ((n >> 104) & 0xff) as u8,
        ((n >> 96) & 0xff) as u8,
        ((n >> 88) & 0xff) as u8,
        ((n >> 80) & 0xff) as u8,
        ((n >> 72) & 0xff) as u8,
        ((n >> 64) & 0xff) as u8,
        ((n >> 56) & 0xff) as u8,
        ((n >> 48) & 0xff) as u8,
        ((n >> 40) & 0xff) as u8,
        ((n >> 32) & 0xff) as u8,
        ((n >> 24) & 0xff) as u8,
        ((n >> 16) & 0xff) as u8,
        ((n >> 8) & 0xff) as u8,
        (n & 0xff) as u8,
    ]
}

/// Reads a 128-bit number from its sixteen big-endian bytes.
pub fn read_u128_be(bytes: &[u8; 16]) -> (n: u128)
    ensures
        n == u128_from_be(bytes@),
{
    ((bytes[0] as u128) << 120) | ((bytes[1] as u128) << 112) | ((bytes[2] as u128) << 104) | ((
    bytes[3] as u128) << 96) | ((bytes[4] as u128) << 88) | ((bytes[5] as u128) << 80) | ((
    bytes[6] as u128) << 72) | ((bytes[7] as u128) << 64) | ((bytes[8] as u128) << 56) | ((
    bytes[9] as u128) << 48) | ((bytes[10] as u128) << 40) | ((bytes[11] as u128) << 32) | ((
    bytes[12] as u128) << 24) | ((bytes[13] as u128) << 16) | ((bytes[14] as u128) << 8) | (
    bytes[15] as u128)
}

/// The sixteen big-endian bytes of a 128-bit number.
pub fn write_u128_be(n: u128) -> (octets: [u8; 16])
    ensures
        octets == u128_be_octets(n),
{
    let octets: [u8; 16] = [
        #[verifier::truncate] (((n >> 120) & 0xff) as u8),
        #[verifier::truncate] (((n >> 112) & 0xff) as u8),
        #[verifier::truncate] (((n >> 104) & 0xff) as u8),
        #[verifier::truncate] (((n >> 96) & 0xff) as u8),
        #[verifier::truncate] (((n >> 88) & 0xff) as u8),
        #[verifier::truncate] (((n >> 80) & 0xff) as u8),
        #[verifier::truncate] (((n >> 72) & 0xff) as u8),
        #[verifier::truncate] (((n >> 64) & 0xff) as u8),
        #[verifier::truncate] (((n >> 56) & 0xff) as u8),
        #[verifier::truncate] (((n >> 48) & 0xff) as u8),
        #[verifier::truncate] (((n >> 40) & 0xff) as u8),
        #[verifier::truncate] (((n >> 32) & 0xff) as u8),
        #[verifier::truncate] (((n >> 24) & 0xff) as u8),
        #[verifier::truncate] (((n >> 16) & 0xff) as u8),
        #[verifier::truncate] (((n >> 8) & 0xff) as u8),
        #[verifier::truncate] ((n & 0xff) as u8),
    ];
    assert(octets =~= u128_be_octets(n));
    octets
}

/// A 128-bit number whose first four big-endian bytes are zero has at most
/// 96 bits.
pub proof fn lemma_u128_upper_bytes_zero(bytes: Seq<u8>)
    requires
        bytes.len() == 16,
        bytes[0] == 0,
        bytes[1] == 0,
        bytes[2] == 0,
        bytes[3] == 0,
    ensures
        u128_from_be(bytes) <= 0xffff_ffff_ffff_ffff_ffff_ffff,
{
    let (b4, b5, b6, b7) = (bytes[4], bytes[5], bytes[6], bytes[7]);
    let (b8, b9, b10, b11) = (bytes[8], bytes[9], bytes[10], bytes[11]);
    let (b12, b13, b14, b15) = (bytes[12], bytes[13], bytes[14], bytes[15]);
    assert((((0u8 as u128) << 120) | ((0u8 as u128) << 112) | ((0u8 as u128) << 104) | ((
    0u8 as u128) << 96) | ((b4 as u128) << 88) | ((b5 as u128) << 80) | ((b6 as u128) << 72) | ((
    b7 as u128) << 64) | ((b8 as u128) << 56) | ((b9 as u128) << 48) | ((b10 as u128) << 40) | ((
    b11 as u128) << 32) | ((b12 as u128) << 24) | ((b13 as u128) << 16) | ((b14 as u128) << 8) | (
    b15 as u128)) <= 0xffff_ffff_ffff_ffff_ffff_ffffu128) by (bit_vector);
}

/// The bits that a class contributes to the message type field: its upper bit
/// at position 8, its lower bit at position 4.
pub open spec fn class_type_bits(class: u16) -> u16 {
    ((class & 0b10) << 7) | ((class & 0b01) << 4)
}

/// The bits that a method contributes to the message type field: its upper
/// five bits at positions 9 to 13, the next three at positions 5 to 7, and its
/// lower four bits in place.
pub open spec fn method_type_bits(method: u16) -> u16 {
    ((method & 0b0000_1111_1000_0000) << 2) | ((method & 0b0000_0000_0111_0000) << 1) | (method
        & 0b0000_0000_0000_1111)
}

/// The message type field of a class and a method, whose layout from the most
/// significant bit down is `00MMMMMCMMMCMMMM`.
pub open spec fn message_type(class: MessageClass, method: MessageMethod) -> u16 {
    class_type_bits(class.value()) | method_type_bits(method.value())
}

/// The number of the class in a message type field.
pub open spec fn type_class_value(type_value: u16) -> u16 {
    ((type_value & 0b0000_0001_0000_0000) >> 7) | ((type_value & 0b0000_0000_0001_0000) >> 4)
}

/// The number of the method in a message type field.
pub open spec fn type_method_value(type_value: u16) -> u16 {
    ((type_value & 0b0011_1110_0000_0000) >> 2) | ((type_value & 0b0000_0000_1110_0000) >> 1) | (
    type_value & 0b0000_0000_0000_1111)
}

/// The class in a message type field.
pub open spec fn type_class(type_value: u16) -> MessageClass {
    let value = type_class_value(type_value);
    if value == 0 {
        MessageClass::Request
    } else if value == 1 {
        MessageClass::Indication
    } else if value == 2 {
        MessageClass::SuccessResponse
    } else {
        MessageClass::ErrorResponse
    }
}

/// The method in a message type field.
pub open spec fn type_method(type_value: u16) -> MessageMethod {
    MessageMethod::with_value(type_method_value(type_value))
}

/// What two bytes decode to as a message type field: the class and the method
/// in the 16-bit number that they are the big-endian form of.
pub open spec fn decoded_message_type(bytes: Seq<u8>) -> (MessageClass, MessageMethod)
    recommends
        bytes.len() == 2,
{
    (type_class(u16_from_be(bytes[0], bytes[1])), type_method(u16_from_be(bytes[0], bytes[1])))
}

/// Serializes the first two bytes of a STUN message in big endian form: two
/// zero bits, then the class and the method interleaved.
pub fn encode_message_type(class: MessageClass, method: MessageMethod) -> (bytes: [u8; 2])
    ensures
        bytes@ == u16_be_bytes(message_type(class, method)),
{
    let class_value: u16 = u16::from(class);
    let method_value: u16 = method.to_u16();
    let final_value: u16 = ((class_value & 0b10) << 7) | ((class_value & 0b01) << 4) | ((
    method_value & 0b0000_1111_1000_0000) << 2) | ((method_value & 0b0000_0000_0111_0000) << 1)
        | (method_value & 0b0000_0000_0000_1111);
    assert(final_value == class_type_bits(class_value) | method_type_bits(method_value))
        by (bit_vector)
        requires
            final_value == ((class_value & 0b10) << 7) | ((class_value & 0b01) << 4) | ((
            method_value & 0b0000_1111_1000_0000) << 2) | ((method_value & 0b0000_0000_0111_0000)
                << 1) | (method_value & 0b0000_0000_0000_1111),
    ;
    let bytes: [u8; 2] = [(final_value / 256) as u8, (final_value % 256) as u8];
    assert(bytes@ =~= u16_be_bytes(final_value));
    bytes
}

/// Decode the first two bytes of a STUN message in big endian form into a
/// message class and method. Every pair of bytes decodes: the two upper bits
/// are not looked at, and the other fourteen always hold a class and a method.
pub fn decode_message_type(bytes: [u8; 2]) -> (result: Result<
    (MessageClass, MessageMethod),
    MessageDecodeError,
>)
    ensures
        result == Ok::<(MessageClass, MessageMethod), MessageDecodeError>(
            decoded_message_type(bytes@),
        ),
{
    let type_value: u16 = read_u16_be(bytes[0], bytes[1]);
    let class_value: u16 = ((type_value & 0b0000_0001_0000_0000) >> 7) | ((type_value
        & 0b0000_0000_0001_0000) >> 4);
    let method_value: u16 = ((type_value & 0b0011_1110_0000_0000) >> 2) | ((type_value
        & 0b0000_0000_1110_0000) >> 1) | (type_value & 0b0000_0000_0000_1111);
    proof {
        lemma_type_values_in_range(type_value);
    }
    let class = match MessageClass::try_from(class_value) {
        Ok(class) => class,
        Err(e) => { return Err(e); },
    };
    let method = match MessageMethod::try_from_u16(method_value) {
        Ok(method) => method,
        Err(e) => { return Err(e); },
    };
    Ok((class, method))
}

/// The class and the method in a message type field are always in range.
pub proof fn lemma_type_values_in_range(type_value: u16)
    ensures
        type_class_value(type_value) <= 3,
        type_method_value(type_value) <= 4095,
{
    assert(((type_value & 0b0000_0001_0000_0000) >> 7) | ((type_value & 0b0000_0000_0001_0000)
        >> 4) <= 3) by (bit_vector);
    assert(((type_value & 0b0011_1110_0000_0000) >> 2) | ((type_value & 0b0000_0000_1110_0000)
        >> 1) | (type_value & 0b0000_0000_0000_1111) <= 4095) by (bit_vector);
}

/// Packing a class number and a method number into a type field and taking
/// them out again gives both back, and the two upper bits of the field are
/// zero.
pub proof fn lemma_type_bits_roundtrip(class: u16, method: u16)
    requires
        class <= 3,
        method <= 4095,
    ensures
        type_class_value(class_type_bits(class) | method_type_bits(method)) == class,
        type_method_value(class_type_bits(class) | method_type_bits(method)) == method,
        (class_type_bits(class) | method_type_bits(method)) & 0b1100_0000_0000_0000 == 0,
{
    let t = (((class & 0b10) << 7) | ((class & 0b01) << 4)) | (((method & 0b0000_1111_1000_0000)
        << 2) | ((method & 0b0000_0000_0111_0000) << 1) | (method & 0b0000_0000_0000_1111));
    assert(class <= 3 && method <= 4095 ==> (((t & 0b0000_0001_0000_0000) >> 7) | ((t
        & 0b0000_0000_0001_0000) >> 4)) == class) by (bit_vector)
        requires
            t == (((class & 0b10) << 7) | ((class & 0b01) << 4)) | (((method
                & 0b0000_1111_1000_0000) << 2) | ((method & 0b0000_0000_0111_0000) << 1) | (method
                & 0b0000_0000_0000_1111)),
    ;
    assert(class <= 3 && method <= 4095 ==> (((t & 0b0011_1110_0000_0000) >> 2) | ((t
        & 0b0000_0000_1110_0000) >> 1) | (t & 0b0000_0000_0000_1111)) == method) by (bit_vector)
        requires
            t == (((class & 0b10) << 7) | ((class & 0b01) << 4)) | (((method
                & 0b0000_1111_1000_0000) << 2) | ((method & 0b0000_0000_0111_0000) << 1) | (method
                & 0b0000_0000_0000_1111)),
    ;
    assert(class <= 3 && method <= 4095 ==> t & 0b1100_0000_0000_0000 == 0) by (bit_vector)
        requires
            t == (((class & 0b10) << 7) | ((class & 0b01) << 4)) | (((method
                & 0b0000_1111_1000_0000) << 2) | ((method & 0b0000_0000_0111_0000) << 1) | (method
                & 0b0000_0000_0000_1111)),
    ;
}

/// Taking the class and the method out of the type field that was packed
/// from them gives both back, for every class and every method. The packed
/// field has its two upper bits clear.
pub proof fn lemma_message_type_roundtrip(class: MessageClass, method: MessageMethod)
    requires
        method.wf(),
    ensures
        type_class(message_type(class, method)) == class,
        type_method(message_type(class, method)) == method,
        message_type(class, method) < 0x4000,
{
    lemma_type_bits_roundtrip(class.value(), method.value());
    MessageMethod::lemma_value_of(method);
    let t = message_type(class, method);
    assert(t & 0b1100_0000_0000_0000 == 0 ==> t < 0x4000) by (bit_vector);
}

/// Decoding the two bytes that a class and a method were encoded to gives
/// both back.
pub proof fn lemma_encode_decode_message_type(class: MessageClass, method: MessageMethod)
    requires
        method.wf(),
    ensures
        decoded_message_type(u16_be_bytes(message_type(class, method))) == (class, method),
{
    lemma_message_type_roundtrip(class, method);
    lemma_u16_be_roundtrip(message_type(class, method));
}

/// Attributes start on multiples of this many bytes.
pub const ALIGNMENT_BYTES: usize = 4;

/// The number of padding bytes that follow an attribute value of `length`
/// bytes: the least `p` such that `length + p` is a multiple of four.
pub open spec fn padding_len(length: nat) -> nat {
    ((4 - length % 4) % 4) as nat
}

/// The length of an attribute value together with its padding.
pub open spec fn padded_len(length: nat) -> nat {
    length + padding_len(length)
}

/// Given the length of an attribute, determine how many bytes worth of padding
/// must be appended to the end of the attribute data section.
pub fn padding_for_attribute_length(length: usize) -> (padding: usize)
    ensures
        padding == padding_len(length as nat),
        padding < 4,
{
    let extra: usize = length % ALIGNMENT_BYTES;
    if extra != 0 {
        ALIGNMENT_BYTES - extra
    } else {
        0
    }
}

/// The padded length of a value is the next multiple of four: four times the
/// ceiling of `length / 4`.
pub proof fn lemma_padded_len_is_next_multiple(length: nat)
    ensures
        padded_len(length) == 4 * ((length + 3) / 4),
        padded_len(length) % 4 == 0,
        length <= padded_len(length) < length + 4,
{
}

} // verus!
