//! The attributes of a message: a sequence of type-length-value entries, each
//! padded so that the next one starts on a multiple of four bytes.

pub mod mapped_address;

use vstd::prelude::*;
use crate::encodings::AttributeDecoder;
use crate::errors::MessageDecodeError;
use crate::utils::{
    lemma_padded_len_is_next_multiple, lemma_u16_be_roundtrip, padded_len,
    padding_for_attribute_length, padding_len, read_u16_be, u16_be_bytes, u16_from_be,
};

verus! {

/// The number of bytes in front of an attribute's value: its type and its
/// length, two bytes each.
pub const ATTRIBUTE_TYPE_LENGTH_BYTES: usize = 4;

/// The type of the MAPPED-ADDRESS attribute.
pub const MAPPED_ADDRESS: u16 = 0x0001;

/// The type of the CHANGE-REQUEST attribute.
pub const CHANGE_REQUEST: u16 = 0x0003;

/// The type of the XOR-MAPPED-ADDRESS attribute.
pub const XOR_MAPPED_ADDRESS: u16 = 0x0020;

/// The type of the SOFTWARE attribute.
pub const SOFTWARE: u16 = 0x8022;

/// The type of the RESPONSE-ORIGIN attribute.
pub const RESPONSE_ORIGIN: u16 = 0x802B;

/// The type of the OTHER-ADDRESS attribute.
pub const OTHER_ADDRESS: u16 = 0x802C;

/// One attribute of a message: its type, and its value without the padding.
#[derive(Debug)]
pub struct StunAttribute<'a> {
    pub attribute_type: u16,
    pub data: &'a [u8],
}

/// What an attribute says: its type and the bytes of its value.
pub struct AttributeView {
    pub attribute_type: u16,
    pub value: Seq<u8>,
}

impl<'a> View for StunAttribute<'a> {
    type V = AttributeView;

    open spec fn view(&self) -> AttributeView {
        AttributeView { attribute_type: self.attribute_type, value: self.data@ }
    }
}

impl<'a> StunAttribute<'a> {
    /// The type of the attribute.
    pub fn attribute_type(&self) -> (attribute_type: u16)
        ensures
            attribute_type == self.attribute_type,
    {
        self.attribute_type
    }

    /// Reads the value of the attribute with the given decoder.
    pub fn decode<T: AttributeDecoder<'a>>(&self, decoder: &T) -> (result: Result<
        T::Item,
        T::Error,
    >)
        ensures
            decoder.decodes(self.data@, result),
    {
        decoder.decode(self.data)
    }
}

/// The wire form of an attribute: its type, the length of its value, the
/// value, and zero bytes up to the next multiple of four.
pub open spec fn attribute_bytes(attribute: AttributeView) -> Seq<u8>
    recommends
        attribute.value.len() <= u16::MAX,
{
    u16_be_bytes(attribute.attribute_type) + u16_be_bytes(attribute.value.len() as u16)
        + attribute.value + Seq::new(padding_len(attribute.value.len()), |i: int| 0u8)
}

/// The wire form of attributes that follow each other.
pub open spec fn attributes_bytes(attributes: Seq<AttributeView>) -> Seq<u8>
    decreases attributes.len(),
{
    if attributes.len() == 0 {
        Seq::empty()
    } else {
        attributes_bytes(attributes.drop_last()) + attribute_bytes(attributes.last())
    }
}

/// The length that the attribute at the start of `data` states for its value.
pub open spec fn stated_len(data: Seq<u8>) -> nat
    recommends
        data.len() >= 4,
{
    u16_from_be(data[2], data[3]) as nat
}

/// Whether `data` starts with a whole attribute: its four leading bytes, its
/// value and its padding.
pub open spec fn starts_with_attribute(data: Seq<u8>) -> bool {
    data.len() >= 4 && data.len() - 4 >= padded_len(stated_len(data))
}

/// What comes first in `data`: nothing if `data` is empty, an attribute if
/// `data` starts with a whole one, and else the error that data ended early.
pub open spec fn first_attribute(data: Seq<u8>) -> Option<
    Result<AttributeView, MessageDecodeError>,
> {
    if data.len() == 0 {
        None
    } else if !starts_with_attribute(data) {
        Some(Err(MessageDecodeError::UnexpectedEndOfData))
    } else {
        Some(
            Ok(
                AttributeView {
                    attribute_type: u16_from_be(data[0], data[1]),
                    value: data.subrange(4, 4 + stated_len(data) as int),
                },
            ),
        )
    }
}

/// What is left of `data` behind what comes first: the bytes behind the first
/// attribute and its padding, and nothing if there is no whole attribute.
pub open spec fn after_first_attribute(data: Seq<u8>) -> Seq<u8> {
    if starts_with_attribute(data) {
        data.subrange(4 + padded_len(stated_len(data)) as int, data.len() as int)
    } else {
        Seq::empty()
    }
}

/// All that iterating over `data` yields, in order.
pub open spec fn decode_attributes(data: Seq<u8>) -> Seq<Result<AttributeView, MessageDecodeError>>
    decreases data.len(),
{
    match first_attribute(data) {
        None => Seq::empty(),
        Some(item) => seq![item] + decode_attributes(after_first_attribute(data)),
    }
}

/// Attributes as the items that iterating over their wire form yields.
pub open spec fn as_items(attributes: Seq<AttributeView>) -> Seq<
    Result<AttributeView, MessageDecodeError>,
> {
    Seq::new(attributes.len(), |i: int| Ok(attributes[i]))
}

/// The wire form of an attribute is its four leading bytes, its value and its
/// padding: `4 + 4 * ceil(n / 4)` bytes for a value of `n` bytes.
pub proof fn lemma_attribute_bytes_len(attribute: AttributeView)
    ensures
        attribute_bytes(attribute).len() == 4 + padded_len(attribute.value.len()),
        attribute_bytes(attribute).len() == 4 + 4 * ((attribute.value.len() + 3) / 4),
{
    lemma_padded_len_is_next_multiple(attribute.value.len());
}

/// Appending an attribute to others appends its wire form to theirs.
pub proof fn lemma_attributes_bytes_push(attributes: Seq<AttributeView>, attribute: AttributeView)
    ensures
        attributes_bytes(attributes.push(attribute)) == attributes_bytes(attributes)
            + attribute_bytes(attribute),
{
    assert(attributes.push(attribute).drop_last() =~= attributes);
}

/// The next attribute starts `4 + 4 * ceil(n / 4)` bytes behind the start of
/// an attribute whose value has `n` bytes, for every `n` that a length field
/// can state.
pub proof fn lemma_next_attribute_offset(data: Seq<u8>)
    requires
        starts_with_attribute(data),
    ensures
        after_first_attribute(data) == data.subrange(
            4 + 4 * ((stated_len(data) as int + 3) / 4),
            data.len() as int,
        ),
        stated_len(data) <= 65535,
{
    lemma_padded_len_is_next_multiple(stated_len(data));
}

/// An attribute whose stated length exceeds the bytes that follow its four
/// leading bytes is not yielded: the error is `UnexpectedEndOfData`, and
/// nothing is left to iterate over.
pub proof fn lemma_truncated_attribute(data: Seq<u8>)
    requires
        data.len() > 0,
        data.len() < 4 || stated_len(data) > data.len() - 4,
    ensures
        first_attribute(data) == Some(
            Err::<AttributeView, MessageDecodeError>(MessageDecodeError::UnexpectedEndOfData),
        ),
        after_first_attribute(data).len() == 0,
        first_attribute(after_first_attribute(data)) is None,
        decode_attributes(data) == seq![
            Err::<AttributeView, MessageDecodeError>(MessageDecodeError::UnexpectedEndOfData),
        ],
{
    assert(decode_attributes(after_first_attribute(data)) =~= Seq::empty());
    assert(decode_attributes(data) =~= seq![
        Err::<AttributeView, MessageDecodeError>(MessageDecodeError::UnexpectedEndOfData),
    ]);
}

/// Once iterating has yielded an error, it yields nothing more.
pub proof fn lemma_error_ends_iteration(data: Seq<u8>)
    requires
        first_attribute(data) matches Some(Err(_)),
    ensures
        after_first_attribute(data).len() == 0,
        first_attribute(after_first_attribute(data)) is None,
        decode_attributes(data).len() == 1,
{
    assert(decode_attributes(after_first_attribute(data)) =~= Seq::empty());
}

/// Iterating over the wire form of an attribute followed by other bytes
/// yields the attribute first, and then what iterating over the other bytes
/// yields.
pub proof fn lemma_decode_first(attribute: AttributeView, tail: Seq<u8>)
    requires
        attribute.value.len() <= 65535,
    ensures
        first_attribute(attribute_bytes(attribute) + tail) == Some(
            Ok::<AttributeView, MessageDecodeError>(attribute),
        ),
        after_first_attribute(attribute_bytes(attribute) + tail) == tail,
        decode_attributes(attribute_bytes(attribute) + tail) == seq![
            Ok::<AttributeView, MessageDecodeError>(attribute),
        ] + decode_attributes(tail),
{
    let own = attribute_bytes(attribute);
    let data = own + tail;
    let len = attribute.value.len();
    lemma_u16_be_roundtrip(attribute.attribute_type);
    lemma_u16_be_roundtrip(len as u16);
    assert(data[0] == u16_be_bytes(attribute.attribute_type)[0]);
    assert(data[1] == u16_be_bytes(attribute.attribute_type)[1]);
    assert(data[2] == u16_be_bytes(len as u16)[0]);
    assert(data[3] == u16_be_bytes(len as u16)[1]);
    assert(stated_len(data) == len);
    assert(own.len() == 4 + padded_len(len));
    assert(starts_with_attribute(data));
    assert(data.subrange(4, 4 + len as int) =~= attribute.value);
    assert(after_first_attribute(data) =~= tail);
}

/// Iterating over the wire form of attributes that follow each other yields
/// the same attributes in the same order, each with its type and its value,
/// and then nothing.
pub proof fn lemma_attributes_roundtrip(attributes: Seq<AttributeView>)
    requires
        forall|i: int| 0 <= i < attributes.len() ==> (#[trigger] attributes[i]).value.len() <= 65535,
    ensures
        decode_attributes(attributes_bytes(attributes)) == as_items(attributes),
{
    lemma_attributes_roundtrip_before(attributes, Seq::empty());
    assert(attributes_bytes(attributes) + Seq::<u8>::empty() =~= attributes_bytes(attributes));
    assert(decode_attributes(Seq::<u8>::empty()) =~= Seq::empty());
    assert(as_items(attributes) + Seq::empty() =~= as_items(attributes));
}

/// Iterating over the wire form of attributes followed by other bytes yields
/// the attributes in order, and then what iterating over the other bytes
/// yields.
pub proof fn lemma_attributes_roundtrip_before(attributes: Seq<AttributeView>, tail: Seq<u8>)
    requires
        forall|i: int| 0 <= i < attributes.len() ==> (#[trigger] attributes[i]).value.len() <= 65535,
    ensures
        decode_attributes(attributes_bytes(attributes) + tail) == as_items(attributes)
            + decode_attributes(tail),
    decreases attributes.len(),
{
    if attributes.len() == 0 {
        assert(attributes_bytes(attributes) + tail =~= tail);
        assert(as_items(attributes) + decode_attributes(tail) =~= decode_attributes(tail));
    } else {
        let init = attributes.drop_last();
        let last = attributes.last();
        let rest = attribute_bytes(last) + tail;
        assert(attributes_bytes(attributes) + tail =~= attributes_bytes(init) + rest);
        lemma_attributes_roundtrip_before(init, rest);
        lemma_decode_first(last, tail);
        assert(as_items(init) + (seq![Ok::<AttributeView, MessageDecodeError>(last)]
            + decode_attributes(tail)) =~= as_items(attributes) + decode_attributes(tail));
    }
}

/// Iterates over the bytes representing attributes, yielding a
/// `StunAttribute` for each attribute found.
///
/// If at any point in the iteration some problem is discovered (the bytes end
/// early), then an error is returned. Any subsequent call to `next()` will
/// return `None` after such an error.
pub struct StunAttributeIterator<'a> {
    pub(crate) data: &'a [u8],
}

impl<'a> View for StunAttributeIterator<'a> {
    type V = Seq<u8>;

    /// The bytes that are still to be read.
    closed spec fn view(&self) -> Seq<u8> {
        self.data@
    }
}

impl<'a> StunAttributeIterator<'a> {
    /// An iterator over the attributes in `data`.
    pub fn from_bytes(data: &'a [u8]) -> (iterator: Self)
        ensures
            iterator@ == data@,
    {
        Self { data }
    }

    /// The next attribute, an error if the bytes end before the attribute
    /// does, or `None` when no bytes are left. After an error no bytes are
    /// left. After an attribute whose value has `n` bytes, the bytes from
    /// `4 + 4 * ceil(n / 4)` on are left.
    pub fn next(&mut self) -> (item: Option<Result<StunAttribute<'a>, MessageDecodeError>>)
        ensures
            final(self)@ == after_first_attribute(old(self)@),
            match item {
                None => first_attribute(old(self)@) == None::<
                    Result<AttributeView, MessageDecodeError>,
                >,
                Some(Ok(attribute)) => first_attribute(old(self)@) == Some(
                    Ok::<AttributeView, MessageDecodeError>(attribute@),
                ),
                Some(Err(e)) => first_attribute(old(self)@) == Some(
                    Err::<AttributeView, MessageDecodeError>(e),
                ),
            },
            item is None ==> old(self)@.len() == 0 && final(self)@.len() == 0,
            item matches Some(Err(e)) ==> e == MessageDecodeError::UnexpectedEndOfData
                && final(self)@.len() == 0,
            item matches Some(Ok(attribute)) ==> final(self)@ == old(self)@.subrange(
                4 + 4 * ((attribute.data@.len() as int + 3) / 4),
                old(self)@.len() as int,
            ),
    {
        let data: &'a [u8] = self.data;
        if data.len() == 0 {
            assert(after_first_attribute(data@) =~= data@);
            return None;
        }
        if data.len() < ATTRIBUTE_TYPE_LENGTH_BYTES {
            self.data = &data[0..0];
            return Some(Err(MessageDecodeError::UnexpectedEndOfData));
        }
        let attribute_type: u16 = read_u16_be(data[0], data[1]);
        let data_length: usize = read_u16_be(data[2], data[3]) as usize;
        let padded_data_length: usize = data_length + padding_for_attribute_length(data_length);
        let remaining: usize = data.len() - ATTRIBUTE_TYPE_LENGTH_BYTES;
        if remaining < padded_data_length {
            self.data = &data[0..0];
            return Some(Err(MessageDecodeError::UnexpectedEndOfData));
        }
        proof {
            lemma_padded_len_is_next_multiple(data_length as nat);
        }
        let value: &'a [u8] = &data[4..4 + data_length];
        self.data = &data[4 + padded_data_length..data.len()];
        Some(Ok(StunAttribute { attribute_type, data: value }))
    }
}

} // verus!
