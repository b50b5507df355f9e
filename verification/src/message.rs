//! The values that identify a message: its class, its method and its
//! transaction ID.

use vstd::prelude::*;
use rand::RngCore;
use crate::errors::MessageDecodeError;

verus! {

/// The class for a given STUN message.
#[derive(Debug, Clone, Copy, PartialEq, Eq)]
pub enum MessageClass {
    /// Used by clients to request an operation from a server. The client would
    /// expect some response.
    Request,
    /// Used by clients to request an operation from a server. The client would
    /// not necessarily expect some response.
    Indication,
    /// Used by servers on messages containing a successful response to a
    /// request.
    SuccessResponse,
    /// Used by servers on messages containing a response to a request that
    /// indicates the presence of an error.
    ErrorResponse,
}

impl MessageClass {
    /// The two-bit number that stands for the class on the wire.
    pub open spec fn value(self) -> u16 {
        match self {
            MessageClass::Request => 0,
            MessageClass::Indication => 1,
            MessageClass::SuccessResponse => 2,
            MessageClass::ErrorResponse => 3,
        }
    }

    /// The class that a number stands for, if it stands for one.
    pub open spec fn from_value(value: u16) -> Result<MessageClass, MessageDecodeError> {
        if value == 0 {
            Ok(MessageClass::Request)
        } else if value == 1 {
            Ok(MessageClass::Indication)
        } else if value == 2 {
            Ok(MessageClass::SuccessResponse)
        } else if value == 3 {
            Ok(MessageClass::ErrorResponse)
        } else {
            Err(MessageDecodeError::InvalidMessageClass)
        }
    }
}

impl From<MessageClass> for u16 {
    fn from(other: MessageClass) -> (value: u16) {
        match other {
            MessageClass::Request => 0b00,
            MessageClass::Indication => 0b01,
            MessageClass::SuccessResponse => 0b10,
            MessageClass::ErrorResponse => 0b11,
        }
    }
}

impl vstd::std_specs::convert::FromSpecImpl<MessageClass> for u16 {
    open spec fn obeys_from_spec() -> bool {
        true
    }

    open spec fn from_spec(other: MessageClass) -> u16 {
        other.value()
    }
}

impl TryFrom<u16> for MessageClass {
    type Error = MessageDecodeError;

    fn try_from(value: u16) -> (result: Result<Self, Self::Error>) {
        match value {
            0 => Ok(MessageClass::Request),
            1 => Ok(MessageClass::Indication),
            2 => Ok(MessageClass::SuccessResponse),
            3 => Ok(MessageClass::ErrorResponse),
            _ => Err(MessageDecodeError::InvalidMessageClass),
        }
    }
}

impl vstd::std_specs::convert::TryFromSpecImpl<u16> for MessageClass {
    open spec fn obeys_try_from_spec() -> bool {
        true
    }

    open spec fn try_from_spec(value: u16) -> Result<Self, Self::Error> {
        MessageClass::from_value(value)
    }
}

/// The method of a STUN message: a number identifying the operation that the
/// sender wishes to have performed. Any value that can be stored in 12 bits is
/// a method.
#[derive(Debug, Clone, Copy, PartialEq, Eq)]
pub struct MessageMethod(u16);

impl MessageMethod {
    /// The largest number that is a method.
    pub const MAX: u16 = 4095;

    /// The number of the only method that RFC 5389 defines.
    pub const BINDING: u16 = 1;

    /// The number of the method.
    pub closed spec fn value(self) -> u16 {
        self.0
    }

    /// Every method fits in 12 bits.
    #[verifier::type_invariant]
    pub open spec fn wf(self) -> bool {
        self.value() <= 4095
    }

    /// The method that a number stands for, if it stands for one.
    pub open spec fn from_value(value: u16) -> Result<MessageMethod, MessageDecodeError> {
        if value <= 4095 {
            Ok(MessageMethod::with_value(value))
        } else {
            Err(MessageDecodeError::InvalidMessageMethod)
        }
    }

    /// The method with the given number.
    pub closed spec fn with_value(value: u16) -> MessageMethod {
        MessageMethod(value)
    }

    /// A method is its number and nothing else.
    pub broadcast proof fn lemma_with_value(value: u16)
        ensures
            #[trigger] MessageMethod::with_value(value).value() == value,
    {
    }

    /// Two methods with the same number are the same method.
    pub broadcast proof fn lemma_value_of(method: MessageMethod)
        ensures
            MessageMethod::with_value(#[trigger] method.value()) == method,
    {
    }

    /// Convert a u16 value into a method, erroring if the value is not a valid
    /// method, that is if it is outside of the range `0..=4095`.
    pub fn try_from_u16(value: u16) -> (result: Result<Self, MessageDecodeError>)
        ensures
            result == MessageMethod::from_value(value),
            result matches Ok(method) ==> method.value() == value,
    {
        if value <= MessageMethod::MAX {
            Ok(MessageMethod(value))
        } else {
            Err(MessageDecodeError::InvalidMessageMethod)
        }
    }

    /// The binding method, the only one that RFC 5389 defines.
    pub fn binding() -> (method: Self)
        ensures
            method == MessageMethod::with_value(1),
            method.value() == 1,
    {
        MessageMethod(MessageMethod::BINDING)
    }

    /// The number of the method.
    pub fn to_u16(self) -> (value: u16)
        ensures
            value == self.value(),
            value <= 4095,
    {
        proof {
            use_type_invariant(&self);
        }
        self.0
    }
}

impl From<MessageMethod> for u16 {
    fn from(other: MessageMethod) -> (value: u16) {
        other.to_u16()
    }
}

impl vstd::std_specs::convert::FromSpecImpl<MessageMethod> for u16 {
    open spec fn obeys_from_spec() -> bool {
        true
    }

    open spec fn from_spec(other: MessageMethod) -> u16 {
        other.value()
    }
}

impl TryFrom<u16> for MessageMethod {
    type Error = MessageDecodeError;

    fn try_from(value: u16) -> (result: Result<Self, Self::Error>) {
        MessageMethod::try_from_u16(value)
    }
}

impl vstd::std_specs::convert::TryFromSpecImpl<u16> for MessageMethod {
    open spec fn obeys_try_from_spec() -> bool {
        true
    }

    open spec fn try_from_spec(value: u16) -> Result<Self, Self::Error> {
        MessageMethod::from_value(value)
    }
}

/// The number of bytes in a transaction ID.
pub const TRANSACTION_ID_BYTES: usize = 12;

/// Represents the 96-bit value of the transaction ID for a STUN message.
///
/// The transaction ID is included in each request by a client, and a server
/// includes the same ID in its response. Two IDs are equal when their bytes
/// are.
#[derive(Debug, Clone, Copy, PartialEq, Eq, Hash)]
pub struct TransactionId {
    bytes: [u8; 12],
}

impl View for TransactionId {
    type V = Seq<u8>;

    /// The twelve bytes of the ID.
    closed spec fn view(&self) -> Seq<u8> {
        self.bytes@
    }
}

/// Twelve bytes from `rand::thread_rng`, filled by `RngCore::fill_bytes`. Which
/// bytes they are is up to the generator: nothing is claimed of them.
#[verifier::external_body]
fn random_bytes() -> (bytes: [u8; 12]) {
    let mut bytes: [u8; 12] = [0; 12];
    rand::thread_rng().fill_bytes(&mut bytes);
    bytes
}

impl TransactionId {
    /// The ID whose bytes are the first twelve of `bytes`.
    pub closed spec fn from_seq(bytes: Seq<u8>) -> TransactionId
        recommends
            bytes.len() >= 12,
    {
        TransactionId {
            bytes: [
                bytes[0],
                bytes[1],
                bytes[2],
                bytes[3],
                bytes[4],
                bytes[5],
                bytes[6],
                bytes[7],
                bytes[8],
                bytes[9],
                bytes[10],
                bytes[11],
            ],
        }
    }

    /// An ID is twelve bytes long.
    pub broadcast proof fn lemma_len(self)
        ensures
            #[trigger] self@.len() == 12,
    {
    }

    /// The ID made from twelve bytes or more has the first twelve as its
    /// bytes.
    pub broadcast proof fn lemma_from_seq(bytes: Seq<u8>)
        requires
            bytes.len() >= 12,
        ensures
            #[trigger] TransactionId::from_seq(bytes)@ == bytes.subrange(0, 12),
    {
        assert(TransactionId::from_seq(bytes)@ =~= bytes.subrange(0, 12));
    }

    /// An ID is its bytes and nothing else.
    pub broadcast proof fn lemma_view_of(self)
        ensures
            TransactionId::from_seq(#[trigger] self@) == self,
    {
        assert(TransactionId::from_seq(self@).bytes =~= self.bytes);
    }

    /// Generate a random transaction ID: twelve bytes from the thread-local
    /// generator of the `rand` crate, which is cryptographically secure.
    /// Nothing is known of the ID but that it is one.
    pub fn random() -> (id: Self) {
        TransactionId { bytes: random_bytes() }
    }

    /// The ID whose bytes are the first twelve of `bytes`.
    pub fn from_bytes(bytes: &[u8]) -> (id: Self)
        requires
            bytes@.len() >= 12,
        ensures
            id == TransactionId::from_seq(bytes@),
            id@ == bytes@.subrange(0, 12),
    {
        let mut buf: [u8; 12] = [0; 12];
        let mut i: usize = 0;
        while i < TRANSACTION_ID_BYTES
            invariant
                i <= TRANSACTION_ID_BYTES,
                bytes@.len() >= TRANSACTION_ID_BYTES,
                forall|j: int| 0 <= j < i ==> #[trigger] buf@[j] == bytes@[j],
            decreases TRANSACTION_ID_BYTES - i,
        {
            buf[i] = bytes[i];
            i += 1;
        }
        assert(buf@ =~= bytes@.subrange(0, 12));
        assert(buf =~= TransactionId::from_seq(bytes@).bytes);
        TransactionId { bytes: buf }
    }

    /// The twelve bytes of the ID.
    pub fn as_bytes(&self) -> (bytes: &[u8; 12])
        ensures
            bytes@ == self@,
    {
        &self.bytes
    }
}

} // verus!
