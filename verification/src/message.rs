//! RPC messages: the message type, the header and the message itself,
//! and the encoding of a header on the wire.

use vstd::prelude::*;
use crate::error::{Error, InnerError};
use crate::service_id;
use crate::transport::endian::{spec_u32_bytes, spec_u32_from, Endian};
use crate::wire::{lemma_u32_be_bytes_of_read, lemma_u32_be_roundtrip, lemma_u32_le_bytes_of_read, lemma_u32_le_roundtrip};

verus! {

/// The encoded length of a message header (excluding the frame size).
pub const HEADER_LEN: u32 = 12;

/// The maximum length of a message body.
///
/// This is the maximum possible length, limited by the 32 bit message length field and the presence of a message header.
/// Other (lower) limits may be enforced by the API or remote peers.
pub const MAX_PAYLOAD_LEN: u32 = 4294967283;

/// Trait for types that can be used as message body.
pub trait Body: Sized {
    /// Create a message body from an error message.
    fn from_error(message: &str) -> Self;
}

/// A complete RPC message, including header and body.
#[derive(Debug)]
pub struct Message<Body> {
    /// The header of the message.
    pub header: MessageHeader,

    /// The body of the message.
    pub body: Body,
}

impl<Body> Message<Body> {
    /// Create a new message with a header and a body.
    pub fn new(header: MessageHeader, body: Body) -> (r: Self)
        ensures
            r.header == header,
            r.body == body,
    {
        Self { header, body }
    }

    /// Create a new request message.
    pub fn request(request_id: u32, service_id: i32, body: Body) -> (r: Self)
        ensures
            r.header == MessageHeader::spec_new(MessageType::Request, request_id, service_id),
            r.body == body,
    {
        Self::new(MessageHeader::request(request_id, service_id), body)
    }

    /// Create a new response message.
    pub fn response(request_id: u32, service_id: i32, body: Body) -> (r: Self)
        ensures
            r.header == MessageHeader::spec_new(MessageType::Response, request_id, service_id),
            r.body == body,
    {
        Self::new(MessageHeader::response(request_id, service_id), body)
    }

    /// Create a new error response message.
    ///
    /// The body is made from the error message by [`Body::from_error`].
    pub fn error_response(request_id: u32, message: &str) -> (r: Self)
        where
            Body: crate::message::Body,
        ensures
            r.header == MessageHeader::spec_new(MessageType::Response, request_id, service_id::ERROR),
            call_ensures(Body::from_error, (message,), r.body),
    {
        Self::new(MessageHeader::response(request_id, service_id::ERROR), Body::from_error(message))
    }

    /// Create a new requester update message.
    pub fn requester_update(request_id: u32, service_id: i32, body: Body) -> (r: Self)
        ensures
            r.header == MessageHeader::spec_new(MessageType::RequesterUpdate, request_id, service_id),
            r.body == body,
    {
        Self::new(MessageHeader::requester_update(request_id, service_id), body)
    }

    /// Create a new responder update message.
    pub fn responder_update(request_id: u32, service_id: i32, body: Body) -> (r: Self)
        ensures
            r.header == MessageHeader::spec_new(MessageType::ResponderUpdate, request_id, service_id),
            r.body == body,
    {
        Self::new(MessageHeader::responder_update(request_id, service_id), body)
    }

    /// Create a new stream message.
    pub fn stream(request_id: u32, service_id: i32, body: Body) -> (r: Self)
        ensures
            r.header == MessageHeader::spec_new(MessageType::Stream, request_id, service_id),
            r.body == body,
    {
        Self::new(MessageHeader::stream(request_id, service_id), body)
    }
}

/// The type of a message.
#[derive(Debug, Clone, Copy, PartialEq, Eq, Structural, PartialOrd, Ord, Hash)]
pub enum MessageType {
    /// A message that initiates a request.
    Request,

    /// A response message that terminates a request.
    Response,

    /// An update message sent by the peer that initiated the request.
    RequesterUpdate,

    /// A response message sent by the peer that received the request.
    ResponderUpdate,

    /// A stream message that is sent outside of the context of a request.
    Stream,
}

impl MessageType {
    /// The number that encodes this message type on the wire.
    pub open spec fn spec_to_u32(self) -> u32 {
        match self {
            MessageType::Request => 0,
            MessageType::Response => 1,
            MessageType::RequesterUpdate => 2,
            MessageType::ResponderUpdate => 3,
            MessageType::Stream => 4,
        }
    }

    /// The message type that a number encodes, if any.
    pub open spec fn spec_from_u32(value: u32) -> Option<MessageType> {
        if value == 0 {
            Some(MessageType::Request)
        } else if value == 1 {
            Some(MessageType::Response)
        } else if value == 2 {
            Some(MessageType::RequesterUpdate)
        } else if value == 3 {
            Some(MessageType::ResponderUpdate)
        } else if value == 4 {
            Some(MessageType::Stream)
        } else {
            None
        }
    }

    /// Get the number that encodes this message type on the wire.
    pub fn to_u32(self) -> (r: u32)
        ensures
            r == self.spec_to_u32(),
    {
        match self {
            MessageType::Request => 0,
            MessageType::Response => 1,
            MessageType::RequesterUpdate => 2,
            MessageType::ResponderUpdate => 3,
            MessageType::Stream => 4,
        }
    }

    /// Try to convert a [`u32`] into a [`MessageType`]
    pub fn from_u32(value: u32) -> (r: Result<Self, Error>)
        ensures
            r is Ok <==> value <= 4,
            r matches Ok(t) ==> Some(t) == Self::spec_from_u32(value),
            r matches Err(e) ==> e@ == (InnerError::InvalidMessageType { value }),
    {
        match value {
            0 => Ok(Self::Request),
            1 => Ok(Self::Response),
            2 => Ok(Self::RequesterUpdate),
            3 => Ok(Self::ResponderUpdate),
            4 => Ok(Self::Stream),
            value => Err(Error::invalid_message_type(value)),
        }
    }

    /// Check if this message type is [`Self::Request`].
    pub fn is_request(self) -> (r: bool)
        ensures
            r == (self == MessageType::Request),
    {
        self == MessageType::Request
    }

    /// Check if this message type is [`Self::Response`].
    pub fn is_response(self) -> (r: bool)
        ensures
            r == (self == MessageType::Response),
    {
        self == MessageType::Response
    }

    /// Check if this message type is [`Self::RequesterUpdate`].
    pub fn is_requester_update(self) -> (r: bool)
        ensures
            r == (self == MessageType::RequesterUpdate),
    {
        self == MessageType::RequesterUpdate
    }

    /// Check if this message type is [`Self::ResponderUpdate`].
    pub fn is_responder_update(self) -> (r: bool)
        ensures
            r == (self == MessageType::ResponderUpdate),
    {
        self == MessageType::ResponderUpdate
    }

    /// Check if this message type is [`Self::Stream`].
    pub fn is_stream(self) -> (r: bool)
        ensures
            r == (self == MessageType::Stream),
    {
        self == MessageType::Stream
    }
}

/// A message header.
#[derive(Debug, Clone, Copy, PartialEq, Eq, Structural, PartialOrd, Ord, Hash)]
pub struct MessageHeader {
    /// The message type.
    pub message_type: MessageType,

    /// The request that the message is part of.
    ///
    /// Unused for stream messages.
    pub request_id: u32,

    /// The service that the message is for.
    ///
    /// For request messages, this indicates the service being requested.
    ///
    /// For response messages this indicates success or failure.
    ///
    /// For update messages this indicates the type of update.
    pub service_id: i32,
}

/// The twelve bytes of a header in a fixed byte order:
/// the message type, the request ID and the service ID, four bytes each.
pub open spec fn spec_header_bytes(endian: Endian, header: MessageHeader) -> Seq<u8> {
    spec_u32_bytes(endian, header.message_type.spec_to_u32())
        + spec_u32_bytes(endian, header.request_id)
        + spec_u32_bytes(endian, header.service_id as u32)
}

/// The header that the first twelve bytes of `b` hold in a fixed byte order,
/// or the invalid message type number they hold.
pub open spec fn spec_decode_header(endian: Endian, b: Seq<u8>) -> Result<MessageHeader, u32> {
    let value = spec_u32_from(endian, b);
    match MessageType::spec_from_u32(value) {
        Some(message_type) => Ok(MessageHeader {
            message_type,
            request_id: spec_u32_from(endian, b.skip(4)),
            service_id: spec_u32_from(endian, b.skip(8)) as i32,
        }),
        None => Err(value),
    }
}

/// `r` is the outcome of decoding `b` in one of the two byte orders.
pub open spec fn decoded_header(b: Seq<u8>, r: Result<MessageHeader, Error>, endian: Endian) -> bool {
    match spec_decode_header(endian, b) {
        Ok(h) => r == Ok::<MessageHeader, Error>(h),
        Err(value) => r matches Err(e) && e@ == (InnerError::InvalidMessageType { value }),
    }
}

impl MessageHeader {
    /// The header with the given fields.
    pub open spec fn spec_new(message_type: MessageType, request_id: u32, service_id: i32) -> MessageHeader {
        MessageHeader { message_type, request_id, service_id }
    }

    /// Create a new request message header.
    pub fn request(request_id: u32, service_id: i32) -> (r: Self)
        ensures
            r == Self::spec_new(MessageType::Request, request_id, service_id),
    {
        Self {
            message_type: MessageType::Request,
            request_id,
            service_id,
        }
    }

    /// Create a new response message header.
    pub fn response(request_id: u32, service_id: i32) -> (r: Self)
        ensures
            r == Self::spec_new(MessageType::Response, request_id, service_id),
    {
        Self {
            message_type: MessageType::Response,
            request_id,
            service_id,
        }
    }

    /// Create a new error response message header.
    pub fn error_response(request_id: u32) -> (r: Self)
        ensures
            r == Self::spec_new(MessageType::Response, request_id, service_id::ERROR),
    {
        Self::response(request_id, service_id::ERROR)
    }

    /// Create a new requester update message header.
    pub fn requester_update(request_id: u32, service_id: i32) -> (r: Self)
        ensures
            r == Self::spec_new(MessageType::RequesterUpdate, request_id, service_id),
    {
        Self {
            message_type: MessageType::RequesterUpdate,
            request_id,
            service_id,
        }
    }

    /// Create a new responder update message header.
    pub fn responder_update(request_id: u32, service_id: i32) -> (r: Self)
        ensures
            r == Self::spec_new(MessageType::ResponderUpdate, request_id, service_id),
    {
        Self {
            message_type: MessageType::ResponderUpdate,
            request_id,
            service_id,
        }
    }

    /// Create a new stream message header.
    pub fn stream(request_id: u32, service_id: i32) -> (r: Self)
        ensures
            r == Self::spec_new(MessageType::Stream, request_id, service_id),
    {
        Self {
            message_type: MessageType::Stream,
            request_id,
            service_id,
        }
    }

    /// Decode a message header from the twelve bytes at `offset` in a byte order that is not native.
    pub fn decode_at(buffer: &[u8], offset: usize, endian: Endian) -> (r: Result<Self, Error>)
        requires
            endian.is_fixed(),
            offset + HEADER_LEN <= buffer@.len(),
        ensures
            decoded_header(buffer@.skip(offset as int), r, endian),
    {
        // The length of a slice fits in a usize, so the offsets below do not overflow.
        let _len = buffer.len();
        let message_type = endian.read_u32_at(buffer, offset);
        let request_id = endian.read_u32_at(buffer, offset + 4);
        let service_id = endian.read_u32_at(buffer, offset + 8);
        assert(buffer@.skip(offset as int).skip(4) =~= buffer@.skip(offset + 4));
        assert(buffer@.skip(offset as int).skip(8) =~= buffer@.skip(offset + 8));
        let message_type = MessageType::from_u32(message_type)?;
        Ok(Self { message_type, request_id, service_id: service_id as i32 })
    }

    /// Encode a message header into the twelve bytes at `offset` in a byte order that is not native.
    pub fn encode_at(&self, buffer: &mut [u8], offset: usize, endian: Endian)
        requires
            endian.is_fixed(),
            offset + HEADER_LEN <= old(buffer)@.len(),
        ensures
            final(buffer)@ == old(buffer)@.take(offset as int) + spec_header_bytes(endian, *self)
                + old(buffer)@.skip(offset + 12),
    {
        // The length of a slice fits in a usize, so the offsets below do not overflow.
        let _len = buffer.len();
        endian.write_u32_at(buffer, offset, self.message_type.to_u32());
        endian.write_u32_at(buffer, offset + 4, self.request_id);
        endian.write_u32_at(buffer, offset + 8, self.service_id as u32);
        assert(final(buffer)@ =~= old(buffer)@.take(offset as int) + spec_header_bytes(endian, *self)
            + old(buffer)@.skip(offset + 12));
    }

    /// Decode a message header from the first twelve bytes of a byte slice.
    ///
    /// The byte slice should NOT contain the message size.
    /// The native byte order is resolved to the order of the platform first.
    pub fn decode(buffer: &[u8], endian: Endian) -> (r: Result<Self, Error>)
        requires
            buffer@.len() >= HEADER_LEN,
        ensures
            endian.is_fixed() ==> decoded_header(buffer@, r, endian),
            decoded_header(buffer@, r, Endian::LittleEndian) || decoded_header(buffer@, r, Endian::BigEndian),
    {
        let endian = endian.resolve();
        let r = Self::decode_at(buffer, 0, endian);
        assert(buffer@.skip(0) =~= buffer@);
        r
    }

    /// Encode a message header into the first twelve bytes of a byte slice.
    ///
    /// This will NOT add a message size.
    /// The native byte order is resolved to the order of the platform first.
    pub fn encode(&self, buffer: &mut [u8], endian: Endian)
        requires
            old(buffer)@.len() >= HEADER_LEN,
        ensures
            endian.is_fixed() ==> final(buffer)@ == spec_header_bytes(endian, *self) + old(buffer)@.skip(12),
            final(buffer)@ == spec_header_bytes(Endian::LittleEndian, *self) + old(buffer)@.skip(12)
                || final(buffer)@ == spec_header_bytes(Endian::BigEndian, *self) + old(buffer)@.skip(12),
    {
        let endian = endian.resolve();
        self.encode_at(buffer, 0, endian);
        assert(old(buffer)@.take(0) + spec_header_bytes(endian, *self) =~= spec_header_bytes(endian, *self));
    }
}

/// Every message type is encoded by a number that decodes to it again,
/// and no two message types share a number.
pub proof fn lemma_message_type_roundtrip(t: MessageType, u: MessageType)
    ensures
        MessageType::spec_from_u32(t.spec_to_u32()) == Some(t),
        t.spec_to_u32() == u.spec_to_u32() ==> t == u,
        t.spec_to_u32() <= 4,
{
}

/// Decoding the bytes of a header in a fixed byte order gives the header back.
pub proof fn lemma_header_roundtrip(endian: Endian, header: MessageHeader, rest: Seq<u8>)
    requires
        endian.is_fixed(),
    ensures
        spec_header_bytes(endian, header).len() == HEADER_LEN,
        spec_decode_header(endian, spec_header_bytes(endian, header) + rest) == Ok::<MessageHeader, u32>(header),
{
    let b = spec_header_bytes(endian, header) + rest;
    lemma_u32_le_roundtrip(header.message_type.spec_to_u32());
    lemma_u32_le_roundtrip(header.request_id);
    lemma_u32_le_roundtrip(header.service_id as u32);
    lemma_u32_be_roundtrip(header.message_type.spec_to_u32());
    lemma_u32_be_roundtrip(header.request_id);
    lemma_u32_be_roundtrip(header.service_id as u32);
    assert(b.take(4) =~= spec_u32_bytes(endian, header.message_type.spec_to_u32()));
    assert(b.skip(4).take(4) =~= spec_u32_bytes(endian, header.request_id));
    assert(b.skip(8).take(4) =~= spec_u32_bytes(endian, header.service_id as u32));
    assert(spec_u32_from(endian, b) == spec_u32_from(endian, b.take(4)));
    assert(spec_u32_from(endian, b.skip(4)) == spec_u32_from(endian, b.skip(4).take(4)));
    assert(spec_u32_from(endian, b.skip(8)) == spec_u32_from(endian, b.skip(8).take(4)));
    let sid = header.service_id;
    assert((sid as u32) as i32 == sid) by (bit_vector);
}

} // verus!
