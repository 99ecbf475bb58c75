//! Traits and errors used by generated RPC interfaces.
//!
//! A [`Protocol`] says how message bodies are encoded and decoded;
//! the other traits convert between Rust values and messages of a protocol.

use vstd::prelude::*;
use crate::message::Message;

verus! {

/// Decode a value from a message body.
pub trait FromMessageBody<Body>: Sized {
    /// The error when the body does not hold a valid value.
    type Error;

    /// Decode a value from a message body.
    fn from_message_body(body: &Body) -> Result<Self, Self::Error>;
}

/// Encode a value into a message body.
pub trait ToMessageBody<Body> {
    /// The error when the value can not be encoded.
    type Error;

    /// Encode the value into a message body.
    fn to_message_body(&self) -> Result<Body, Self::Error>;
}

/// A message format: the body type and how values are encoded in it.
///
/// Values are encoded with [`Encode::encode`] and decoded with [`Decode::decode`].
pub trait Protocol {
    /// The error when a value can not be encoded.
    type EncodeError;

    /// The error when a body does not hold a valid value.
    type DecodeError;

    /// The body type of the messages.
    type Body: crate::message::Body;
}

/// Encode a value into a message body of protocol `P`.
pub fn encode<P: Protocol + ?Sized, T: Encode<P>>(value: T) -> Result<P::Body, P::EncodeError> {
    value.encode()
}

/// Decode a value from a message body of protocol `P`.
pub fn decode<P: Protocol + ?Sized, T: Decode<P>>(body: P::Body) -> Result<T, P::DecodeError> {
    T::decode(body)
}

/// Values that a protocol can encode into a message body.
pub trait Encode<P: Protocol + ?Sized> {
    /// Encode the value into a message body.
    fn encode(self) -> Result<P::Body, P::EncodeError>;
}

/// Values that a protocol can decode from a message body.
pub trait Decode<P: Protocol + ?Sized>: Sized {
    /// Decode a value from a message body.
    fn decode(body: P::Body) -> Result<Self, P::DecodeError>;
}

/// Values that can be encoded to a message, including the service ID.
pub trait ToMessage<P: Protocol + ?Sized> {
    /// Encode the value to a service ID and a message body.
    fn to_message(self) -> Result<(i32, P::Body), P::EncodeError>;
}

/// Values that can be decoded from a message, using its service ID.
pub trait FromMessage<P: Protocol + ?Sized>: Sized {
    /// Decode a value from a message.
    fn from_message(message: Message<P::Body>) -> Result<Self, FromMessageError<P::DecodeError>>;
}

/// A message has a service ID that the interface does not know.
#[derive(Debug, Clone, Copy, PartialEq, Eq, Structural)]
pub struct UnexpectedServiceId {
    /// The service ID of the message.
    pub service_id: i32,
}

/// An error decoding a message.
#[derive(Debug)]
pub enum FromMessageError<DecodeError> {
    /// The service ID was not recognized.
    UnexpectedServiceId(UnexpectedServiceId),

    /// Failed to decode the message body.
    DecodeBody(DecodeError),
}

impl<DecodeError> FromMessageError<DecodeError> {
    /// The error for a message with a service ID that the interface does not know.
    pub fn unexpected_service_id(service_id: i32) -> (r: Self)
        ensures
            r == FromMessageError::<DecodeError>::UnexpectedServiceId(UnexpectedServiceId { service_id }),
    {
        FromMessageError::UnexpectedServiceId(UnexpectedServiceId { service_id })
    }
}

} // verus!
