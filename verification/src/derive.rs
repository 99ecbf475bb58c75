//! Traits for message types that are converted with derived implementations.

use vstd::prelude::*;
use crate::message::Message;

verus! {

/// A message has a service ID that is not known.
#[derive(Debug, Clone, Copy, PartialEq, Eq, Structural)]
pub struct UnknownServiceId {
    /// The service ID of the message.
    pub service_id: i32,
}

/// An error converting a message to a value.
#[derive(Debug)]
pub enum FromMessageError<ParseError> {
    /// The service ID of the message is not known.
    UnknownServiceId(UnknownServiceId),

    /// The body of the message could not be parsed.
    Parse(ParseError),
}

/// Decode a value from a message body.
pub trait FromMessageBody<Body>: Sized {
    /// The error when the body does not hold a valid value.
    type Error;

    /// Decode a value from a message body.
    fn from_message_body(body: &Body) -> Result<Self, Self::Error>;
}

/// Encode a value into a message body.
pub trait ToMessageBody<Body> {
    /// The error when the value can not be encoded.
    type Error;

    /// Encode the value into a message body.
    fn to_message_body(&self) -> Result<Body, Self::Error>;
}

/// Values that can be decoded from a message, using its service ID.
pub trait FromMessage<Body>: Sized {
    /// The error when the body does not hold a valid value.
    type ParseError;

    /// Decode a value from a message.
    fn from_message(message: &Message<Body>) -> Result<Self, FromMessageError<Self::ParseError>>;
}

/// Values that can be converted to a message.
pub trait ToMessage<Body>: Sized {
    /// The error when the value can not be converted.
    type Error;

    /// Convert the value.
    fn to_message(&self) -> Result<Self, Self::Error>;
}

} // verus!
