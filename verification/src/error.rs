//! Error types.

use vstd::prelude::*;
use vstd::string::StringExecFns;
use crate::message::{MessageType, HEADER_LEN};
use crate::text::{push_decimal, push_signed_decimal, spec_decimal, spec_signed_decimal};

verus! {

#[verifier::external_type_specification]
#[verifier::external_body]
pub struct ExIoError(std::io::Error);

/// Checks whether an I/O error has kind `std::io::ErrorKind::ConnectionAborted`
/// by comparing `error.kind()` with that kind.
/// The error is opaque here, so nothing is stated of the answer.
#[verifier::external_body]
fn io_error_is_connection_aborted(error: &std::io::Error) -> bool {
    error.kind() == std::io::ErrorKind::ConnectionAborted
}

/// Renders an I/O error as text with its `Display` implementation (`to_string`).
/// The error is opaque here, so nothing is stated of the text.
#[verifier::external_body]
fn io_error_to_string(error: &std::io::Error) -> String {
    error.to_string()
}

/// Makes a fresh `std::io::Error` of kind `ConnectionAborted`
/// with `std::io::Error::from(std::io::ErrorKind::ConnectionAborted)`.
#[verifier::external_body]
fn new_connection_aborted_io_error() -> std::io::Error {
    std::io::Error::from(std::io::ErrorKind::ConnectionAborted)
}

/// An I/O error, together with whether it signals that the remote peer closed the connection.
///
/// Only this crate makes one, so that the flag always comes from the error's kind.
#[derive(Debug)]
pub struct IoError {
    /// The I/O error.
    pub(crate) error: std::io::Error,

    /// The error has kind `std::io::ErrorKind::ConnectionAborted`.
    pub(crate) connection_aborted: bool,
}

impl IoError {
    /// The I/O error.
    pub closed spec fn spec_error(&self) -> std::io::Error {
        self.error
    }

    /// Whether the error signals that the remote peer closed the connection.
    pub closed spec fn spec_connection_aborted(&self) -> bool {
        self.connection_aborted
    }

    /// The I/O error.
    pub fn error(&self) -> (r: &std::io::Error)
        ensures
            *r == self.spec_error(),
    {
        &self.error
    }

    /// Whether the error has kind `std::io::ErrorKind::ConnectionAborted`.
    pub fn is_connection_aborted(&self) -> (r: bool)
        ensures
            r == self.spec_connection_aborted(),
    {
        self.connection_aborted
    }
}

/// Opaque error for all RPC operations.
#[derive(Debug)]
pub struct Error {
    pub(crate) inner: InnerError,
}

impl View for Error {
    type V = InnerError;

    closed spec fn view(&self) -> InnerError {
        self.inner
    }
}

/// The received message had an unexpected type.
#[derive(Debug, Clone, Copy, PartialEq, Eq, Structural)]
pub struct UnexpectedMessageType {
    /// The actual type of the received message.
    pub value: MessageType,

    /// The expected type of the received message.
    pub expected: MessageType,
}

/// The kinds of error that an [`Error`] can hold.
#[derive(Debug)]
pub enum InnerError {
    /// An I/O error occurred.
    Io(IoError),

    /// The received message is too short to be valid.
    MessageTooShort { message_len: usize },

    /// The received message has an invalid type.
    InvalidMessageType {
        /// The received value.
        value: u32,
    },

    /// The message body is too large.
    PayloadTooLarge {
        /// The actual length of the message body in bytes.
        body_len: usize,

        /// The maximum allowed length of a message body in bytes.
        max_len: usize,
    },

    /// The request ID is already associated with an open request.
    DuplicateRequestId {
        /// The duplicate request ID.
        request_id: u32,
    },

    /// The request ID is not associated with an open request.
    UnknownRequestId {
        /// The unknown request ID.
        request_id: u32,
    },

    /// The received message has an unexpected message type.
    UnexpectedMessageType(UnexpectedMessageType),

    /// The received message has an unexpected service ID.
    UnexpectedServiceId {
        /// The unrecognized/unexpected service ID.
        service_id: i32,
    },

    /// No free request ID was found.
    NoFreeRequestIdFound,

    /// The request has already been closed.
    RequestClosed,

    /// Failed to encode the message; the description of the encoder's error.
    EncodeFailed(String),

    /// Failed to decode the message; the description of the decoder's error.
    DecodeFailed(String),

    /// The remote peer replied with an error instead of the regular response.
    RemoteError(String),

    /// A custom error message.
    Custom(String),
}

impl From<InnerError> for Error {
    fn from(error: InnerError) -> (r: Error) {
        Error { inner: error }
    }
}

impl vstd::std_specs::convert::FromSpecImpl<InnerError> for Error {
    open spec fn obeys_from_spec() -> bool {
        true
    }

    closed spec fn from_spec(v: InnerError) -> Error {
        Error { inner: v }
    }
}

impl From<std::io::Error> for Error {
    fn from(error: std::io::Error) -> (r: Error) {
        Error::io_error(error)
    }
}

/// Whether an I/O error has kind `ConnectionAborted` cannot be seen here, so the conversion
/// does not claim a result beyond what [`Error::io_error`] states.
impl vstd::std_specs::convert::FromSpecImpl<std::io::Error> for Error {
    open spec fn obeys_from_spec() -> bool {
        false
    }

    closed spec fn from_spec(v: std::io::Error) -> Error {
        choose|e: Error| e.inner matches InnerError::Io(io) && io.error == v
    }
}

impl Error {
    /// Create an error from its inner kind.
    pub fn new(inner: InnerError) -> (r: Self)
        ensures
            r@ == inner,
    {
        Error { inner }
    }

    /// Create a new error from an I/O error.
    pub fn io_error(error: std::io::Error) -> (r: Self)
        ensures
            r@ matches InnerError::Io(e) && e.spec_error() == error,
    {
        let connection_aborted = io_error_is_connection_aborted(&error);
        Error { inner: InnerError::Io(IoError { error, connection_aborted }) }
    }

    /// Create a new error for a message that is too short to be valid.
    pub fn message_too_short(message_len: usize) -> (r: Self)
        ensures
            r@ == (InnerError::MessageTooShort { message_len }),
    {
        Error { inner: InnerError::MessageTooShort { message_len } }
    }

    /// Create a new error for a message with an invalid message type in the header.
    pub fn invalid_message_type(value: u32) -> (r: Self)
        ensures
            r@ == (InnerError::InvalidMessageType { value }),
    {
        Error { inner: InnerError::InvalidMessageType { value } }
    }

    /// Create a new error for a message with an body that exceeds the allowed size.
    pub fn payload_too_large(body_len: usize, max_len: usize) -> (r: Self)
        ensures
            r@ == (InnerError::PayloadTooLarge { body_len, max_len }),
    {
        Error { inner: InnerError::PayloadTooLarge { body_len, max_len } }
    }

    /// Create a new error for an incoming message with an unexpected service ID.
    pub fn unexpected_service_id(service_id: i32) -> (r: Self)
        ensures
            r@ == (InnerError::UnexpectedServiceId { service_id }),
    {
        Error { inner: InnerError::UnexpectedServiceId { service_id } }
    }

    /// Create a new error for an outgoing message body that could not be encoded.
    ///
    /// The argument is the description of the encoder's error.
    pub fn encode_failed(inner: String) -> (r: Self)
        ensures
            r@ == InnerError::EncodeFailed(inner),
    {
        Error { inner: InnerError::EncodeFailed(inner) }
    }

    /// Create a new error for an incoming message with a body that could not be decoded.
    ///
    /// The argument is the description of the decoder's error.
    pub fn decode_failed(inner: String) -> (r: Self)
        ensures
            r@ == InnerError::DecodeFailed(inner),
    {
        Error { inner: InnerError::DecodeFailed(inner) }
    }

    /// Create a new error for an incoming message that represent an error response from the remote peer.
    ///
    /// A remote error does not indicate a communication or protocol violation.
    /// It is used when the remote peer correctly received and understood the request,
    /// but is unable to succesfully complete it.
    pub fn remote_error(message: String) -> (r: Self)
        ensures
            r@ == InnerError::RemoteError(message),
    {
        Error { inner: InnerError::RemoteError(message) }
    }

    /// Create a new error with a custom message.
    pub fn custom(message: String) -> (r: Self)
        ensures
            r@ == InnerError::Custom(message),
    {
        Error { inner: InnerError::Custom(message) }
    }

    /// Check if this error is caused by the remote peer closing the connection cleanly.
    pub fn is_connection_aborted(&self) -> (r: bool)
        ensures
            r == (self@ matches InnerError::Io(e) && e.spec_connection_aborted()),
    {
        match &self.inner {
            InnerError::Io(e) => e.connection_aborted,
            _ => false,
        }
    }

    /// Check if an unexpected message type was received.
    ///
    /// This can happen when you call `recv_response()` while an update message is still queued.
    pub fn is_unexpected_message_type(&self) -> (r: bool)
        ensures
            r == (self@ is UnexpectedMessageType),
    {
        match &self.inner {
            InnerError::UnexpectedMessageType(_) => true,
            _ => false,
        }
    }

    /// Check if this error represent an error response from the remote peer.
    ///
    /// See [`Self::remote_error()`] for more details on what a remote error is.
    pub fn is_remote_error(&self) -> (r: bool)
        ensures
            r == (self@ is RemoteError),
    {
        match &self.inner {
            InnerError::RemoteError(_) => true,
            _ => false,
        }
    }

    /// Get this error as remote error message.
    ///
    /// See [`Self::remote_error()`] for more details on what a remote error is.
    pub fn as_remote_error(&self) -> (r: Option<&str>)
        ensures
            r is Some <==> self@ is RemoteError,
            r matches Some(s) ==> (self@ matches InnerError::RemoteError(m) && s@ == m@),
    {
        match &self.inner {
            InnerError::RemoteError(msg) => Some(msg.as_str()),
            _ => None,
        }
    }

    /// Get this error as remote error message.
    ///
    /// See [`Self::remote_error()`] for more details on what a remote error is.
    pub fn into_remote_error(self) -> (r: Option<String>)
        ensures
            r is Some <==> self@ is RemoteError,
            r matches Some(s) ==> self@ == InnerError::RemoteError(s),
    {
        match self.inner {
            InnerError::RemoteError(msg) => Some(msg),
            _ => None,
        }
    }
}

/// How a message type is named in error messages.
///
/// Requester and responder updates are both "an update message":
/// they can never get mixed up, as they travel in opposite directions.
pub open spec fn spec_message_type_phrase(t: MessageType) -> Seq<char> {
    match t {
        MessageType::Request => "a request message"@,
        MessageType::Response => "a response message"@,
        MessageType::RequesterUpdate => "an update message"@,
        MessageType::ResponderUpdate => "an update message"@,
        MessageType::Stream => "a streaming message"@,
    }
}

/// How a message type is named in error messages.
pub fn message_type_phrase(t: MessageType) -> (r: &'static str)
    ensures
        r@ == spec_message_type_phrase(t),
{
    match t {
        MessageType::Request => "a request message",
        MessageType::Response => "a response message",
        MessageType::RequesterUpdate => "an update message",
        MessageType::ResponderUpdate => "an update message",
        MessageType::Stream => "a streaming message",
    }
}

impl UnexpectedMessageType {
    /// The text of this error.
    pub open spec fn spec_describe(&self) -> Seq<char> {
        "unexpected message type: expected "@ + spec_message_type_phrase(self.expected) + ", got "@
            + spec_message_type_phrase(self.value)
    }

    /// Describe this error in words.
    pub fn describe(&self) -> (r: String)
        ensures
            r@ == self.spec_describe(),
    {
        let mut text = String::from_str("unexpected message type: expected ");
        text.append(message_type_phrase(self.expected));
        text.append(", got ");
        text.append(message_type_phrase(self.value));
        text
    }
}

/// The text of an error, where it does not come from an I/O error.
pub open spec fn spec_describe_inner(e: InnerError) -> Option<Seq<char>> {
    match e {
        InnerError::Io(_) => None,
        InnerError::MessageTooShort { message_len } => Some(
            "the message is too short to be valid: need at least "@ + spec_decimal(HEADER_LEN as nat)
                + " for the header, got only "@ + spec_decimal(message_len as nat) + " bytes"@,
        ),
        InnerError::InvalidMessageType { value } => Some(
            "invalid message type: expected a value in the range [0..4], got "@ + spec_decimal(value as nat),
        ),
        InnerError::PayloadTooLarge { body_len, max_len } => Some(
            "payload too large: maximum payload size is "@ + spec_decimal(max_len as nat) + ", got "@
                + spec_decimal(body_len as nat),
        ),
        InnerError::DuplicateRequestId { request_id } => Some(
            "duplicate request ID: request ID "@ + spec_decimal(request_id as nat)
                + " is already associated with an open request"@,
        ),
        InnerError::UnknownRequestId { request_id } => Some(
            "unknown request ID: request ID "@ + spec_decimal(request_id as nat)
                + " is not associated with an open request"@,
        ),
        InnerError::UnexpectedMessageType(e) => Some(e.spec_describe()),
        InnerError::UnexpectedServiceId { service_id } => Some(
            "unexpected service ID: "@ + spec_signed_decimal(service_id as int),
        ),
        InnerError::NoFreeRequestIdFound => Some("no free request ID was found"@),
        InnerError::RequestClosed => Some("the request is already closed"@),
        InnerError::EncodeFailed(message) => Some(message@),
        InnerError::DecodeFailed(message) => Some(message@),
        InnerError::RemoteError(message) => Some(message@),
        InnerError::Custom(message) => Some(message@),
    }
}

impl InnerError {
    /// Describe this error in words.
    ///
    /// An I/O error is described by its own text;
    /// errors with a message (failed encoding or decoding, remote and custom errors)
    /// are described by that message itself, with nothing added around it.
    pub fn describe(&self) -> (r: String)
        ensures
            spec_describe_inner(*self) matches Some(text) ==> r@ == text,
    {
        match self {
            InnerError::Io(e) => io_error_to_string(&e.error),
            InnerError::MessageTooShort { message_len } => {
                let mut text = String::from_str("the message is too short to be valid: need at least ");
                push_decimal(&mut text, HEADER_LEN as u64);
                text.append(" for the header, got only ");
                push_decimal(&mut text, *message_len as u64);
                text.append(" bytes");
                text
            },
            InnerError::InvalidMessageType { value } => {
                let mut text = String::from_str("invalid message type: expected a value in the range [0..4], got ");
                push_decimal(&mut text, *value as u64);
                text
            },
            InnerError::PayloadTooLarge { body_len, max_len } => {
                let mut text = String::from_str("payload too large: maximum payload size is ");
                push_decimal(&mut text, *max_len as u64);
                text.append(", got ");
                push_decimal(&mut text, *body_len as u64);
                text
            },
            InnerError::DuplicateRequestId { request_id } => {
                let mut text = String::from_str("duplicate request ID: request ID ");
                push_decimal(&mut text, *request_id as u64);
                text.append(" is already associated with an open request");
                text
            },
            InnerError::UnknownRequestId { request_id } => {
                let mut text = String::from_str("unknown request ID: request ID ");
                push_decimal(&mut text, *request_id as u64);
                text.append(" is not associated with an open request");
                text
            },
            InnerError::UnexpectedMessageType(e) => e.describe(),
            InnerError::UnexpectedServiceId { service_id } => {
                let mut text = String::from_str("unexpected service ID: ");
                push_signed_decimal(&mut text, *service_id as i64);
                text
            },
            InnerError::NoFreeRequestIdFound => String::from_str("no free request ID was found"),
            InnerError::RequestClosed => String::from_str("the request is already closed"),
            InnerError::EncodeFailed(message) => message.clone(),
            InnerError::DecodeFailed(message) => message.clone(),
            InnerError::RemoteError(message) => message.clone(),
            InnerError::Custom(message) => message.clone(),
        }
    }
}

impl Error {
    /// Describe this error in words: the description of the kind of error it holds.
    pub fn describe(&self) -> (r: String)
        ensures
            spec_describe_inner(self@) matches Some(text) ==> r@ == text,
    {
        self.inner.describe()
    }
}

/// Create an error for a connection that the remote peer closed.
pub fn connection_aborted() -> (r: Error)
    ensures
        r@ matches InnerError::Io(e) && e.spec_connection_aborted(),
{
    let error = new_connection_aborted_io_error();
    Error { inner: InnerError::Io(IoError { error, connection_aborted: true }) }
}

/// Check if a message size is large enough to contain a valid message.
pub fn check_message_too_short(message_len: usize) -> (r: Result<(), InnerError>)
    ensures
        r is Ok <==> message_len >= HEADER_LEN,
        r matches Err(e) ==> e == (InnerError::MessageTooShort { message_len }),
{
    if message_len >= HEADER_LEN as usize {
        Ok(())
    } else {
        Err(InnerError::MessageTooShort { message_len })
    }
}

/// Check if a payload length is small enough to fit in a message body.
pub fn check_payload_too_large(body_len: usize, max_len: usize) -> (r: Result<(), InnerError>)
    ensures
        r is Ok <==> body_len <= max_len,
        r matches Err(e) ==> e == (InnerError::PayloadTooLarge { body_len, max_len }),
{
    if body_len <= max_len {
        Ok(())
    } else {
        Err(InnerError::PayloadTooLarge { body_len, max_len })
    }
}

/// Check that a received message has the expected type.
///
/// A message of another type gives an [`UnexpectedMessageType`] error naming both types.
pub fn expect_message_type(value: MessageType, expected: MessageType) -> (r: Result<(), Error>)
    ensures
        r is Ok <==> value == expected,
        r matches Err(e) ==> e@ == InnerError::UnexpectedMessageType(UnexpectedMessageType { value, expected }),
{
    if value == expected {
        Ok(())
    } else {
        Err(Error::new(InnerError::UnexpectedMessageType(UnexpectedMessageType { value, expected })))
    }
}

} // verus!
