//! The Fizyr RPC protocol: a request/response protocol with
//! bi-directional feedback as long as a request is open,
//! and stream messages that do not initiate a request.
//!
//! Messages have a twelve byte header (message type, request ID and service ID)
//! and a body. On byte streams every message is framed by its length;
//! on seqpacket sockets every message is one datagram.
//!
//! This crate holds the protocol logic: messages and their encoding,
//! the framing of messages on the wire, the bookkeeping of open requests,
//! and the decisions of a peer's read/write loop. The sockets themselves
//! are driven by the caller.

pub mod attributes;
pub mod codegen;
pub mod definition;
pub mod derive;
pub mod error;
pub mod examples;
pub mod forward_log;
pub mod interface;
pub mod macros;
pub mod message;
pub mod peer;
pub mod request;
pub mod request_tracker;
pub mod service_id;
pub mod text;
pub mod transport;
pub mod wire;

pub use error::{Error, InnerError, UnexpectedMessageType};
pub use message::{Body, Message, MessageHeader, MessageType, HEADER_LEN, MAX_PAYLOAD_LEN};
pub use peer::{HandleCount, LoopFlow, ProcessIncomingMessage};
pub use request::PeekBuffer;
pub use request_tracker::{RequestHandleCommand, RequestReceiver, RequestTracker, SentRequest, UnhandledMessage};
pub use transport::{
    Endian, StreamBody, StreamConfig, StreamReadHalf, StreamTransport, StreamWriteHalf, TransportError,
    UnixBody, UnixConfig, UnixReadHalf, UnixSeqpacketInfo, UnixStreamInfo, UnixTransport, UnixWriteHalf,
};
