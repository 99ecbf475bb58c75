//! Transport of messages over Unix seqpacket sockets.
//!
//! Every message is one datagram: the twelve header bytes followed by the body,
//! with file descriptors attached as ancillary data.

use vstd::prelude::*;
use vstd::string::StringSliceAdditionalSpecFns;
use crate::error::{check_message_too_short, check_payload_too_large, connection_aborted, Error, InnerError};
use crate::message::{
    decoded_header, lemma_header_roundtrip, spec_decode_header, spec_header_bytes, Message, MessageHeader,
    HEADER_LEN,
};
use crate::transport::endian::Endian;
use crate::transport::TransportError;

verus! {

#[verifier::external_type_specification]
#[verifier::external_body]
pub struct ExFileDesc(filedesc::FileDesc);

/// Body for the unix tranport.
///
/// The body includes data for a datagram,
/// and a list of file descriptors to attach.
#[derive(Debug)]
pub struct UnixBody {
    /// The contents for the datagram.
    pub data: Vec<u8>,

    /// The file descriptors to attach.
    pub fds: Vec<filedesc::FileDesc>,
}

impl UnixBody {
    /// Create a new unix body with datagram contents and file descriptors to attach.
    pub fn new<Data, FileDescs>(data: Data, fds: FileDescs) -> (r: Self)
        where
            Vec<u8>: From<Data>,
            Vec<filedesc::FileDesc>: From<FileDescs>,
        ensures
            call_ensures(<Vec<u8> as From<Data>>::from, (data,), r.data),
            call_ensures(<Vec<filedesc::FileDesc> as From<FileDescs>>::from, (fds,), r.fds),
    {
        Self { data: Vec::<u8>::from(data), fds: Vec::<filedesc::FileDesc>::from(fds) }
    }

    /// Create a new unix body with datagram contents and no file descriptors.
    pub fn from_data(data: Vec<u8>) -> (r: Self)
        ensures
            r.data == data,
            r.fds@ == Seq::<filedesc::FileDesc>::empty(),
    {
        Self { data, fds: Vec::new() }
    }
}

impl From<Vec<u8>> for UnixBody {
    fn from(other: Vec<u8>) -> (r: Self)
        ensures
            r.data == other,
            r.fds@ == Seq::<filedesc::FileDesc>::empty(),
    {
        Self::from_data(other)
    }
}

impl vstd::std_specs::convert::FromSpecImpl<Vec<u8>> for UnixBody {
    /// What `from` returns is stated by its own `ensures`.
    open spec fn obeys_from_spec() -> bool {
        false
    }

    open spec fn from_spec(v: Vec<u8>) -> UnixBody {
        arbitrary()
    }
}

impl<'a> From<&'a [u8]> for UnixBody {
    fn from(other: &'a [u8]) -> (r: Self)
        ensures
            r.data@ == other@,
            r.fds@ == Seq::<filedesc::FileDesc>::empty(),
    {
        Self::from_data(vstd::slice::slice_to_vec(other))
    }
}

impl<'a> vstd::std_specs::convert::FromSpecImpl<&'a [u8]> for UnixBody {
    /// What `from` returns is stated by its own `ensures`.
    open spec fn obeys_from_spec() -> bool {
        false
    }

    open spec fn from_spec(v: &'a [u8]) -> UnixBody {
        arbitrary()
    }
}

impl From<Box<[u8]>> for UnixBody {
    fn from(other: Box<[u8]>) -> (r: Self)
        ensures
            r.data@ == other@,
            r.fds@ == Seq::<filedesc::FileDesc>::empty(),
    {
        Self::from_data(<[u8]>::into_vec(other))
    }
}

impl vstd::std_specs::convert::FromSpecImpl<Box<[u8]>> for UnixBody {
    /// What `from` returns is stated by its own `ensures`.
    open spec fn obeys_from_spec() -> bool {
        false
    }

    open spec fn from_spec(v: Box<[u8]>) -> UnixBody {
        arbitrary()
    }
}

impl<Data, FileDescs> From<(Data, FileDescs)> for UnixBody
    where
        Vec<u8>: From<Data>,
        Vec<filedesc::FileDesc>: From<FileDescs>,
{
    fn from(other: (Data, FileDescs)) -> (r: Self)
        ensures
            call_ensures(<Vec<u8> as From<Data>>::from, (other.0,), r.data),
            call_ensures(<Vec<filedesc::FileDesc> as From<FileDescs>>::from, (other.1,), r.fds),
    {
        let (data, fds) = other;
        Self::new(data, fds)
    }
}

impl<Data, FileDescs> vstd::std_specs::convert::FromSpecImpl<(Data, FileDescs)> for UnixBody
    where
        Vec<u8>: From<Data>,
        Vec<filedesc::FileDesc>: From<FileDescs>,
{
    /// What `from` returns is stated by its own `ensures`.
    open spec fn obeys_from_spec() -> bool {
        false
    }

    open spec fn from_spec(v: (Data, FileDescs)) -> UnixBody {
        arbitrary()
    }
}

impl crate::message::Body for UnixBody {
    fn from_error(message: &str) -> (r: Self)
        ensures
            r.data@ == message.spec_bytes(),
            r.fds@ == Seq::<filedesc::FileDesc>::empty(),
    {
        Self::from_data(vstd::slice::slice_to_vec(message.as_bytes()))
    }
}

/// Configuration for Unix datagram transports.
#[derive(Debug, Clone)]
#[non_exhaustive]
pub struct UnixConfig {
    /// The maximum body size for incoming messages.
    ///
    /// If a message arrives with a larger body size,
    /// an error is returned and the message itself is dropped.
    ///
    /// Datagram transports remain usable when a message is dropped.
    pub max_body_len_read: u32,

    /// The maximum body size for outgoing messages.
    ///
    /// If a message is given for sending with a larger body than this size,
    /// the message is discarded and an error is returned.
    ///
    /// Datagram transports remain usable when a message is dropped.
    pub max_body_len_write: u32,

    /// The maximum number of attached file descriptors when reading messages.
    pub max_fds_read: u32,

    /// The maximum number of attached file descriptors for sending messages.
    pub max_fds_write: u32,

    /// The endianness to use when encoding/decoding header fields.
    pub endian: Endian,
}

impl Default for UnixConfig {
    fn default() -> (r: Self)
        ensures
            r.max_body_len_read == 4 * 1024,
            r.max_body_len_write == 4 * 1024,
            r.max_fds_read == 10,
            r.max_fds_write == 10,
            r.endian == Endian::LittleEndian,
    {
        Self {
            max_body_len_read: 4 * 1024,
            max_body_len_write: 4 * 1024,
            max_fds_read: 10,
            max_fds_write: 10,
            endian: Endian::LittleEndian,
        }
    }
}

impl UnixConfig {
    /// Create a configuration with the given limits and byte order.
    pub fn new(max_body_len_read: u32, max_body_len_write: u32, max_fds_read: u32, max_fds_write: u32, endian: Endian) -> (r: Self)
        ensures
            r.max_body_len_read == max_body_len_read,
            r.max_body_len_write == max_body_len_write,
            r.max_fds_read == max_fds_read,
            r.max_fds_write == max_fds_write,
            r.endian == endian,
    {
        Self { max_body_len_read, max_body_len_write, max_fds_read, max_fds_write, endian }
    }
}

/// What a received datagram says: the header and the body, or the error that makes
/// the datagram unusable together with whether that error is fatal.
///
/// `bytes` are the bytes received and `truncated` tells whether the socket cut the datagram off.
/// A datagram whose body is longer than `max_body_len` is dropped with a non-fatal error:
/// the next datagram can still be read. (An empty datagram means the connection was closed,
/// which is not covered here.)
pub open spec fn spec_decode_datagram(endian: Endian, max_body_len: u32, bytes: Seq<u8>, truncated: bool)
    -> Result<(MessageHeader, Seq<u8>), (InnerError, bool)>
{
    if bytes.len() < HEADER_LEN {
        Err((InnerError::MessageTooShort { message_len: bytes.len() as usize }, true))
    } else if truncated || bytes.len() - HEADER_LEN > max_body_len {
        Err((InnerError::PayloadTooLarge { body_len: (bytes.len() - HEADER_LEN) as usize, max_len: max_body_len as usize }, false))
    } else {
        match spec_decode_header(endian, bytes) {
            Err(value) => Err((InnerError::InvalidMessageType { value }, true)),
            Ok(header) => Ok((header, bytes.skip(12))),
        }
    }
}

/// Transport layer for Unix datagram/seqpacket sockets.
pub struct UnixTransport<Socket> {
    /// The socket to use for sending/receiving messages.
    pub(crate) socket: Socket,

    /// The configuration of the transport.
    pub(crate) config: UnixConfig,
}

impl<Socket> UnixTransport<Socket> {
    /// The underlying socket.
    pub closed spec fn spec_socket(&self) -> Socket {
        self.socket
    }

    /// The configuration of the transport.
    pub closed spec fn spec_config(&self) -> UnixConfig {
        self.config
    }

    /// Create a new transport with custom configuration.
    pub fn new(socket: Socket, config: UnixConfig) -> (r: Self)
        ensures
            r.spec_socket() == socket,
            r.spec_config() == config,
    {
        Self { socket, config }
    }

    /// Create a new transport using the default configuration.
    pub fn new_default(socket: Socket) -> (r: Self)
        ensures
            r.spec_socket() == socket,
            r.spec_config().max_body_len_read == 4 * 1024,
            r.spec_config().max_body_len_write == 4 * 1024,
            r.spec_config().max_fds_read == 10,
            r.spec_config().max_fds_write == 10,
            r.spec_config().endian == Endian::LittleEndian,
    {
        Self::new(socket, UnixConfig::default())
    }

    /// Get direct access to the underlying socket.
    pub fn socket(&self) -> (r: &Socket)
        ensures
            *r == self.spec_socket(),
    {
        &self.socket
    }

    /// Get direct mutable access to the underlying socket.
    pub fn socket_mut(&mut self) -> (r: &mut Socket)
        ensures
            *r == old(self).spec_socket(),
            final(self).spec_socket() == *final(r),
            final(self).spec_config() == old(self).spec_config(),
    {
        &mut self.socket
    }

    /// Consume the socket transport to retrieve the underlying socket.
    pub fn into_socket(self) -> (r: Socket)
        ensures
            r == self.spec_socket(),
    {
        self.socket
    }

    /// Get the configuration of the transport.
    pub fn config(&self) -> (r: &UnixConfig)
        ensures
            *r == self.spec_config(),
    {
        &self.config
    }
}

/// The read half of a [`UnixTransport`].
pub struct UnixReadHalf<SocketReadHalf> {
    /// The read half of the underlying socket.
    pub(crate) socket: SocketReadHalf,

    /// The maximum body length to accept when reading messages.
    pub(crate) max_body_len: u32,

    /// The maximum number of file descriptors to accept when reading messages.
    pub(crate) max_fds: u32,

    /// The endianness to use for decoding header fields, with the native order resolved.
    pub(crate) endian: Endian,

    /// Buffer for reading the message body.
    pub(crate) body_buffer: Vec<u8>,
}

impl<SocketReadHalf> UnixReadHalf<SocketReadHalf> {
    /// The underlying socket.
    pub closed spec fn spec_socket(&self) -> SocketReadHalf {
        self.socket
    }

    /// The maximum body length that is accepted.
    pub closed spec fn spec_max_body_len(&self) -> u32 {
        self.max_body_len
    }

    /// The maximum number of file descriptors that is accepted.
    pub closed spec fn spec_max_fds(&self) -> u32 {
        self.max_fds
    }

    /// The byte order of header fields.
    pub closed spec fn spec_endian(&self) -> Endian {
        self.endian
    }

    /// Create a new read half.
    pub fn new(socket: SocketReadHalf, max_body_len: u32, max_fds: u32, endian: Endian) -> (r: Self)
        ensures
            r.spec_socket() == socket,
            r.spec_max_body_len() == max_body_len,
            r.spec_max_fds() == max_fds,
            r.spec_endian().is_fixed(),
            endian.is_fixed() ==> r.spec_endian() == endian,
    {
        Self {
            socket,
            max_body_len,
            max_fds,
            endian: endian.resolve(),
            body_buffer: Vec::new(),
        }
    }

    /// Get direct access to the underlying socket.
    pub fn socket(&self) -> (r: &SocketReadHalf)
        ensures
            *r == self.spec_socket(),
    {
        &self.socket
    }

    /// Get direct mutable access to the underlying socket.
    pub fn socket_mut(&mut self) -> (r: &mut SocketReadHalf)
        ensures
            *r == old(self).spec_socket(),
            final(self).spec_socket() == *final(r),
            final(self).spec_max_body_len() == old(self).spec_max_body_len(),
            final(self).spec_max_fds() == old(self).spec_max_fds(),
            final(self).spec_endian() == old(self).spec_endian(),
    {
        &mut self.socket
    }

    /// The maximum number of file descriptors that is accepted with a message.
    pub fn max_fds(&self) -> (r: u32)
        ensures
            r == self.spec_max_fds(),
    {
        self.max_fds
    }

    /// Take the buffer that the body of the next datagram is received into.
    ///
    /// The buffer is one byte longer than the longest accepted body (where memory allows), so
    /// that a body that is too long shows in the number of bytes received; a datagram that is
    /// longer still is cut off by the socket, which reports the truncation.
    pub fn take_body_buffer(&mut self) -> (r: Vec<u8>)
        ensures
            r@.len() == if old(self).spec_max_body_len() < usize::MAX { old(self).spec_max_body_len() + 1 } else { old(self).spec_max_body_len() as int },
            final(self).spec_socket() == old(self).spec_socket(),
            final(self).spec_max_body_len() == old(self).spec_max_body_len(),
            final(self).spec_max_fds() == old(self).spec_max_fds(),
            final(self).spec_endian() == old(self).spec_endian(),
    {
        let mut buffer = Vec::new();
        core::mem::swap(&mut buffer, &mut self.body_buffer);
        let max = self.max_body_len as usize;
        let len = if max < usize::MAX { max + 1 } else { max };
        buffer.resize(len, 0u8);
        buffer
    }

    /// Turn a received datagram into a message.
    ///
    /// `bytes_read` bytes were received into `header_buffer` followed by `body`,
    /// `truncated` tells whether the socket cut the datagram off,
    /// and `fds` are the file descriptors that came with it.
    /// An empty datagram means that the remote peer closed the connection.
    /// A body longer than the maximum body length gives a non-fatal error: the datagram is
    /// dropped and the transport remains usable. The other errors are fatal.
    pub fn decode_datagram(&self, header_buffer: &[u8], body: Vec<u8>, bytes_read: usize, truncated: bool, fds: Vec<filedesc::FileDesc>) -> (r: Result<Message<UnixBody>, TransportError>)
        requires
            header_buffer@.len() == HEADER_LEN,
            bytes_read <= HEADER_LEN + body@.len(),
        ensures
            bytes_read == 0 ==> (r matches Err(e) && e.spec_is_fatal()
                && (e.spec_inner() matches InnerError::Io(io) && io.spec_connection_aborted())),
            bytes_read > 0 && self.spec_endian().is_fixed() ==> match spec_decode_datagram(
                self.spec_endian(), self.spec_max_body_len(), (header_buffer@ + body@).take(bytes_read as int), truncated)
            {
                Ok((header, data)) => r matches Ok(m) && m.header == header && m.body.data@ == data && m.body.fds == fds,
                Err((e, fatal)) => r matches Err(te) && te.spec_is_fatal() == fatal && te.spec_inner() == e,
            },
    {
        let ghost bytes = (header_buffer@ + body@).take(bytes_read as int);
        if bytes_read == 0 {
            return Err(TransportError::new_fatal(connection_aborted()));
        }
        match check_message_too_short(bytes_read) {
            Ok(()) => {},
            Err(e) => return Err(TransportError::new_fatal(Error::new(e))),
        }
        let body_len = bytes_read - HEADER_LEN as usize;
        if truncated || body_len > self.max_body_len as usize {
            return Err(TransportError::new_non_fatal(Error::payload_too_large(body_len, self.max_body_len as usize)));
        }
        let endian = self.endian.resolve();
        let header = match MessageHeader::decode_at(header_buffer, 0, endian) {
            Ok(header) => header,
            Err(e) => return Err(TransportError::new_fatal(e)),
        };
        assert(header_buffer@.skip(0) =~= header_buffer@);
        assert(bytes.take(12) =~= header_buffer@);
        assert(spec_decode_header(endian, bytes) == spec_decode_header(endian, header_buffer@)) by {
            assert(bytes.skip(4).take(4) =~= header_buffer@.skip(4).take(4));
            assert(bytes.skip(8).take(4) =~= header_buffer@.skip(8).take(4));
        }
        let mut body = body;
        body.truncate(bytes_read - HEADER_LEN as usize);
        assert(body@ =~= bytes.skip(12));
        Ok(Message::new(header, UnixBody { data: body, fds }))
    }
}

/// The write half of a [`UnixTransport`].
pub struct UnixWriteHalf<SocketWriteHalf> {
    /// The write half of the underlying socket.
    pub(crate) socket: SocketWriteHalf,

    /// The maximum body length to enforce for messages.
    pub(crate) max_body_len: u32,

    /// The maximum number of file descriptors to accept when writing messages.
    pub(crate) max_fds: u32,

    /// The endianness to use for encoding header fields, with the native order resolved.
    pub(crate) endian: Endian,
}

impl<SocketWriteHalf> UnixWriteHalf<SocketWriteHalf> {
    /// The underlying socket.
    pub closed spec fn spec_socket(&self) -> SocketWriteHalf {
        self.socket
    }

    /// The maximum body length that is accepted.
    pub closed spec fn spec_max_body_len(&self) -> u32 {
        self.max_body_len
    }

    /// The maximum number of file descriptors that is accepted.
    pub closed spec fn spec_max_fds(&self) -> u32 {
        self.max_fds
    }

    /// The byte order of header fields.
    pub closed spec fn spec_endian(&self) -> Endian {
        self.endian
    }

    /// Create a new write half.
    pub fn new(socket: SocketWriteHalf, max_body_len: u32, max_fds: u32, endian: Endian) -> (r: Self)
        ensures
            r.spec_socket() == socket,
            r.spec_max_body_len() == max_body_len,
            r.spec_max_fds() == max_fds,
            r.spec_endian().is_fixed(),
            endian.is_fixed() ==> r.spec_endian() == endian,
    {
        Self { socket, max_body_len, max_fds, endian: endian.resolve() }
    }

    /// Get direct access to the underlying socket.
    pub fn socket(&self) -> (r: &SocketWriteHalf)
        ensures
            *r == self.spec_socket(),
    {
        &self.socket
    }

    /// Get direct mutable access to the underlying socket.
    pub fn socket_mut(&mut self) -> (r: &mut SocketWriteHalf)
        ensures
            *r == old(self).spec_socket(),
            final(self).spec_socket() == *final(r),
            final(self).spec_max_body_len() == old(self).spec_max_body_len(),
            final(self).spec_max_fds() == old(self).spec_max_fds(),
            final(self).spec_endian() == old(self).spec_endian(),
    {
        &mut self.socket
    }

    /// The maximum number of file descriptors that is sent with a message.
    pub fn max_fds(&self) -> (r: u32)
        ensures
            r == self.spec_max_fds(),
    {
        self.max_fds
    }

    /// Check a message for sending and encode its header.
    ///
    /// A body longer than the maximum body length is refused with a non-fatal error:
    /// the message is discarded and the transport remains usable.
    /// The datagram to send is the returned header followed by the body data.
    pub fn encode_header(&self, header: &MessageHeader, body: &UnixBody) -> (r: Result<[u8; 12], TransportError>)
        ensures
            r is Ok <==> body.data@.len() <= self.spec_max_body_len(),
            self.spec_endian().is_fixed() ==> (r matches Ok(buffer) ==> buffer@ == spec_header_bytes(self.spec_endian(), *header)),
            r matches Err(e) ==> !e.spec_is_fatal() && e.spec_inner() == (InnerError::PayloadTooLarge {
                body_len: body.data@.len() as usize,
                max_len: self.spec_max_body_len() as usize,
            }),
    {
        match check_payload_too_large(body.data.len(), self.max_body_len as usize) {
            Ok(()) => {},
            Err(e) => return Err(TransportError::new_non_fatal(Error::new(e))),
        }
        let endian = self.endian.resolve();
        let mut buffer = [0u8; 12];
        header.encode_at(&mut buffer, 0, endian);
        assert(buffer@ =~= spec_header_bytes(endian, *header));
        Ok(buffer)
    }
}

/// Information about the remote peer of a Unix seqpacket socket.
#[derive(Debug, Clone)]
pub struct UnixSeqpacketInfo {
    /// The user ID of the remote process.
    user_id: u32,

    /// The group ID of the remote process.
    group_id: u32,

    /// The process ID of the remote process.
    process_id: Option<i32>,
}

impl UnixSeqpacketInfo {
    /// Create the information from the credentials of the remote process.
    pub fn new(user_id: u32, group_id: u32, process_id: Option<i32>) -> (r: Self)
        ensures
            r.spec_user_id() == user_id,
            r.spec_group_id() == group_id,
            r.spec_process_id() == process_id,
    {
        Self { user_id, group_id, process_id }
    }

    /// The user ID of the remote process.
    pub closed spec fn spec_user_id(&self) -> u32 {
        self.user_id
    }

    /// The group ID of the remote process.
    pub closed spec fn spec_group_id(&self) -> u32 {
        self.group_id
    }

    /// The process ID of the remote process.
    pub closed spec fn spec_process_id(&self) -> Option<i32> {
        self.process_id
    }

    /// Get the user ID of the process.
    pub fn user_id(&self) -> (r: u32)
        ensures
            r == self.spec_user_id(),
    {
        self.user_id
    }

    /// Get the group ID of the process.
    pub fn group_id(&self) -> (r: u32)
        ensures
            r == self.spec_group_id(),
    {
        self.group_id
    }

    /// Get the process ID of the remote process (if available).
    pub fn process_id(&self) -> (r: Option<i32>)
        ensures
            r == self.spec_process_id(),
    {
        self.process_id
    }
}

/// A whole datagram made of an encoded header and a body that is not too long decodes to
/// that header and body.
pub proof fn lemma_datagram_roundtrip(endian: Endian, max_body_len: u32, header: MessageHeader, data: Seq<u8>)
    requires
        endian.is_fixed(),
        data.len() <= max_body_len,
    ensures
        spec_decode_datagram(endian, max_body_len, spec_header_bytes(endian, header) + data, false)
            == Ok::<(MessageHeader, Seq<u8>), (InnerError, bool)>((header, data)),
{
    lemma_header_roundtrip(endian, header, data);
    assert((spec_header_bytes(endian, header) + data).skip(12) =~= data);
}

} // verus!
