//! Transport of messages over byte streams, such as TCP and Unix stream sockets.
//!
//! On a byte stream every message is sent as a frame:
//! the length of header and body as a `u32`, the twelve header bytes, then the body.
//! All header fields use the byte order from the [`StreamConfig`].

use vstd::prelude::*;
use vstd::string::StringSliceAdditionalSpecFns;
use crate::error::{connection_aborted, Error, InnerError};
use crate::message::{
    decoded_header, lemma_header_roundtrip, spec_decode_header, spec_header_bytes, Message,
    MessageHeader, MessageType, HEADER_LEN, MAX_PAYLOAD_LEN,
};
use crate::transport::endian::{spec_u32_bytes, spec_u32_from, Endian};
use crate::transport::TransportError;
use crate::wire::{lemma_u32_be_roundtrip, lemma_u32_le_roundtrip};

verus! {

/// Length of a message frame and header.
pub const FRAMED_HEADER_LEN: usize = 16;

/// Turns a vector into a boxed slice with `Vec::into_boxed_slice`,
/// which keeps the elements and their order.
#[verifier::external_body]
fn boxed_slice_from_vec(v: Vec<u8>) -> (b: Box<[u8]>)
    ensures
        b@ == v@,
{
    v.into_boxed_slice()
}

/// The body of a stream message.
#[derive(Debug)]
pub struct StreamBody {
    /// The message data.
    pub data: Box<[u8]>,
}

impl View for StreamBody {
    type V = Seq<u8>;

    open spec fn view(&self) -> Seq<u8> {
        self.data@
    }
}

impl Clone for StreamBody {
    fn clone(&self) -> (r: Self)
        ensures
            r@ == self@,
    {
        Self::from_vec(vstd::slice::slice_to_vec(&self.data))
    }
}

impl StreamBody {
    /// Create a new stream body.
    pub fn new(data: Box<[u8]>) -> (r: Self)
        ensures
            r@ == data@,
    {
        Self { data }
    }

    /// Create a new stream body holding the bytes of a vector.
    pub fn from_vec(data: Vec<u8>) -> (r: Self)
        ensures
            r@ == data@,
    {
        Self { data: boxed_slice_from_vec(data) }
    }

    /// The number of bytes in the body.
    pub fn len(&self) -> (r: usize)
        ensures
            r == self@.len(),
    {
        self.data.len()
    }

    /// The bytes of the body.
    pub fn as_slice(&self) -> (r: &[u8])
        ensures
            r@ == self@,
    {
        &self.data
    }
}

impl crate::message::Body for StreamBody {
    fn from_error(message: &str) -> (r: Self)
        ensures
            r@ == message.spec_bytes(),
    {
        Self::from_vec(vstd::slice::slice_to_vec(message.as_bytes()))
    }
}

/// Configuration for a byte-stream transport.
#[derive(Debug, Clone)]
#[non_exhaustive]
pub struct StreamConfig {
    /// The maximum body size for incoming messages.
    ///
    /// If a message arrives with a larger body size, an error is returned.
    /// For stream sockets, that also means the stream is unusable because there is unread data left in the stream.
    pub max_body_len_read: u32,

    /// The maximum body size for outgoing messages.
    ///
    /// If a message is given for sending with a larger body than this size,
    /// the message is discarded and an error is returned.
    /// Stream sockets remain usable since the message header will not be sent either.
    pub max_body_len_write: u32,

    /// The endianness to use when encoding/decoding header fields.
    ///
    /// The encoding and serialization of message bodies is up to the application code,
    /// and it not affected by this configuration parameter.
    pub endian: Endian,
}

impl Default for StreamConfig {
    fn default() -> (r: Self)
        ensures
            r.max_body_len_read == 8 * 1024,
            r.max_body_len_write == 8 * 1024,
            r.endian == Endian::LittleEndian,
    {
        Self {
            max_body_len_read: 8 * 1024,
            max_body_len_write: 8 * 1024,
            endian: Endian::LittleEndian,
        }
    }
}

impl StreamConfig {
    /// Create a configuration with the given limits and byte order.
    pub fn new(max_body_len_read: u32, max_body_len_write: u32, endian: Endian) -> (r: Self)
        ensures
            r.max_body_len_read == max_body_len_read,
            r.max_body_len_write == max_body_len_write,
            r.endian == endian,
    {
        Self { max_body_len_read, max_body_len_write, endian }
    }
}

/// The first sixteen bytes of a frame: the length of header and body, then the header.
pub open spec fn spec_frame_head_bytes(endian: Endian, header: MessageHeader, body_len: nat) -> Seq<u8> {
    spec_u32_bytes(endian, (body_len + HEADER_LEN) as u32) + spec_header_bytes(endian, header)
}

/// The frame of a message: its head followed by the body.
pub open spec fn spec_frame(endian: Endian, header: MessageHeader, body: Seq<u8>) -> Seq<u8> {
    spec_frame_head_bytes(endian, header, body.len()) + body
}

/// What the sixteen bytes of a frame head say: the header and the body length,
/// or the error that makes the frame invalid.
///
/// The header is checked first, then that the length covers at least a header,
/// then that the body is not longer than `max_body_len`.
pub open spec fn spec_frame_head(endian: Endian, max_body_len: u32, head: Seq<u8>) -> Result<(MessageHeader, nat), InnerError> {
    let length = spec_u32_from(endian, head);
    match spec_decode_header(endian, head.skip(4)) {
        Err(value) => Err(InnerError::InvalidMessageType { value }),
        Ok(header) => if length < HEADER_LEN {
            Err(InnerError::MessageTooShort { message_len: length as usize })
        } else if length - HEADER_LEN > max_body_len {
            Err(InnerError::PayloadTooLarge { body_len: (length - HEADER_LEN) as usize, max_len: max_body_len as usize })
        } else {
            Ok((header, (length - HEADER_LEN) as nat))
        },
    }
}

/// What the bytes received so far of a frame amount to:
/// `Ok(None)` while the frame is incomplete, `Ok(Some((header, body)))` once it is complete,
/// or the error that makes the frame invalid as soon as its head is complete.
pub open spec fn spec_read_frame(endian: Endian, max_body_len: u32, bytes: Seq<u8>) -> Result<Option<(MessageHeader, Seq<u8>)>, InnerError> {
    if bytes.len() < FRAMED_HEADER_LEN {
        Ok(None)
    } else {
        match spec_frame_head(endian, max_body_len, bytes.take(16)) {
            Err(e) => Err(e),
            Ok((header, body_len)) => if bytes.len() < FRAMED_HEADER_LEN + body_len {
                Ok(None)
            } else {
                Ok(Some((header, bytes.subrange(16, 16 + body_len as int))))
            },
        }
    }
}

/// Transport layer for byte-stream sockets.
pub struct StreamTransport<Stream> {
    /// The stream to use for sending/receiving messages.
    pub(crate) stream: Stream,

    /// The configuration of the transport.
    pub(crate) config: StreamConfig,
}

impl<Stream> StreamTransport<Stream> {
    /// The underlying stream.
    pub closed spec fn spec_stream(&self) -> Stream {
        self.stream
    }

    /// The configuration of the transport.
    pub closed spec fn spec_config(&self) -> StreamConfig {
        self.config
    }

    /// Create a new transport with custom configuration.
    pub fn new(stream: Stream, config: StreamConfig) -> (r: Self)
        ensures
            r.spec_stream() == stream,
            r.spec_config() == config,
    {
        Self { stream, config }
    }

    /// Create a new transport using the default configuration.
    pub fn new_default(stream: Stream) -> (r: Self)
        ensures
            r.spec_stream() == stream,
            r.spec_config().max_body_len_read == 8 * 1024,
            r.spec_config().max_body_len_write == 8 * 1024,
            r.spec_config().endian == Endian::LittleEndian,
    {
        Self::new(stream, StreamConfig::default())
    }

    /// Get direct access to the underlying stream.
    pub fn stream(&self) -> (r: &Stream)
        ensures
            *r == self.spec_stream(),
    {
        &self.stream
    }

    /// Get direct mutable access to the underlying stream.
    pub fn stream_mut(&mut self) -> (r: &mut Stream)
        ensures
            *r == old(self).spec_stream(),
            final(self).spec_stream() == *final(r),
            final(self).spec_config() == old(self).spec_config(),
    {
        &mut self.stream
    }

    /// Consume the stream transport to retrieve the underlying stream.
    pub fn into_stream(self) -> (r: Stream)
        ensures
            r == self.spec_stream(),
    {
        self.stream
    }

    /// Get the configuration of the transport.
    pub fn config(&self) -> (r: &StreamConfig)
        ensures
            *r == self.spec_config(),
    {
        &self.config
    }
}

/// The read half of a [`StreamTransport`].
///
/// The read half assembles frames from the bytes read from the stream,
/// which may arrive in pieces of any size.
pub struct StreamReadHalf<ReadStream> {
    /// The read half of the underlying stream.
    pub(crate) stream: ReadStream,

    /// The maximum body length to accept when reading messages.
    pub(crate) max_body_len: u32,

    /// The endianness to use for decoding header fields, with the native order resolved.
    pub(crate) endian: Endian,

    /// The number of bytes read for the current message.
    pub(crate) bytes_read: usize,

    /// The buffer for reading the frame length and message header.
    pub(crate) header_buffer: [u8; FRAMED_HEADER_LEN],

    /// The parsed header.
    pub(crate) parsed_header: MessageHeader,

    /// The buffer for reading the message body.
    pub(crate) body_buffer: Vec<u8>,
}

impl<ReadStream> StreamReadHalf<ReadStream> {
    /// The underlying stream.
    pub closed spec fn spec_stream(&self) -> ReadStream {
        self.stream
    }

    /// The maximum body length that is accepted.
    pub closed spec fn spec_max_body_len(&self) -> u32 {
        self.max_body_len
    }

    /// The byte order of header fields.
    pub closed spec fn spec_endian(&self) -> Endian {
        self.endian
    }

    /// The bytes of the current frame received so far.
    pub closed spec fn received(&self) -> Seq<u8> {
        if self.bytes_read <= FRAMED_HEADER_LEN {
            self.header_buffer@.take(self.bytes_read as int)
        } else {
            self.header_buffer@ + self.body_buffer@.take(self.bytes_read - FRAMED_HEADER_LEN)
        }
    }

    /// The internal state is consistent: the bytes received so far form an incomplete, valid frame.
    pub closed spec fn wf(&self) -> bool {
        &&& self.endian.is_fixed()
        &&& self.max_body_len + FRAMED_HEADER_LEN <= usize::MAX
        &&& self.bytes_read >= FRAMED_HEADER_LEN ==> {
            &&& spec_frame_head(self.endian, self.max_body_len, self.header_buffer@)
                == Ok::<(MessageHeader, nat), InnerError>((self.parsed_header, self.body_buffer@.len()))
            &&& self.bytes_read < FRAMED_HEADER_LEN + self.body_buffer@.len()
        }
    }

    /// The number of bytes that complete the current part of the frame: the head or the body.
    pub closed spec fn spec_bytes_wanted(&self) -> nat {
        if self.bytes_read < FRAMED_HEADER_LEN {
            (FRAMED_HEADER_LEN - self.bytes_read) as nat
        } else {
            (FRAMED_HEADER_LEN + self.body_buffer@.len() - self.bytes_read) as nat
        }
    }

    /// Create a new read half that decodes headers in `endian` and accepts bodies up to `max_body_len` bytes.
    ///
    /// A frame with the largest accepted body must fit in the address space.
    pub fn new(stream: ReadStream, max_body_len: u32, endian: Endian) -> (r: Self)
        requires
            max_body_len + FRAMED_HEADER_LEN <= usize::MAX,
        ensures
            r.wf(),
            r.received() == Seq::<u8>::empty(),
            r.spec_stream() == stream,
            r.spec_max_body_len() == max_body_len,
            endian.is_fixed() ==> r.spec_endian() == endian,
    {
        let r = Self {
            stream,
            max_body_len,
            endian: endian.resolve(),
            header_buffer: [0u8; FRAMED_HEADER_LEN],
            bytes_read: 0,
            parsed_header: MessageHeader::request(0, 0),
            body_buffer: Vec::new(),
        };
        assert(r.received() =~= Seq::<u8>::empty());
        r
    }

    /// Get direct access to the underlying stream.
    pub fn stream(&self) -> (r: &ReadStream)
        ensures
            *r == self.spec_stream(),
    {
        &self.stream
    }

    /// Get direct mutable access to the underlying stream.
    pub fn stream_mut(&mut self) -> (r: &mut ReadStream)
        ensures
            *r == old(self).spec_stream(),
            final(self).spec_stream() == *final(r),
            final(self).received() == old(self).received(),
            final(self).wf() == old(self).wf(),
            final(self).spec_bytes_wanted() == old(self).spec_bytes_wanted(),
            final(self).spec_endian() == old(self).spec_endian(),
            final(self).spec_max_body_len() == old(self).spec_max_body_len(),
    {
        &mut self.stream
    }

    /// The number of bytes that complete the current part of the frame: the head or the body.
    ///
    /// Reading more than this many bytes from the stream would read into the next frame.
    pub fn bytes_wanted(&self) -> (r: usize)
        requires
            self.wf(),
        ensures
            r == self.spec_bytes_wanted(),
            r > 0,
            self.received().len() < FRAMED_HEADER_LEN ==> self.received().len() + r == FRAMED_HEADER_LEN,
            self.received().len() >= FRAMED_HEADER_LEN ==> (spec_frame_head(self.spec_endian(), self.spec_max_body_len(),
                self.received().take(16)) matches Ok((_, n)) && self.received().len() + r == FRAMED_HEADER_LEN + n),
    {
        if self.bytes_read < FRAMED_HEADER_LEN {
            FRAMED_HEADER_LEN - self.bytes_read
        } else {
            FRAMED_HEADER_LEN + self.body_buffer.len() - self.bytes_read
        }
    }

    /// Forget the current frame.
    fn reset(&mut self)
        requires
            old(self).endian.is_fixed(),
            old(self).max_body_len + FRAMED_HEADER_LEN <= usize::MAX,
        ensures
            final(self).wf(),
            final(self).received() == Seq::<u8>::empty(),
            final(self).stream == old(self).stream,
            final(self).endian == old(self).endian,
            final(self).max_body_len == old(self).max_body_len,
    {
        self.bytes_read = 0;
        self.body_buffer = Vec::new();
        assert(self.received() =~= Seq::<u8>::empty());
    }

    /// Take in the next bytes read from the stream.
    ///
    /// `data` is what one read from the stream returned; an empty read means that the
    /// remote peer closed the connection, which is a fatal error.
    /// Once a frame is complete, the message is returned and the next frame starts empty.
    /// An invalid frame head is a fatal error; the current frame is then dropped.
    pub fn receive(&mut self, data: &[u8]) -> (r: Result<Option<Message<StreamBody>>, TransportError>)
        requires
            old(self).wf(),
            data@.len() <= old(self).spec_bytes_wanted(),
        ensures
            final(self).wf(),
            final(self).spec_stream() == old(self).spec_stream(),
            final(self).spec_endian() == old(self).spec_endian(),
            final(self).spec_max_body_len() == old(self).spec_max_body_len(),
            data@.len() == 0 ==> {
                &&& r matches Err(e) && e.spec_is_fatal() && (e.spec_inner() matches InnerError::Io(io) && io.spec_connection_aborted())
                &&& final(self).received() == old(self).received()
            },
            data@.len() > 0 ==> match spec_read_frame(old(self).spec_endian(), old(self).spec_max_body_len(), old(self).received() + data@) {
                Ok(None) => r matches Ok(None) && final(self).received() == old(self).received() + data@,
                Ok(Some((header, body))) => r matches Ok(Some(m)) && m.header == header && m.body@ == body
                    && final(self).received() == Seq::<u8>::empty(),
                Err(e) => r matches Err(te) && te.spec_is_fatal() && te.spec_inner() == e
                    && final(self).received() == Seq::<u8>::empty(),
            },
    {
        if data.len() == 0 {
            return Err(TransportError::new_fatal(connection_aborted()));
        }
        let ghost old_received = self.received();
        let ghost all = old_received + data@;
        if self.bytes_read < FRAMED_HEADER_LEN {
            // Copy the data into the header buffer.
            let start = self.bytes_read;
            let mut buffer = self.header_buffer;
            let mut i: usize = 0;
            while i < data.len()
                invariant
                    start + data@.len() <= FRAMED_HEADER_LEN,
                    i <= data@.len(),
                    buffer@.len() == FRAMED_HEADER_LEN,
                    buffer@.take(start as int) == self.header_buffer@.take(start as int),
                    forall|k: int| 0 <= k < i ==> buffer@[start + k] == data@[k],
                decreases data@.len() - i,
            {
                buffer[start + i] = data[i];
                i += 1;
            }
            self.header_buffer = buffer;
            self.bytes_read = start + data.len();
            assert(self.header_buffer@.take(self.bytes_read as int) =~= all);

            if self.bytes_read < FRAMED_HEADER_LEN {
                return Ok(None);
            }

            // The frame head is complete: parse the length and the header.
            assert(all.take(16) =~= all);
            let length = self.endian.read_u32_at(&self.header_buffer, 0);
            assert(self.header_buffer@.skip(0) =~= self.header_buffer@);
            let header = match MessageHeader::decode_at(&self.header_buffer, 4, self.endian) {
                Ok(header) => header,
                Err(e) => {
                    self.reset();
                    return Err(TransportError::new_fatal(e));
                },
            };
            if length < HEADER_LEN {
                self.reset();
                return Err(TransportError::new_fatal(Error::message_too_short(length as usize)));
            }
            let body_len = length - HEADER_LEN;
            if body_len > self.max_body_len {
                self.reset();
                return Err(TransportError::new_fatal(Error::payload_too_large(body_len as usize, self.max_body_len as usize)));
            }
            self.parsed_header = header;
            if body_len == 0 {
                self.reset();
                assert(all.subrange(16, 16) =~= Seq::<u8>::empty());
                return Ok(Some(Message::new(header, StreamBody::from_vec(Vec::new()))));
            }
            self.body_buffer = vec![0u8; body_len as usize];
            assert(self.received() =~= all);
            Ok(None)
        } else {
            // Copy the data into the body buffer.
            let start = self.bytes_read - FRAMED_HEADER_LEN;
            let mut body = Vec::new();
            core::mem::swap(&mut body, &mut self.body_buffer);
            let ghost old_body = body@;
            let body_len_now = body.len();
            let mut i: usize = 0;
            while i < data.len()
                invariant
                    start + data@.len() <= body@.len(),
                    body@.len() == old_body.len(),
                    body@.len() == body_len_now,
                    i <= data@.len(),
                    body@.take(start as int) == old_body.take(start as int),
                    forall|k: int| 0 <= k < i ==> body@[start + k] == data@[k],
                decreases data@.len() - i,
            {
                body.set(start + i, data[i]);
                i += 1;
            }
            self.bytes_read = self.bytes_read + data.len();
            let header = self.parsed_header;
            assert(all.take(16) =~= self.header_buffer@);
            if self.bytes_read == FRAMED_HEADER_LEN + body.len() {
                assert(body@ =~= all.subrange(16, all.len() as int));
                self.reset();
                Ok(Some(Message::new(header, StreamBody::from_vec(body))))
            } else {
                self.body_buffer = body;
                assert(self.received() =~= all);
                Ok(None)
            }
        }
    }
}

/// The write half of a [`StreamTransport`].
///
/// The write half keeps track of how much of the current frame has been written,
/// so that a frame can be written in pieces of any size.
pub struct StreamWriteHalf<WriteStream> {
    /// The write half of the underlying stream.
    pub(crate) stream: WriteStream,

    /// The maximum body length to enforce for messages.
    pub(crate) max_body_len: u32,

    /// The endianness to use for encoding header fields, with the native order resolved.
    pub(crate) endian: Endian,

    /// The number of bytes written for the current message.
    pub(crate) bytes_written: usize,

    /// The buffer for the encoded message size and header.
    pub(crate) header_buffer: Option<[u8; FRAMED_HEADER_LEN]>,
}

impl<WriteStream> StreamWriteHalf<WriteStream> {
    /// The underlying stream.
    pub closed spec fn spec_stream(&self) -> WriteStream {
        self.stream
    }

    /// The maximum body length that is accepted.
    pub closed spec fn spec_max_body_len(&self) -> u32 {
        self.max_body_len
    }

    /// The byte order of header fields.
    pub closed spec fn spec_endian(&self) -> Endian {
        self.endian
    }

    /// The number of bytes of the current frame that were written.
    pub closed spec fn spec_bytes_written(&self) -> nat {
        self.bytes_written as nat
    }

    /// The encoded head of the current frame, if a frame is being written.
    pub closed spec fn spec_frame_head(&self) -> Option<Seq<u8>> {
        match self.header_buffer {
            Some(buffer) => Some(buffer@),
            None => None,
        }
    }

    /// The internal state is consistent.
    pub closed spec fn wf(&self) -> bool {
        &&& self.endian.is_fixed()
        &&& self.max_body_len + FRAMED_HEADER_LEN <= usize::MAX
        &&& self.header_buffer is None ==> self.bytes_written == 0
    }

    /// Create a new write half that encodes headers in `endian` and sends bodies up to `max_body_len` bytes.
    ///
    /// A frame with the largest accepted body must fit in the address space.
    pub fn new(stream: WriteStream, max_body_len: u32, endian: Endian) -> (r: Self)
        requires
            max_body_len + FRAMED_HEADER_LEN <= usize::MAX,
        ensures
            r.wf(),
            r.spec_frame_head() is None,
            r.spec_bytes_written() == 0,
            r.spec_stream() == stream,
            r.spec_max_body_len() == max_body_len,
            endian.is_fixed() ==> r.spec_endian() == endian,
    {
        Self {
            stream,
            max_body_len,
            endian: endian.resolve(),
            header_buffer: None,
            bytes_written: 0,
        }
    }

    /// Get direct access to the underlying stream.
    pub fn stream(&self) -> (r: &WriteStream)
        ensures
            *r == self.spec_stream(),
    {
        &self.stream
    }

    /// Get direct mutable access to the underlying stream.
    pub fn stream_mut(&mut self) -> (r: &mut WriteStream)
        ensures
            *r == old(self).spec_stream(),
            final(self).spec_stream() == *final(r),
            final(self).wf() == old(self).wf(),
            final(self).spec_frame_head() == old(self).spec_frame_head(),
            final(self).spec_bytes_written() == old(self).spec_bytes_written(),
            final(self).spec_endian() == old(self).spec_endian(),
            final(self).spec_max_body_len() == old(self).spec_max_body_len(),
    {
        &mut self.stream
    }

    /// Check a message for sending and encode its frame head if that was not done yet.
    ///
    /// A body longer than the maximum body length, or too long for the 32 bit length field,
    /// is refused with a non-fatal error; nothing of it is written, so the stream remains usable.
    pub fn prepare(&mut self, header: &MessageHeader, body: &StreamBody) -> (r: Result<(), TransportError>)
        requires
            old(self).wf(),
        ensures
            final(self).wf(),
            final(self).spec_stream() == old(self).spec_stream(),
            final(self).spec_endian() == old(self).spec_endian(),
            final(self).spec_max_body_len() == old(self).spec_max_body_len(),
            final(self).spec_bytes_written() == old(self).spec_bytes_written(),
            r is Ok <==> body@.len() <= old(self).spec_max_body_len() && body@.len() <= MAX_PAYLOAD_LEN,
            r matches Err(e) ==> !e.spec_is_fatal() && e.spec_inner() == (InnerError::PayloadTooLarge {
                body_len: body@.len() as usize,
                max_len: if old(self).spec_max_body_len() <= MAX_PAYLOAD_LEN { old(self).spec_max_body_len() as usize } else { MAX_PAYLOAD_LEN as usize },
            }),
            r matches Err(_) ==> final(self).spec_frame_head() == old(self).spec_frame_head(),
            r matches Ok(_) ==> {
                &&& old(self).spec_frame_head() is Some ==> final(self).spec_frame_head() == old(self).spec_frame_head()
                &&& old(self).spec_frame_head() is None ==> final(self).spec_frame_head()
                    == Some(spec_frame_head_bytes(old(self).spec_endian(), *header, body@.len()))
            },
    {
        let max_len = if self.max_body_len <= MAX_PAYLOAD_LEN { self.max_body_len } else { MAX_PAYLOAD_LEN };
        let body_len = body.len();
        if body_len > max_len as usize {
            return Err(TransportError::new_non_fatal(Error::payload_too_large(body_len, max_len as usize)));
        }
        if self.header_buffer.is_none() {
            let mut buffer = [0u8; FRAMED_HEADER_LEN];
            self.endian.write_u32_at(&mut buffer, 0, body_len as u32 + HEADER_LEN);
            header.encode_at(&mut buffer, 4, self.endian);
            assert(buffer@ =~= spec_frame_head_bytes(self.endian, *header, body@.len()));
            self.header_buffer = Some(buffer);
        }
        Ok(())
    }

    /// Where writing the current frame continues: the part of the frame head that is left,
    /// and the offset in the body from which the body is left.
    ///
    /// The bytes left of the frame are the returned head bytes followed by the body from the offset.
    pub fn write_position(&self, body: &StreamBody) -> (r: (&[u8], usize))
        requires
            self.wf(),
            self.spec_frame_head() is Some,
            self.spec_bytes_written() <= FRAMED_HEADER_LEN + body@.len(),
        ensures
            r.0@ + body@.skip(r.1 as int) == (self.spec_frame_head()->0 + body@).skip(self.spec_bytes_written() as int),
            r.1 <= body@.len(),
    {
        let head: &[u8; FRAMED_HEADER_LEN] = match &self.header_buffer {
            Some(buffer) => buffer,
            None => {
                assert(false);
                return (&[], 0);
            }
        };
        let head_slice = vstd::array::array_as_slice(head);
        let ghost frame = head_slice@ + body@;
        if self.bytes_written < FRAMED_HEADER_LEN {
            let rest = vstd::slice::slice_subrange(head_slice, self.bytes_written, FRAMED_HEADER_LEN);
            assert(rest@ + body@.skip(0) =~= frame.skip(self.bytes_written as int));
            (rest, 0)
        } else {
            let rest = vstd::slice::slice_subrange(head_slice, FRAMED_HEADER_LEN, FRAMED_HEADER_LEN);
            let offset = self.bytes_written - FRAMED_HEADER_LEN;
            assert(rest@ + body@.skip(offset as int) =~= frame.skip(self.bytes_written as int));
            (rest, offset)
        }
    }

    /// Record that `written` more bytes of the current frame were written to the stream.
    ///
    /// Returns true when the whole frame has been written; the next frame then starts from scratch.
    pub fn advance(&mut self, written: usize, body: &StreamBody) -> (done: bool)
        requires
            old(self).wf(),
            old(self).spec_frame_head() is Some,
            body@.len() <= old(self).spec_max_body_len(),
            old(self).spec_bytes_written() + written <= FRAMED_HEADER_LEN + body@.len(),
        ensures
            final(self).wf(),
            final(self).spec_stream() == old(self).spec_stream(),
            final(self).spec_endian() == old(self).spec_endian(),
            final(self).spec_max_body_len() == old(self).spec_max_body_len(),
            done == (old(self).spec_bytes_written() + written == FRAMED_HEADER_LEN + body@.len()),
            done ==> final(self).spec_frame_head() is None && final(self).spec_bytes_written() == 0,
            !done ==> final(self).spec_frame_head() == old(self).spec_frame_head()
                && final(self).spec_bytes_written() == old(self).spec_bytes_written() + written,
    {
        self.bytes_written = self.bytes_written + written;
        if self.bytes_written == FRAMED_HEADER_LEN + body.len() {
            self.bytes_written = 0;
            self.header_buffer = None;
            true
        } else {
            false
        }
    }
}

/// Information about the remote peer of a Unix stream.
#[derive(Debug, Clone)]
pub struct UnixStreamInfo {
    /// The user ID of the remote process.
    user_id: u32,

    /// The group ID of the remote process.
    group_id: u32,

    /// The process ID of the remote process.
    process_id: Option<i32>,
}

impl UnixStreamInfo {
    /// Create the information from the credentials of the remote process.
    pub fn new(user_id: u32, group_id: u32, process_id: Option<i32>) -> (r: Self)
        ensures
            r.spec_user_id() == user_id,
            r.spec_group_id() == group_id,
            r.spec_process_id() == process_id,
    {
        Self { user_id, group_id, process_id }
    }

    /// The user ID of the remote process.
    pub closed spec fn spec_user_id(&self) -> u32 {
        self.user_id
    }

    /// The group ID of the remote process.
    pub closed spec fn spec_group_id(&self) -> u32 {
        self.group_id
    }

    /// The process ID of the remote process.
    pub closed spec fn spec_process_id(&self) -> Option<i32> {
        self.process_id
    }

    /// Get the user ID of the remote process.
    pub fn user_id(&self) -> (r: u32)
        ensures
            r == self.spec_user_id(),
    {
        self.user_id
    }

    /// Get the group ID of the remote process.
    pub fn group_id(&self) -> (r: u32)
        ensures
            r == self.spec_group_id(),
    {
        self.group_id
    }

    /// Get the process ID of the remote process (if available).
    pub fn process_id(&self) -> (r: Option<i32>)
        ensures
            r == self.spec_process_id(),
    {
        self.process_id
    }
}

/// What a reader assembles from a frame, it gives back as the message the frame was made of:
/// every proper prefix of the frame is incomplete, and the whole frame gives the header and body.
pub proof fn lemma_frame_roundtrip(endian: Endian, max_body_len: u32, header: MessageHeader, body: Seq<u8>, prefix_len: nat)
    requires
        endian.is_fixed(),
        body.len() <= max_body_len,
        body.len() <= MAX_PAYLOAD_LEN,
        prefix_len < spec_frame(endian, header, body).len(),
    ensures
        spec_frame(endian, header, body).len() == FRAMED_HEADER_LEN + body.len(),
        spec_read_frame(endian, max_body_len, spec_frame(endian, header, body).take(prefix_len as int))
            == Ok::<Option<(MessageHeader, Seq<u8>)>, InnerError>(None),
        spec_read_frame(endian, max_body_len, spec_frame(endian, header, body))
            == Ok::<Option<(MessageHeader, Seq<u8>)>, InnerError>(Some((header, body))),
{
    let frame = spec_frame(endian, header, body);
    let length = (body.len() + HEADER_LEN) as u32;
    lemma_u32_le_roundtrip(length);
    lemma_u32_be_roundtrip(length);
    lemma_header_roundtrip(endian, header, body);
    lemma_header_roundtrip(endian, header, Seq::<u8>::empty());
    let hb = spec_header_bytes(endian, header);
    assert(frame.take(16).take(4) =~= spec_u32_bytes(endian, length));
    assert(spec_u32_from(endian, frame.take(16)) == spec_u32_from(endian, frame.take(16).take(4)));
    assert(frame.take(16).skip(4) =~= hb + Seq::<u8>::empty());
    assert(spec_frame_head(endian, max_body_len, frame.take(16)) == Ok::<(MessageHeader, nat), InnerError>((header, body.len())));
    assert(frame.subrange(16, 16 + body.len() as int) =~= body);
    let p = frame.take(prefix_len as int);
    if prefix_len >= 16 {
        assert(p.take(16) =~= frame.take(16));
    }
}

/// Feeding a complete, valid frame head to a reader makes it wait for exactly the body.
pub proof fn lemma_frame_head_wants_body(endian: Endian, max_body_len: u32, header: MessageHeader, body_len: nat)
    requires
        endian.is_fixed(),
        body_len <= max_body_len,
        body_len <= MAX_PAYLOAD_LEN,
    ensures
        spec_frame_head(endian, max_body_len, spec_frame_head_bytes(endian, header, body_len))
            == Ok::<(MessageHeader, nat), InnerError>((header, body_len)),
{
    let head = spec_frame_head_bytes(endian, header, body_len);
    let length = (body_len + HEADER_LEN) as u32;
    lemma_u32_le_roundtrip(length);
    lemma_u32_be_roundtrip(length);
    lemma_header_roundtrip(endian, header, Seq::<u8>::empty());
    assert(head.take(4) =~= spec_u32_bytes(endian, length));
    assert(spec_u32_from(endian, head) == spec_u32_from(endian, head.take(4)));
    assert(head.skip(4) =~= spec_header_bytes(endian, header) + Seq::<u8>::empty());
}

} // verus!
verus! {

impl<T> From<T> for StreamBody
    where
        Box<[u8]>: From<T>,
{
    fn from(other: T) -> (r: Self)
        ensures
            call_ensures(<Box<[u8]> as From<T>>::from, (other,), r.data),
    {
        Self { data: Box::<[u8]>::from(other) }
    }
}

impl<T> vstd::std_specs::convert::FromSpecImpl<T> for StreamBody
    where
        Box<[u8]>: From<T>,
{
    /// What `from` returns is stated by its own `ensures`, through the conversion to a boxed slice.
    open spec fn obeys_from_spec() -> bool {
        false
    }

    open spec fn from_spec(v: T) -> StreamBody {
        arbitrary()
    }
}

} // verus!
