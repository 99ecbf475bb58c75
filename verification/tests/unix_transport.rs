use fizyr_rpc::transport::{Endian, UnixBody, UnixConfig, UnixReadHalf, UnixSeqpacketInfo, UnixTransport, UnixWriteHalf};
use fizyr_rpc::{Body, MessageHeader};

#[test]
fn unix_datagram_roundtrip() {
	let config = UnixConfig::default();
	assert_eq!(config.max_body_len_read, 4 * 1024);
	assert_eq!(config.max_fds_write, 10);
	let write = UnixWriteHalf::new((), config.max_body_len_write, config.max_fds_write, config.endian);
	let mut read = UnixReadHalf::new((), config.max_body_len_read, config.max_fds_read, config.endian);

	for i in 0..10u32 {
		let body = UnixBody::new(&b"Hello peer_b!"[..], Vec::new());
		let header = write.encode_header(&MessageHeader::request(i * 2, 10), &body).ok().unwrap();

		// Receive the datagram as a socket would: header first, then the body buffer.
		let mut body_buffer = read.take_body_buffer();
		assert_eq!(body_buffer.len(), 4 * 1024 + 1);
		body_buffer[..body.data.len()].copy_from_slice(&body.data);
		let bytes_read = 12 + body.data.len();
		let message = read.decode_datagram(&header, body_buffer, bytes_read, false, Vec::new()).ok().unwrap();
		assert!(message.header == MessageHeader::request(i * 2, 10));
		assert!(message.body.data == b"Hello peer_b!");
		assert!(message.body.fds.is_empty());
	}
}

#[test]
fn unix_datagram_errors() {
	let read = UnixReadHalf::new((), 16, 0, Endian::BigEndian);
	let header = [0u8; 12];

	let error = read.decode_datagram(&header, vec![0; 16], 0, false, Vec::new()).err().unwrap();
	assert!(error.is_fatal());
	assert!(error.inner().is_connection_aborted());

	let error = read.decode_datagram(&header, vec![0; 16], 5, false, Vec::new()).err().unwrap();
	assert!(error.is_fatal());
	assert_eq!(error.describe(), "the message is too short to be valid: need at least 12 for the header, got only 5 bytes");

	let bad = [0, 0, 0, 9, 0, 0, 0, 0, 0, 0, 0, 0];
	let error = read.decode_datagram(&bad, vec![0; 16], 12, false, Vec::new()).err().unwrap();
	assert_eq!(error.describe(), "invalid message type: expected a value in the range [0..4], got 9");

	let write = UnixWriteHalf::new((), 3, 0, Endian::BigEndian);
	let error = write.encode_header(&MessageHeader::stream(1, 1), &UnixBody::from(vec![1, 2, 3, 4])).err().unwrap();
	assert!(!error.is_fatal());
	assert_eq!(error.describe(), "payload too large: maximum payload size is 3, got 4");
}

#[test]
fn unix_header_layout() {
	let write = UnixWriteHalf::new((), 3, 0, Endian::LittleEndian);
	let header = write.encode_header(&MessageHeader::response(2, -1), &UnixBody::from(&b"ab"[..])).ok().unwrap();
	assert_eq!(header, [1, 0, 0, 0, 2, 0, 0, 0, 0xff, 0xff, 0xff, 0xff]);
}

#[test]
fn unix_body_conversions() {
	let body = UnixBody::from_error("oops");
	assert_eq!(body.data, b"oops");
	assert!(body.fds.is_empty());
	let body = UnixBody::from(Box::<[u8]>::from(&b"xy"[..]));
	assert_eq!(body.data, b"xy");
	let body = UnixBody::from((vec![1u8], Vec::new()));
	assert_eq!(body.data, vec![1]);
	let body = UnixBody::from_data(vec![9]);
	assert_eq!(body.data, vec![9]);
}

#[test]
fn unix_transport_accessors() {
	let mut transport = UnixTransport::new_default(1u8);
	*transport.socket_mut() = 2;
	assert_eq!(*transport.socket(), 2);
	assert_eq!(transport.config().max_body_len_write, 4 * 1024);
	assert_eq!(transport.config().max_fds_read, 10);
	assert_eq!(transport.into_socket(), 2);
	let config = UnixConfig::new(1, 2, 3, 4, Endian::BigEndian);
	assert_eq!(config.max_fds_write, 4);

	let mut read = UnixReadHalf::new(0u8, 1, 1, Endian::LittleEndian);
	*read.socket_mut() = 5;
	assert_eq!(*read.socket(), 5);
	let mut write = UnixWriteHalf::new(0u8, 1, 1, Endian::LittleEndian);
	*write.socket_mut() = 6;
	assert_eq!(*write.socket(), 6);
}

#[test]
fn unix_seqpacket_info_accessors() {
	let info = UnixSeqpacketInfo::new(1, 2, None);
	assert_eq!(info.user_id(), 1);
	assert_eq!(info.group_id(), 2);
	assert_eq!(info.process_id(), None);
}

#[test]
fn unix_oversized_datagram_is_dropped_without_closing() {
	let mut read = UnixReadHalf::new((), 4, 0, Endian::LittleEndian);
	let header = [4, 0, 0, 0, 1, 0, 0, 0, 2, 0, 0, 0];

	// A body one byte too long fits the buffer and is refused by its length.
	let mut body = read.take_body_buffer();
	assert_eq!(body.len(), 5);
	body.copy_from_slice(b"abcde");
	let error = read.decode_datagram(&header, body, 17, false, Vec::new()).err().unwrap();
	assert!(!error.is_fatal());
	assert_eq!(error.describe(), "payload too large: maximum payload size is 4, got 5");

	// A longer body is cut off by the socket, which reports the truncation.
	let body = read.take_body_buffer();
	let error = read.decode_datagram(&header, body, 17, true, Vec::new()).err().unwrap();
	assert!(!error.is_fatal());

	// The next datagram is read normally.
	let mut body = read.take_body_buffer();
	body[..4].copy_from_slice(b"abcd");
	let message = read.decode_datagram(&header, body, 16, false, Vec::new()).ok().unwrap();
	assert!(message.header == MessageHeader::stream(1, 2));
	assert!(message.body.data == b"abcd");
}
