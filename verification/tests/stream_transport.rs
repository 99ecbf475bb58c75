use fizyr_rpc::transport::{Endian, StreamBody, StreamConfig, StreamReadHalf, StreamTransport, StreamWriteHalf, UnixStreamInfo};
use fizyr_rpc::{Message, MessageHeader};

/// Write a message through a write half, as if the stream accepted at most `chunk` bytes per write.
fn write_frame(write: &mut StreamWriteHalf<()>, header: &MessageHeader, body: &StreamBody, chunk: usize) -> Vec<u8> {
	write.prepare(header, body).ok().unwrap();
	let mut wire = Vec::new();
	loop {
		let (head, body_from) = write.write_position(body);
		let mut pending: Vec<u8> = head.to_vec();
		pending.extend_from_slice(&body.as_slice()[body_from..]);
		let n = pending.len().min(chunk);
		wire.extend_from_slice(&pending[..n]);
		if write.advance(n, body) {
			return wire;
		}
	}
}

/// Feed bytes to a read half in pieces of at most `chunk` bytes, collecting the messages.
fn read_frames(read: &mut StreamReadHalf<()>, wire: &[u8], chunk: usize) -> Vec<Message<StreamBody>> {
	let mut messages = Vec::new();
	let mut offset = 0;
	while offset < wire.len() {
		let n = chunk.min(read.bytes_wanted()).min(wire.len() - offset);
		if let Some(message) = read.receive(&wire[offset..offset + n]).ok().unwrap() {
			messages.push(message);
		}
		offset += n;
	}
	messages
}

#[test]
fn stream_transport_roundtrip_in_pieces() {
	let config = StreamConfig::default();
	let transport_a = StreamTransport::new((), config.clone());
	let transport_b = StreamTransport::new((), config);
	let mut write_a = StreamWriteHalf::new((), transport_a.config().max_body_len_write, transport_a.config().endian);
	let mut read_b = StreamReadHalf::new((), transport_b.config().max_body_len_read, transport_b.config().endian);

	for i in 0..10u32 {
		let body = StreamBody::from_vec(b"Hello peer_b!".to_vec());
		let wire = write_frame(&mut write_a, &MessageHeader::request(i * 2, 10), &body, 1 + i as usize * 3);
		assert_eq!(wire.len(), 16 + 13);
		let messages = read_frames(&mut read_b, &wire, 1 + i as usize);
		assert_eq!(messages.len(), 1);
		assert!(messages[0].header == MessageHeader::request(i * 2, 10));
		assert!(messages[0].body.as_slice() == b"Hello peer_b!");
	}
}

#[test]
fn stream_frame_layout_little_endian() {
	let mut write = StreamWriteHalf::new((), 1024, Endian::LittleEndian);
	let body = StreamBody::from_vec(vec![0xaa, 0xbb]);
	let wire = write_frame(&mut write, &MessageHeader::response(1, -1), &body, 100);
	assert_eq!(wire, vec![14, 0, 0, 0, 1, 0, 0, 0, 1, 0, 0, 0, 0xff, 0xff, 0xff, 0xff, 0xaa, 0xbb]);
}

#[test]
fn stream_frame_layout_big_endian() {
	let mut write = StreamWriteHalf::new((), 1024, Endian::BigEndian);
	let body = StreamBody::from_vec(vec![]);
	let wire = write_frame(&mut write, &MessageHeader::stream(2, 3), &body, 5);
	assert_eq!(wire, vec![0, 0, 0, 12, 0, 0, 0, 4, 0, 0, 0, 2, 0, 0, 0, 3]);
	let mut read = StreamReadHalf::new((), 1024, Endian::BigEndian);
	let messages = read_frames(&mut read, &wire, 3);
	assert_eq!(messages.len(), 1);
	assert!(messages[0].header == MessageHeader::stream(2, 3));
	assert_eq!(messages[0].body.len(), 0);
}

#[test]
fn stream_many_messages_back_to_back() {
	let mut write = StreamWriteHalf::new((), 64, Endian::NativeEndian);
	let mut wire = Vec::new();
	for i in 0..20u32 {
		let body = StreamBody::from_vec(vec![i as u8; i as usize]);
		wire.extend(write_frame(&mut write, &MessageHeader::requester_update(i, -(i as i32)), &body, 7));
	}
	let mut read = StreamReadHalf::new((), 64, Endian::NativeEndian);
	let messages = read_frames(&mut read, &wire, 5);
	assert_eq!(messages.len(), 20);
	for (i, message) in messages.iter().enumerate() {
		assert!(message.header == MessageHeader::requester_update(i as u32, -(i as i32)));
		assert_eq!(message.body.as_slice(), vec![i as u8; i].as_slice());
	}
}

#[test]
fn stream_read_empty_is_connection_aborted() {
	let mut read = StreamReadHalf::new((), 64, Endian::LittleEndian);
	let error = read.receive(&[]).err().unwrap();
	assert!(error.is_fatal());
	assert!(error.inner().is_connection_aborted());
}

#[test]
fn stream_read_rejects_invalid_type() {
	let mut read = StreamReadHalf::new((), 64, Endian::LittleEndian);
	let wire = [12, 0, 0, 0, 7, 0, 0, 0, 0, 0, 0, 0, 0, 0, 0, 0];
	let error = read.receive(&wire).err().unwrap();
	assert!(error.is_fatal());
	assert_eq!(error.describe(), "invalid message type: expected a value in the range [0..4], got 7");
}

#[test]
fn stream_read_rejects_short_length() {
	let mut read = StreamReadHalf::new((), 64, Endian::LittleEndian);
	let wire = [11, 0, 0, 0, 0, 0, 0, 0, 0, 0, 0, 0, 0, 0, 0, 0];
	let error = read.receive(&wire).err().unwrap();
	assert!(error.is_fatal());
	assert_eq!(error.describe(), "the message is too short to be valid: need at least 12 for the header, got only 11 bytes");
}

#[test]
fn stream_read_rejects_large_payload() {
	let mut read = StreamReadHalf::new((), 8, Endian::LittleEndian);
	let wire = [21, 0, 0, 0, 0, 0, 0, 0, 0, 0, 0, 0, 0, 0, 0, 0];
	let error = read.receive(&wire).err().unwrap();
	assert!(error.is_fatal());
	assert_eq!(error.describe(), "payload too large: maximum payload size is 8, got 9");
}

#[test]
fn stream_write_rejects_large_payload_without_writing() {
	let mut write = StreamWriteHalf::new((), 4, Endian::LittleEndian);
	let body = StreamBody::from_vec(vec![0; 5]);
	let error = write.prepare(&MessageHeader::request(1, 1), &body).err().unwrap();
	assert!(!error.is_fatal());
	assert_eq!(error.describe(), "payload too large: maximum payload size is 4, got 5");
	let body = StreamBody::from_vec(vec![0; 4]);
	assert!(write.prepare(&MessageHeader::request(1, 1), &body).is_ok());
}

#[test]
fn stream_transport_accessors() {
	let mut transport = StreamTransport::new_default(5u8);
	assert_eq!(*transport.stream(), 5);
	*transport.stream_mut() = 6;
	assert_eq!(transport.config().max_body_len_read, 8 * 1024);
	assert_eq!(transport.config().max_body_len_write, 8 * 1024);
	assert_eq!(transport.config().endian, Endian::LittleEndian);
	assert_eq!(transport.into_stream(), 6);

	let mut read = StreamReadHalf::new(1u8, 10, Endian::BigEndian);
	*read.stream_mut() += 1;
	assert_eq!(*read.stream(), 2);
	let mut write = StreamWriteHalf::new(1u8, 10, Endian::BigEndian);
	*write.stream_mut() += 2;
	assert_eq!(*write.stream(), 3);

	let config = StreamConfig::new(1, 2, Endian::BigEndian);
	assert_eq!(config.max_body_len_read, 1);
	assert_eq!(config.max_body_len_write, 2);
}

#[test]
fn unix_stream_info_accessors() {
	let info = UnixStreamInfo::new(1000, 100, Some(42));
	assert_eq!(info.user_id(), 1000);
	assert_eq!(info.group_id(), 100);
	assert_eq!(info.process_id(), Some(42));
}

#[test]
fn mod_test_stream_transport() {
	// Two peers with default configuration; the bytes that one writes are what the other reads.
	let config = StreamConfig::default();
	let mut write_a = StreamWriteHalf::new((), config.max_body_len_write, config.endian);
	let mut read_a = StreamReadHalf::new((), config.max_body_len_read, config.endian);
	let mut write_b = StreamWriteHalf::new((), config.max_body_len_write, config.endian);
	let mut read_b = StreamReadHalf::new((), config.max_body_len_read, config.endian);

	for i in 0..10 {
		let wire = write_frame(&mut write_a, &MessageHeader::request(i * 2, 10), &b"Hello peer_b!"[..].into(), usize::MAX);
		let messages = read_frames(&mut read_b, &wire, usize::MAX);
		assert_eq!(messages.len(), 1);
		assert!(messages[0].header == MessageHeader::request(i * 2, 10));
		assert!(messages[0].body.as_slice() == b"Hello peer_b!");

		let wire = write_frame(&mut write_b, &MessageHeader::request(i * 2 + 1, 11), &b"Hello peer_a!"[..].into(), usize::MAX);
		let messages = read_frames(&mut read_a, &wire, usize::MAX);
		assert_eq!(messages.len(), 1);
		assert!(messages[0].header == MessageHeader::request(i * 2 + 1, 11));
		assert!(messages[0].body.as_slice() == b"Hello peer_a!");
	}
}
