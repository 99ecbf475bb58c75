use fizyr_rpc::service_id;
use fizyr_rpc::transport::Endian;
use fizyr_rpc::{Body, Message, MessageHeader, MessageType, StreamBody, HEADER_LEN, MAX_PAYLOAD_LEN};

#[test]
fn header_constants() {
	assert_eq!(HEADER_LEN, 12);
	assert_eq!(MAX_PAYLOAD_LEN, u32::MAX - 12);
	assert_eq!(service_id::ERROR, -1);
}

#[test]
fn message_type_from_u32() {
	assert_eq!(MessageType::from_u32(0).unwrap(), MessageType::Request);
	assert_eq!(MessageType::from_u32(1).unwrap(), MessageType::Response);
	assert_eq!(MessageType::from_u32(2).unwrap(), MessageType::RequesterUpdate);
	assert_eq!(MessageType::from_u32(3).unwrap(), MessageType::ResponderUpdate);
	assert_eq!(MessageType::from_u32(4).unwrap(), MessageType::Stream);
	let error = MessageType::from_u32(5).err().unwrap();
	assert_eq!(error.describe(), "invalid message type: expected a value in the range [0..4], got 5");
	for t in [MessageType::Request, MessageType::Response, MessageType::RequesterUpdate, MessageType::ResponderUpdate, MessageType::Stream] {
		assert_eq!(MessageType::from_u32(t.to_u32()).unwrap(), t);
	}
}

#[test]
fn message_type_predicates() {
	assert!(MessageType::Request.is_request());
	assert!(!MessageType::Request.is_response());
	assert!(MessageType::Response.is_response());
	assert!(MessageType::RequesterUpdate.is_requester_update());
	assert!(!MessageType::RequesterUpdate.is_responder_update());
	assert!(MessageType::ResponderUpdate.is_responder_update());
	assert!(MessageType::Stream.is_stream());
	assert!(!MessageType::Stream.is_request());
}

#[test]
fn message_header_constructors() {
	let header = MessageHeader::request(1, 2);
	assert_eq!(header.message_type, MessageType::Request);
	assert_eq!(header.request_id, 1);
	assert_eq!(header.service_id, 2);
	assert_eq!(MessageHeader::response(3, 4).message_type, MessageType::Response);
	assert_eq!(MessageHeader::requester_update(3, 4).message_type, MessageType::RequesterUpdate);
	assert_eq!(MessageHeader::responder_update(3, 4).message_type, MessageType::ResponderUpdate);
	assert_eq!(MessageHeader::stream(3, 4).message_type, MessageType::Stream);
	assert_eq!(MessageHeader::error_response(7), MessageHeader::response(7, -1));
}

#[test]
fn message_constructors() {
	let message = Message::request(1, 2, 10u32);
	assert_eq!(message.header, MessageHeader::request(1, 2));
	assert_eq!(message.body, 10);
	assert_eq!(Message::response(1, 2, ()).header, MessageHeader::response(1, 2));
	assert_eq!(Message::requester_update(1, 2, ()).header, MessageHeader::requester_update(1, 2));
	assert_eq!(Message::responder_update(1, 2, ()).header, MessageHeader::responder_update(1, 2));
	assert_eq!(Message::stream(1, 2, ()).header, MessageHeader::stream(1, 2));
	assert_eq!(Message::new(MessageHeader::stream(5, 6), 'x').body, 'x');

	let error: Message<StreamBody> = Message::error_response(9, "it broke");
	assert_eq!(error.header, MessageHeader::response(9, service_id::ERROR));
	assert_eq!(error.body.as_slice(), b"it broke");
}

#[test]
fn message_header_encode_little_endian() {
	let mut buffer = [0u8; 14];
	MessageHeader::responder_update(0x01020304, -2).encode(&mut buffer, Endian::LittleEndian);
	assert_eq!(buffer, [3, 0, 0, 0, 4, 3, 2, 1, 0xfe, 0xff, 0xff, 0xff, 0, 0]);
	assert_eq!(MessageHeader::decode(&buffer, Endian::LittleEndian).ok().unwrap(), MessageHeader::responder_update(0x01020304, -2));
}

#[test]
fn message_header_encode_big_endian() {
	let mut buffer = [0u8; 12];
	MessageHeader::stream(7, 0x01020304).encode(&mut buffer, Endian::BigEndian);
	assert_eq!(buffer, [0, 0, 0, 4, 0, 0, 0, 7, 1, 2, 3, 4]);
	assert_eq!(MessageHeader::decode(&buffer, Endian::BigEndian).ok().unwrap(), MessageHeader::stream(7, 0x01020304));
}

#[test]
fn message_header_decode_invalid_type() {
	let buffer = [9, 0, 0, 0, 1, 0, 0, 0, 2, 0, 0, 0];
	let error = MessageHeader::decode(&buffer, Endian::LittleEndian).err().unwrap();
	assert_eq!(error.describe(), "invalid message type: expected a value in the range [0..4], got 9");
}

#[test]
fn message_header_roundtrip_all_orders() {
	for endian in [Endian::LittleEndian, Endian::BigEndian, Endian::NativeEndian] {
		for header in [MessageHeader::request(0, 0), MessageHeader::response(u32::MAX, i32::MIN), MessageHeader::stream(17, -1)] {
			let mut buffer = [0u8; 12];
			header.encode(&mut buffer, endian);
			assert_eq!(MessageHeader::decode(&buffer, endian).ok().unwrap(), header);
		}
	}
}

#[test]
fn stream_body_from_error_holds_message_bytes() {
	let body = StreamBody::from_error("nope");
	assert_eq!(body.as_slice(), b"nope");
	assert_eq!(body.len(), 4);
	let copy = body.clone();
	assert_eq!(copy.as_slice(), b"nope");
	let from_slice: StreamBody = (&b"abc"[..]).into();
	assert_eq!(&*from_slice.data, b"abc");
	let from_vec = StreamBody::from_vec(vec![1, 2]);
	assert_eq!(&*from_vec.data, &[1, 2]);
}
