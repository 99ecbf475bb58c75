use fizyr_rpc::error::{check_message_too_short, check_payload_too_large, connection_aborted, message_type_phrase};
use fizyr_rpc::transport::TransportError;
use fizyr_rpc::{Error, InnerError, MessageType, UnexpectedMessageType};

#[test]
fn error_constructors_describe_themselves() {
	assert_eq!(Error::message_too_short(3).describe(), "the message is too short to be valid: need at least 12 for the header, got only 3 bytes");
	assert_eq!(Error::invalid_message_type(7).describe(), "invalid message type: expected a value in the range [0..4], got 7");
	assert_eq!(Error::payload_too_large(10, 8).describe(), "payload too large: maximum payload size is 8, got 10");
	assert_eq!(Error::unexpected_service_id(-42).describe(), "unexpected service ID: -42");
	assert_eq!(Error::unexpected_service_id(42).describe(), "unexpected service ID: 42");
	assert_eq!(Error::encode_failed("bad value".to_string()).describe(), "bad value");
	assert_eq!(Error::decode_failed("bad body".to_string()).describe(), "bad body");
	assert_eq!(Error::custom("custom".to_string()).describe(), "custom");
	assert_eq!(Error::new(InnerError::DuplicateRequestId { request_id: 5 }).describe(), "duplicate request ID: request ID 5 is already associated with an open request");
	assert_eq!(Error::new(InnerError::UnknownRequestId { request_id: 6 }).describe(), "unknown request ID: request ID 6 is not associated with an open request");
	assert_eq!(Error::new(InnerError::NoFreeRequestIdFound).describe(), "no free request ID was found");
	assert_eq!(Error::new(InnerError::RequestClosed).describe(), "the request is already closed");
}

#[test]
fn unexpected_message_type_describes_both_types() {
	let error = UnexpectedMessageType { value: MessageType::ResponderUpdate, expected: MessageType::Response };
	assert_eq!(error.describe(), "unexpected message type: expected a response message, got an update message");
	assert_eq!(message_type_phrase(MessageType::Stream), "a streaming message");
	assert_eq!(message_type_phrase(MessageType::Request), "a request message");
	let error = Error::new(InnerError::UnexpectedMessageType(error));
	assert!(error.is_unexpected_message_type());
	assert!(!error.is_remote_error());
}

#[test]
fn remote_error_roundtrip() {
	let error = Error::remote_error("the server is sad".to_string());
	assert!(error.is_remote_error());
	assert!(!error.is_connection_aborted());
	assert_eq!(error.as_remote_error(), Some("the server is sad"));
	assert_eq!(error.into_remote_error(), Some("the server is sad".to_string()));

	let error = Error::custom("other".to_string());
	assert_eq!(error.as_remote_error(), None);
	assert_eq!(error.into_remote_error(), None);
}

#[test]
fn connection_aborted_errors() {
	assert!(connection_aborted().is_connection_aborted());
	let io = std::io::Error::from(std::io::ErrorKind::ConnectionAborted);
	assert!(Error::io_error(io).is_connection_aborted());
	let io = std::io::Error::from(std::io::ErrorKind::BrokenPipe);
	let error = Error::io_error(io);
	assert!(!error.is_connection_aborted());
	assert!(!error.is_remote_error());

	// Converting an I/O error keeps it and its kind.
	let error: Error = std::io::Error::from(std::io::ErrorKind::ConnectionAborted).into();
	assert!(error.is_connection_aborted());
	let error: Error = std::io::Error::from(std::io::ErrorKind::NotFound).into();
	assert!(!error.is_connection_aborted());
}

#[test]
fn check_functions() {
	assert!(check_message_too_short(12).is_ok());
	assert!(check_message_too_short(100).is_ok());
	assert!(matches!(check_message_too_short(11), Err(InnerError::MessageTooShort { message_len: 11 })));
	assert!(check_payload_too_large(8, 8).is_ok());
	assert!(matches!(check_payload_too_large(9, 8), Err(InnerError::PayloadTooLarge { body_len: 9, max_len: 8 })));
}

#[test]
fn transport_error_fatality() {
	let fatal = TransportError::new_fatal(Error::message_too_short(2));
	assert!(fatal.is_fatal());
	assert_eq!(fatal.describe(), "the message is too short to be valid: need at least 12 for the header, got only 2 bytes");
	let non_fatal = TransportError::new_non_fatal(Error::remote_error("x".to_string()));
	assert!(!non_fatal.is_fatal());
	assert!(non_fatal.inner().is_remote_error());
	assert_eq!(non_fatal.into_inner().into_remote_error(), Some("x".to_string()));
}

#[test]
fn expected_message_type() {
	assert!(fizyr_rpc::error::expect_message_type(MessageType::Response, MessageType::Response).is_ok());
	let error = fizyr_rpc::error::expect_message_type(MessageType::ResponderUpdate, MessageType::Response).err().unwrap();
	assert!(error.is_unexpected_message_type());
	assert_eq!(error.describe(), "unexpected message type: expected a response message, got an update message");
}
