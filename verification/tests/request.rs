use fizyr_rpc::request::{received_request_command, sent_request_command};
use fizyr_rpc::request_tracker::{RequestHandleCommand, RequestTracker, UnhandledMessage};
use fizyr_rpc::{Message, MessageHeader, MessageType, PeekBuffer};

#[derive(Debug)]
struct Body;

#[test]
fn update_waiting_for_response_is_kept_for_next_update() {
	let mut buffer = PeekBuffer::<Body>::new();
	assert!(buffer.take().is_none());

	// An update arrives while the response is awaited: an error, and the update is kept.
	let error = buffer.sort_response(Message::responder_update(4, 11, Body)).err().unwrap();
	assert!(error.is_unexpected_message_type());
	assert_eq!(error.describe(), "unexpected message type: expected a response message, got an update message");

	// The next wait for an update hands out the kept update first.
	let kept = buffer.take().unwrap();
	assert!(buffer.take().is_none());
	let update = buffer.sort_update(kept).unwrap();
	assert!(update.header == MessageHeader::responder_update(4, 11));
}

#[test]
fn response_waiting_for_update_is_kept_for_response() {
	let mut buffer = PeekBuffer::<Body>::new();
	assert!(buffer.sort_update(Message::response(4, 1, Body)).is_none());
	let kept = buffer.take().unwrap();
	let response = buffer.sort_response(kept).ok().unwrap();
	assert!(response.header == MessageHeader::response(4, 1));
	assert!(buffer.take().is_none());
}

#[test]
fn request_handle_commands() {
	let (message, close) = sent_request_command(RequestHandleCommand::Message(Message::responder_update(1, 2, Body)));
	assert!(message.unwrap().header == MessageHeader::responder_update(1, 2));
	assert!(!close);
	// The response is the last message: the channel is closed after it.
	let (message, close) = sent_request_command(RequestHandleCommand::Message(Message::response(1, 3, Body)));
	assert!(message.unwrap().header.message_type == MessageType::Response);
	assert!(close);
	let (message, close) = sent_request_command(RequestHandleCommand::<Body>::Close);
	assert!(message.is_none() && close);

	let (message, close) = received_request_command(RequestHandleCommand::Message(Message::requester_update(1, 2, Body)));
	assert!(message.is_some() && !close);
	let (message, close) = received_request_command(RequestHandleCommand::<Body>::Close);
	assert!(message.is_none() && close);
}

#[test]
fn undelivered_updates_remove_their_request() {
	let mut tracker = RequestTracker::<Body>::new();
	let _rx = tracker.register_received_request(6).ok().unwrap();
	let sent = tracker.allocate_sent_request(2).ok().unwrap();

	// Delivered: nothing changes.
	assert!(matches!(tracker.finish_update(6, MessageType::RequesterUpdate, true), Ok(None)));
	assert!(matches!(tracker.finish_update(sent.request_id, MessageType::ResponderUpdate, true), Ok(None)));

	// Not delivered: the request is removed and its ID is reported unknown.
	let error = tracker.finish_update(6, MessageType::RequesterUpdate, false).err().unwrap();
	assert_eq!(error.describe(), "unknown request ID: request ID 6 is not associated with an open request");
	assert!(tracker.remove_received_request(6).is_err());
	assert!(tracker.finish_update(sent.request_id, MessageType::ResponderUpdate, false).is_err());
	assert!(tracker.remove_sent_request(sent.request_id).is_err());
}

#[test]
fn stale_received_request_id_is_taken_over() {
	let mut tracker = RequestTracker::<Body>::new();
	assert!(tracker.finish_register_received_request(8, None).is_ok());

	// The channel of the existing request is open: the ID is still in use.
	let error = tracker.finish_register_received_request(8, Some(false)).err().unwrap();
	assert_eq!(error.describe(), "duplicate request ID: request ID 8 is already associated with an open request");

	// The channel is closed: the ID is taken over with a new channel.
	let rx = tracker.finish_register_received_request(8, Some(true)).ok().unwrap();
	assert_eq!(rx.channel, 1);
	match tracker.process_incoming_message(Message::requester_update(8, 1, Body)) {
		Ok(None) => (),
		_ => panic!("expected the update to be delivered"),
	}
	let mut receiver = rx.receiver;
	assert!(matches!(receiver.try_recv(), Ok(RequestHandleCommand::Message(_))));
	assert!(matches!(tracker.process_incoming_message(Message::stream(0, 1, Body)), Ok(Some(UnhandledMessage::Stream(_)))));
}
