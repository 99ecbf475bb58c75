use fizyr_rpc::peer::{flow_after_answer, settle_sent_request, LoopFlow};
use fizyr_rpc::transport::TransportError;
use fizyr_rpc::Error;
use fizyr_rpc::request_tracker::{RequestHandleCommand, RequestTracker, SentRequest, UnhandledMessage};
use fizyr_rpc::peer::{response_to_undelivered, track_outgoing_message, unexpected_request_text};
use fizyr_rpc::{Message, MessageHeader, MessageType, StreamBody};

#[derive(Debug)]
struct Body;

#[test]
fn test_incoming_request() {
	let mut tracker = RequestTracker::<Body>::new();

	// Simulate an incoming request and an update.
	let mut received_request = match tracker.process_incoming_message(Message::request(1, 2, Body)).ok().unwrap() {
		Some(UnhandledMessage::ReceivedRequest(message, incoming_rx)) => {
			assert!(message.header == MessageHeader::request(1, 2));
			incoming_rx.receiver
		},
		_ => panic!("expected a received request"),
	};
	assert!(matches!(tracker.process_incoming_message(Message::requester_update(1, 10, Body)), Ok(None)));

	// Receive the update.
	match received_request.try_recv() {
		Ok(RequestHandleCommand::Message(message)) => assert!(message.header == MessageHeader::requester_update(1, 10)),
		_ => panic!("expected the update"),
	}

	// Send the response: the handle sends a response message for the request, and the peer
	// loop tracks it on the way out, which closes the received request.
	let response = Message::response(1, 3, Body);
	assert!(response.header.request_id == 1);
	assert!(response.header.service_id == 3);
	track_outgoing_message(&mut tracker, &response.header);

	// The received request is now dropped, so lets check that new incoming message cause an error.
	drop(received_request);
	let error = tracker.process_incoming_message(Message::requester_update(1, 11, Body)).err().unwrap();
	assert_eq!(error.describe(), "unknown request ID: request ID 1 is not associated with an open request");
	assert!(tracker.remove_received_request(1).is_err());
}

#[test]
fn test_outgoing_request() {
	let mut tracker = RequestTracker::<Body>::new();

	// Simulate an outgoing request.
	let sent_request = tracker.allocate_sent_request(3).ok().unwrap();
	let request_id = sent_request.request_id;
	let mut incoming_rx = sent_request.receiver.receiver;
	assert_eq!(request_id, 0);
	assert_eq!(sent_request.service_id, 3);

	// Simulate and receive a responder update.
	assert!(matches!(tracker.process_incoming_message(Message::responder_update(request_id, 12, Body)), Ok(None)));
	match incoming_rx.try_recv() {
		Ok(RequestHandleCommand::Message(update)) => assert!(update.header == MessageHeader::responder_update(request_id, 12)),
		_ => panic!("expected the update"),
	}

	// Send an update: the handle sends a requester update for the request,
	// which leaves the sent request open.
	let update = Message::requester_update(request_id, 13, Body);
	assert!(update.header == MessageHeader::requester_update(request_id, 13));
	track_outgoing_message(&mut tracker, &update.header);

	// Simulate and receive a response.
	assert!(matches!(tracker.process_incoming_message(Message::response(request_id, 14, Body)), Ok(None)));
	match incoming_rx.try_recv() {
		Ok(RequestHandleCommand::Message(response)) => assert!(response.header == MessageHeader::response(request_id, 14)),
		_ => panic!("expected the response"),
	}

	// After receiving the response, the entry should be removed from the tracker.
	// So no more incoming messages for the request should be accepted.
	let error = tracker.process_incoming_message(Message::responder_update(request_id, 15, Body)).err().unwrap();
	assert_eq!(error.describe(), "unknown request ID: request ID 0 is not associated with an open request");
}

#[test]
fn tracker_allocates_consecutive_ids_and_reuses_after_wrap() {
	let mut tracker = RequestTracker::<Body>::new();
	let SentRequest { request_id: a, receiver: _rx_a, .. } = tracker.allocate_sent_request(0).ok().unwrap();
	let SentRequest { request_id: b, receiver: _rx_b, .. } = tracker.allocate_sent_request(0).ok().unwrap();
	assert_eq!((a, b), (0, 1));
	assert!(tracker.remove_sent_request(a).is_ok());
	assert!(tracker.remove_sent_request(a).is_err());
	let SentRequest { request_id: c, receiver: _rx_c, .. } = tracker.allocate_sent_request(0).ok().unwrap();
	assert_eq!(c, 2);
}

#[test]
fn tracker_rejects_duplicate_open_request() {
	let mut tracker = RequestTracker::<Body>::new();
	let rx = tracker.register_received_request(7).ok().unwrap();
	let error = tracker.register_received_request(7).err().unwrap();
	assert_eq!(error.describe(), "duplicate request ID: request ID 7 is already associated with an open request");
	let error = tracker.process_incoming_message(Message::request(7, 1, Body)).err().unwrap();
	assert_eq!(error.describe(), "duplicate request ID: request ID 7 is already associated with an open request");

	// Once the handle is gone, the ID can be used again.
	drop(rx);
	assert!(tracker.register_received_request(7).is_ok());
	assert!(tracker.remove_received_request(7).is_ok());
}

#[test]
fn tracker_unknown_response_and_stream() {
	let mut tracker = RequestTracker::<Body>::new();
	let error = tracker.process_incoming_message(Message::response(3, 0, Body)).err().unwrap();
	assert_eq!(error.describe(), "unknown request ID: request ID 3 is not associated with an open request");
	match tracker.process_incoming_message(Message::stream(0, 5, Body)) {
		Ok(Some(UnhandledMessage::Stream(message))) => assert!(message.header == MessageHeader::stream(0, 5)),
		_ => panic!("expected the stream message"),
	}
}

#[test]
fn tracker_gives_up_after_many_ids_in_use() {
	let mut tracker = RequestTracker::<Body>::new();
	let mut receivers = Vec::new();
	for expected in 0..100u32 {
		let SentRequest { request_id: id, receiver: rx, .. } = tracker.allocate_sent_request(0).ok().unwrap();
		assert_eq!(id, expected);
		receivers.push(rx);
	}
	// Wrap the next ID around by freeing nothing: the next 100 IDs from 100 on are free.
	let SentRequest { request_id: id, receiver: _rx, .. } = tracker.allocate_sent_request(0).ok().unwrap();
	assert_eq!(id, 100);
}

#[test]
fn undelivered_request_gets_error_response() {
	let mut tracker = RequestTracker::<StreamBody>::new();
	let request = tracker.process_incoming_message(Message::request(5, -3, StreamBody::from_vec(vec![1]))).ok().unwrap().unwrap();
	let response = response_to_undelivered(&request).unwrap();
	assert!(response.header == MessageHeader::error_response(5));
	assert!(response.header.message_type == MessageType::Response);
	assert_eq!(response.body.as_slice(), b"unexpected request for service -3");

	let stream = tracker.process_incoming_message(Message::stream(0, 9, StreamBody::from_vec(vec![2]))).ok().unwrap().unwrap();
	assert!(response_to_undelivered(&stream).is_none());
	assert_eq!(unexpected_request_text(42), "unexpected request for service 42");
}

#[test]
fn sending_a_response_closes_the_received_request() {
	let mut tracker = RequestTracker::<Body>::new();
	let _request = tracker.process_incoming_message(Message::request(3, 1, Body)).ok().unwrap();

	// An update leaves the request open.
	track_outgoing_message(&mut tracker, &MessageHeader::responder_update(3, 1));
	assert!(matches!(tracker.process_incoming_message(Message::requester_update(3, 2, Body)), Ok(None)));

	// The response closes it.
	track_outgoing_message(&mut tracker, &MessageHeader::response(3, 1));
	assert!(tracker.process_incoming_message(Message::requester_update(3, 2, Body)).is_err());
	assert!(tracker.remove_received_request(3).is_err());
}

#[test]
fn tracker_routes_messages_to_the_channel_of_their_request() {
	let mut tracker = RequestTracker::<Body>::new();
	let SentRequest { request_id: sent_id, receiver: sent_rx, .. } = tracker.allocate_sent_request(0).ok().unwrap();
	let received_rx = match tracker.process_incoming_message(Message::request(sent_id, 1, Body)).ok().unwrap() {
		Some(UnhandledMessage::ReceivedRequest(_, rx)) => rx,
		_ => panic!("expected a received request"),
	};
	// Channels are numbered in the order they are made.
	assert_eq!(sent_rx.channel, 0);
	assert_eq!(received_rx.channel, 1);
	let mut sent_rx = sent_rx.receiver;
	let mut received_rx = received_rx.receiver;

	// The same request ID on both sides: each message goes to the request it belongs to.
	assert!(matches!(tracker.process_incoming_message(Message::requester_update(sent_id, 20, Body)), Ok(None)));
	assert!(matches!(tracker.process_incoming_message(Message::responder_update(sent_id, 21, Body)), Ok(None)));
	match received_rx.try_recv() {
		Ok(RequestHandleCommand::Message(m)) => assert!(m.header == MessageHeader::requester_update(sent_id, 20)),
		_ => panic!("expected the requester update"),
	}
	match sent_rx.try_recv() {
		Ok(RequestHandleCommand::Message(m)) => assert!(m.header == MessageHeader::responder_update(sent_id, 21)),
		_ => panic!("expected the responder update"),
	}
	assert!(received_rx.try_recv().is_err());
	assert!(sent_rx.try_recv().is_err());
}

#[test]
fn sent_request_is_settled_after_writing() {

	let mut tracker = RequestTracker::<Body>::new();
	let SentRequest { request_id: a, receiver: _rx_a, .. } = tracker.allocate_sent_request(0).ok().unwrap();
	let SentRequest { request_id: b, receiver: _rx_b, .. } = tracker.allocate_sent_request(0).ok().unwrap();
	let SentRequest { request_id: c, receiver: _rx_c, .. } = tracker.allocate_sent_request(0).ok().unwrap();

	// Written and handed out: the request stays open.
	assert_eq!(settle_sent_request(&mut tracker, a, None, false), LoopFlow::Continue);
	assert!(tracker.remove_sent_request(a).is_ok());

	// The requester is gone: the request is removed.
	assert_eq!(settle_sent_request(&mut tracker, b, None, true), LoopFlow::Continue);
	assert!(tracker.remove_sent_request(b).is_err());

	// A fatal write error removes the request and stops the loop.
	let fatal = TransportError::new_fatal(Error::message_too_short(1));
	assert_eq!(settle_sent_request(&mut tracker, c, Some(&fatal), false), LoopFlow::Stop);
	assert!(tracker.remove_sent_request(c).is_err());

	assert_eq!(flow_after_answer(&Ok(())), LoopFlow::Continue);
	assert_eq!(flow_after_answer(&Err(fatal)), LoopFlow::Stop);
}
