use fizyr_rpc::codegen::{
	escape, generate_client, generate_interface, generate_message_enum, generate_received_request, generate_sent_request,
	generate_server, generate_service, generate_services, generate_interface_struct, generate_streams, InterfaceModel,
	MessageModel, ServiceModel,
};

fn message(name: &str, service_id: i32, body_type: &str) -> MessageModel {
	MessageModel {
		name: name.to_string(),
		service_id,
		body_type: body_type.to_string(),
		doc: Vec::new(),
		body_is_unit: body_type == "()",
		hidden: false,
	}
}

fn record_service() -> ServiceModel {
	ServiceModel {
		name: "record".to_string(),
		doc: vec![" Start recording.".to_string()],
		service_id: 1,
		request_type: "RecordRequest".to_string(),
		request_is_unit: false,
		response_type: "()".to_string(),
		request_updates: vec![message("cancel", 10, "CancelReason")],
		response_updates: vec![message("state", 11, "RecordState"), message("image", 12, "Image")],
		hidden: false,
	}
}

fn ping_service() -> ServiceModel {
	ServiceModel {
		name: "ping".to_string(),
		doc: Vec::new(),
		service_id: 0,
		request_type: "()".to_string(),
		request_is_unit: true,
		response_type: "()".to_string(),
		request_updates: Vec::new(),
		response_updates: Vec::new(),
		hidden: false,
	}
}

#[test]
fn escape_quotes_and_backslashes() {
	assert_eq!(escape("a \"b\" \\c"), "a \\\"b\\\" \\\\c");
	assert_eq!(escape(""), "");
}

#[test]
fn message_enum_code() {
	let code = generate_message_enum("fizyr_rpc", &vec![message("record_state", -3, "RecordState")], "StreamMessage", "Streams of \"Camera\"");
	assert!(code.starts_with("#[doc = \"Streams of \\\"Camera\\\"\"]\n#[derive(Debug)]\npub enum StreamMessage {\nRecordState(RecordState),\n}"));
	assert!(code.contains("-3 => ::core::result::Result::Ok(Self::RecordState(F::decode_body(message.body).map_err(fizyr_rpc::Error::decode_failed)?)),\n"));
	assert!(code.contains("Self::RecordState(_) => -3,\n"));
	assert!(code.contains("pub fn is_record_state(&self) -> bool {"));
	assert!(code.contains("pub fn into_record_state(self) -> ::core::result::Result<RecordState, fizyr_rpc::Error> {"));
	assert!(code.contains("F: fizyr_rpc::format::DecodeBody<RecordState>,\n"));
	assert!(code.contains("F: fizyr_rpc::format::EncodeBody<RecordState>,\n"));
}

#[test]
fn client_code() {
	let code = generate_client("fizyr_rpc", "Camera", "pub", "EXTRA\n");
	assert!(code.starts_with("#[doc = \"RPC client for the Camera interface.\"]\npub struct Client<F: fizyr_rpc::util::format::Format> {"));
	assert!(code.ends_with("EXTRA\n\n}\n"));
}

#[test]
fn service_code() {
	let (items, client) = generate_service("fizyr_rpc", &ping_service(), "pub");
	assert!(client.starts_with("#[allow(clippy::ptr_arg)]\npub async fn ping(&self, ) -> ::core::result::Result<(), fizyr_rpc::Error>"));
	assert!(client.contains("let request_body = F::encode_body(&()).map_err(fizyr_rpc::Error::encode_failed)?;"));
	assert!(items.starts_with("#[doc = \"Support types for the `ping` service.\"]\npub mod ping {"));
	assert!(!items.contains("SentRequestHandle<F: "));
	assert!(items.contains("pub struct ReceivedRequestHandle<F: fizyr_rpc::util::format::Format>"));

	let (items, client) = generate_service("fizyr_rpc", &record_service(), "pub(crate)");
	assert!(client.starts_with("#[doc = \" Start recording.\"]\n#[allow(clippy::ptr_arg)]\npub async fn record(&self, request: &RecordRequest) -> ::core::result::Result<record::SentRequestHandle<F>, fizyr_rpc::Error>"));
	assert!(items.starts_with("#[doc = \"Support types for the `record` service.\"]\npub(crate) mod record {"));
	assert!(items.contains("pub enum RequestUpdate {\nCancel(CancelReason),\n}"));
	assert!(items.contains("pub enum ResponseUpdate {\nState(RecordState),\nImage(Image),\n}"));
	assert!(items.contains("pub async fn send_cancel_update(&self, update: &CancelReason)"));
	assert!(items.contains("pub async fn send_state_update(&self, update: &RecordState)"));
	assert!(items.contains("11 => {\n\tmatch F::decode_body(update.body) {\n\t\t::core::result::Result::Ok(body) => {\n\t\t\t::core::result::Result::Ok(ResponseUpdate::State(body))"));
}

#[test]
fn request_handles_code() {
	let sent = generate_sent_request("fizyr_rpc", &record_service());
	assert!(sent.contains("#[doc = \"Read/write handle for a sent request for the `record` service.\"]"));
	assert!(sent.contains("/// You can still receive the update message by calling [`Self::recv_update`]."));
	let received = generate_received_request("fizyr_rpc", &record_service());
	assert!(received.contains("#[doc = \"Handle for a received `record` request.\"]"));
	assert!(received.contains("let response = self.request.send_response(1, encoded).await?;"));
}

#[test]
fn services_server_and_interface_code() {
	let services = vec![ping_service(), record_service()];
	let (items, client) = generate_services("fizyr_rpc", &services, "pub");
	assert!(items.find("pub mod ping").unwrap() < items.find("pub mod record").unwrap());
	assert!(client.find("pub async fn ping").unwrap() < client.find("pub async fn record").unwrap());

	let streams = vec![message("record_state", 3, "RecordState")];
	let server = generate_server("fizyr_rpc", "Camera", "pub", &services, &streams);
	assert!(server.starts_with("#[doc = \"RPC server for the Camera interface.\"]\npub struct Server<F: fizyr_rpc::format::Format> {"));
	assert!(server.contains("Self::Record(request, _body) => ::core::write!(f, \"{}({:?})\", \"Record\", request),\n"));
	assert!(server.contains("StreamMessage: fizyr_rpc::format::FromMessage<F>,\n"));
	assert!(server.contains("pub enum ReceivedMessage<F>\nwhere\nF: fizyr_rpc::format::Format,\n{\n/// A stream message.\nStream(StreamMessage),\n/// A request message.\nRequest(ReceivedRequestHandle<F>),\n}"));

	let (stream_items, stream_client) = generate_streams("fizyr_rpc", "Camera", &streams);
	assert!(stream_items.contains("pub enum StreamMessage {\nRecordState(RecordState),\n}"));
	assert!(stream_client.contains("pub async fn send_record_state(&self, body: &RecordState)"));

	let description = generate_interface_struct("fizyr_rpc", "Camera", &vec!["  A camera.".to_string()], false, "pub", &services, &streams);
	// The documentation keeps its newlines inside the string literal.
	assert!(description.contains("pub const fn doc() -> &'static str {\n\t\t\"A camera.\n\"\n\t}"));
	assert!(description.contains("let mut vector = ::std::vec::Vec::with_capacity(2);"));

	let interface = InterfaceModel {
		name: "Camera".to_string(),
		doc: Vec::new(),
		hidden: false,
		visibility: "pub".to_string(),
		services,
		streams,
	};
	let code = generate_interface("fizyr_rpc", &interface);
	let struct_at = code.find("pub struct Interface").unwrap();
	let client_at = code.find("pub struct Client").unwrap();
	let server_at = code.find("pub struct Server").unwrap();
	assert!(struct_at < client_at && client_at < server_at);
	assert!(code.contains("pub async fn send_record_state(&self, body: &RecordState)"));
}
