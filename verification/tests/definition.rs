use fizyr_rpc::codegen::generate_interface;
use fizyr_rpc::definition::{interface_from_raw, DefinitionError, RawAttribute, RawInterface, RawItem, RawMessage, RawService, RawUpdate};
use fizyr_rpc::interface::UpdateKind;

fn attr(path: &str) -> RawAttribute {
	RawAttribute { path: path.to_string(), doc: Err("not a doc comment".to_string()) }
}

fn doc(text: &str) -> RawAttribute {
	RawAttribute { path: "doc".to_string(), doc: Ok(text.to_string()) }
}

fn raw_message(attrs: Vec<RawAttribute>, name: &str, service_id: Result<i32, String>, body_type: &str) -> RawMessage {
	RawMessage { attrs, name: name.to_string(), service_id, body_type: body_type.to_string(), body_is_unit: body_type == "()" }
}

fn update(kind: UpdateKind, name: &str, service_id: i32, body_type: &str) -> RawUpdate {
	RawUpdate { kind, message: raw_message(Vec::new(), name, Ok(service_id), body_type) }
}

#[test]
fn camera_interface_from_raw() {
	let raw = RawInterface {
		attrs: vec![doc(" A camera.")],
		name: "Camera".to_string(),
		visibility: "pub".to_string(),
		items: vec![
			RawItem::Service(RawService {
				attrs: Vec::new(),
				name: "ping".to_string(),
				service_id: Ok(0),
				request_type: "()".to_string(),
				request_is_unit: true,
				response_type: "()".to_string(),
				updates: Vec::new(),
			}),
			RawItem::Service(RawService {
				attrs: vec![doc(" Record.")],
				name: "record".to_string(),
				service_id: Ok(1),
				request_type: "RecordRequest".to_string(),
				request_is_unit: false,
				response_type: "()".to_string(),
				updates: vec![
					update(UpdateKind::RequestUpdate, "cancel", 10, "CancelReason"),
					RawUpdate { kind: UpdateKind::RequestUpdate, message: raw_message(vec![attr("hidden")], "disconnect", Ok(101), "()") },
					update(UpdateKind::ResponseUpdate, "state", 11, "RecordState"),
				],
			}),
			RawItem::Stream(raw_message(vec![attr("hidden")], "hidden_stream", Ok(3), "()")),
		],
	};
	let (model, errors) = interface_from_raw(raw);
	assert!(errors.is_empty());
	assert_eq!(model.doc, vec![" A camera.".to_string()]);
	assert_eq!(model.services.len(), 2);
	assert_eq!(model.services[1].request_updates.len(), 2);
	assert!(model.services[1].request_updates[1].hidden);
	assert!(model.services[1].request_updates[1].body_is_unit);
	assert_eq!(model.services[1].response_updates[0].name, "state");
	assert_eq!(model.streams.len(), 1);
	assert!(model.streams[0].hidden);

	let code = generate_interface("fizyr_rpc", &model);
	assert!(code.contains("pub async fn send_disconnect_update(&self, ) -> ::core::result::Result<(), fizyr_rpc::Error>"));
	assert!(code.contains("pub async fn send_hidden_stream(&self, )"));

	// Hidden updates and streams are left out of the description of the interface.
	assert!(code.contains("name: \"cancel\".to_string()"));
	assert!(!code.contains("name: \"disconnect\".to_string()"));
	assert!(!code.contains("name: \"hidden_stream\".to_string()"));
	assert!(!code.contains("hidden: true"));
}

#[test]
fn hidden_services_are_not_described() {
	let service = |attrs: Vec<RawAttribute>, name: &str, service_id: i32| RawItem::Service(RawService {
		attrs,
		name: name.to_string(),
		service_id: Ok(service_id),
		request_type: "()".to_string(),
		request_is_unit: true,
		response_type: "()".to_string(),
		updates: Vec::new(),
	});
	let raw = RawInterface {
		attrs: Vec::new(),
		name: "Camera".to_string(),
		visibility: "pub".to_string(),
		items: vec![service(Vec::new(), "ping", 0), service(Vec::new(), "record", 1), service(vec![attr("hidden")], "hidden_service", 2)],
	};
	let (model, errors) = interface_from_raw(raw);
	assert!(errors.is_empty());
	let code = generate_interface("fizyr_rpc", &model);
	let ping_at = code.find("name: \"ping\".to_string()").unwrap();
	let record_at = code.find("name: \"record\".to_string()").unwrap();
	assert!(ping_at < record_at);
	assert!(!code.contains("name: \"hidden_service\".to_string()"));
	assert!(code.contains("::std::vec::Vec::with_capacity(2);"));
	// The hidden service can still be called.
	assert!(code.contains("pub async fn hidden_service(&self, )"));
}

#[test]
fn definition_errors() {
	let raw = RawInterface {
		attrs: vec![attr("derive")],
		name: "Broken".to_string(),
		visibility: "pub".to_string(),
		items: vec![RawItem::Service(RawService {
			attrs: vec![RawAttribute { path: "doc".to_string(), doc: Err("expected string literal".to_string()) }],
			name: "record".to_string(),
			service_id: Err("number too large to fit in target type".to_string()),
			request_type: "()".to_string(),
			request_is_unit: true,
			response_type: "()".to_string(),
			updates: vec![
				update(UpdateKind::RequestUpdate, "a", 5, "()"),
				update(UpdateKind::RequestUpdate, "b", 5, "()"),
				update(UpdateKind::ResponseUpdate, "c", 5, "()"),
				update(UpdateKind::RequestUpdate, "d", 5, "()"),
			],
		})],
	};
	let (model, errors) = interface_from_raw(raw);
	assert_eq!(model.services[0].service_id, 0);
	assert_eq!(model.services[0].request_updates.len(), 3);
	assert_eq!(errors.len(), 6);
	assert!(matches!(errors[0], DefinitionError::UnknownAttribute));
	assert!(matches!(&errors[1], DefinitionError::InvalidAttribute(m) if m == "expected string literal"));
	// Three request updates with ID 5 make three pairs.
	for e in &errors[2..5] {
		assert!(matches!(e, DefinitionError::DuplicateServiceId { kind: UpdateKind::RequestUpdate, service_id: 5 }));
	}
	assert!(matches!(&errors[5], DefinitionError::InvalidServiceId(m) if m == "number too large to fit in target type"));
}
