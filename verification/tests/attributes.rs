use fizyr_rpc::attributes::{classify_interface_attribute, classify_service_attribute, InterfaceAttributeKind, ServiceAttributeKind};
use fizyr_rpc::attributes::{
	collect_interface_attributes, collect_service_attributes, AttributeError, InterfaceAttribute, ServiceAttribute,
	SingleAttribute, UpdateAttribute,
};
use fizyr_rpc::interface::UpdateKind;

fn update(service_id: i32, body_type: &str) -> UpdateAttribute {
	UpdateAttribute { service_id, body_type: body_type.to_string() }
}

#[test]
fn service_attributes_are_collected_in_order() {
	let (attrs, errors) = collect_service_attributes(vec![
		ServiceAttribute::Doc(Ok("Start recording.".to_string())),
		ServiceAttribute::ServiceId(Ok(1)),
		ServiceAttribute::RequestUpdate(Ok(update(10, "CancelReason"))),
		ServiceAttribute::ResponseUpdate(Ok(update(11, "RecordState"))),
		ServiceAttribute::ResponseUpdate(Ok(update(12, "Image"))),
	]);
	assert!(errors.is_empty());
	assert_eq!(attrs.service_id, 1);
	assert_eq!(attrs.doc, vec!["Start recording.".to_string()]);
	assert_eq!(attrs.request_updates.len(), 1);
	assert_eq!(attrs.request_updates[0].body_type, "CancelReason");
	assert_eq!(attrs.response_updates.iter().map(|u| u.service_id).collect::<Vec<_>>(), vec![11, 12]);
}

#[test]
fn service_attribute_errors() {
	let (attrs, errors) = collect_service_attributes(vec![
		ServiceAttribute::ServiceId(Err("expected integer literal".to_string())),
		ServiceAttribute::ServiceId(Ok(4)),
		ServiceAttribute::ServiceId(Ok(5)),
		ServiceAttribute::RequestUpdate(Ok(update(1, "A"))),
		ServiceAttribute::RequestUpdate(Ok(update(1, "B"))),
		ServiceAttribute::ResponseUpdate(Ok(update(1, "C"))),
		ServiceAttribute::Unknown,
	]);
	// The first service ID that parses is kept; the repeated attribute is an error.
	assert_eq!(attrs.service_id, 4);
	assert_eq!(attrs.request_updates.len(), 1);
	assert_eq!(attrs.request_updates[0].body_type, "A");
	assert_eq!(attrs.response_updates.len(), 1);
	let texts: Vec<String> = errors.iter().map(|e| e.describe()).collect();
	assert_eq!(texts, vec![
		"expected integer literal",
		"duplicate `service_id' attribute",
		"duplicate service ID for request update",
		"unknown attribute",
	]);
	assert!(matches!(errors[0], AttributeError::Invalid { index: 0, .. }));
	assert!(matches!(errors[1], AttributeError::Duplicate { index: 2, attribute: SingleAttribute::ServiceId }));
	assert!(matches!(errors[2], AttributeError::DuplicateUpdateId { index: 4, kind: UpdateKind::RequestUpdate }));
	assert!(matches!(errors[3], AttributeError::Unknown { index: 6 }));
}

#[test]
fn service_without_service_id() {
	let (attrs, errors) = collect_service_attributes(vec![ServiceAttribute::Doc(Ok("Ping.".to_string()))]);
	assert_eq!(attrs.service_id, 0);
	assert_eq!(errors.len(), 1);
	assert_eq!(errors[0].describe(), "missing `#[service_id = i32]' attribute");

	let (_, errors) = collect_service_attributes(vec![ServiceAttribute::ServiceId(Err("bad".to_string()))]);
	assert_eq!(errors.iter().map(|e| e.describe()).collect::<Vec<_>>(), vec!["bad", "missing `#[service_id = i32]' attribute"]);
}

#[test]
fn interface_attributes() {
	let (attrs, errors) = collect_interface_attributes(vec![
		InterfaceAttribute::Doc(Ok("A camera.".to_string())),
		InterfaceAttribute::RequestEnum(Ok("CameraRequest".to_string())),
		InterfaceAttribute::ClientStruct(Ok("CameraClient".to_string())),
		InterfaceAttribute::ClientStruct(Ok("OtherClient".to_string())),
		InterfaceAttribute::ServerStruct(Err("expected identifier".to_string())),
		InterfaceAttribute::Unknown,
	]);
	assert_eq!(attrs.doc, vec!["A camera.".to_string()]);
	assert_eq!(attrs.request_enum.as_deref(), Some("CameraRequest"));
	assert_eq!(attrs.client_struct.as_deref(), Some("CameraClient"));
	assert_eq!(attrs.server_struct, None);
	let texts: Vec<String> = errors.iter().map(|e| e.describe()).collect();
	assert_eq!(texts, vec!["duplicate `client_struct' attribute", "expected identifier", "unknown attribute"]);
}

#[test]
fn attribute_paths_are_classified() {
	assert_eq!(classify_service_attribute("service_id"), ServiceAttributeKind::ServiceId);
	assert_eq!(classify_service_attribute("doc"), ServiceAttributeKind::Doc);
	assert_eq!(classify_service_attribute("request_update"), ServiceAttributeKind::RequestUpdate);
	assert_eq!(classify_service_attribute("response_update"), ServiceAttributeKind::ResponseUpdate);
	assert_eq!(classify_service_attribute("request_enum"), ServiceAttributeKind::Unknown);
	assert_eq!(classify_service_attribute("service_i"), ServiceAttributeKind::Unknown);
	assert_eq!(classify_interface_attribute("doc"), InterfaceAttributeKind::Doc);
	assert_eq!(classify_interface_attribute("request_enum"), InterfaceAttributeKind::RequestEnum);
	assert_eq!(classify_interface_attribute("client_struct"), InterfaceAttributeKind::ClientStruct);
	assert_eq!(classify_interface_attribute("server_struct"), InterfaceAttributeKind::ServerStruct);
	assert_eq!(classify_interface_attribute("service_id"), InterfaceAttributeKind::Unknown);
}
