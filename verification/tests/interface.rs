use fizyr_rpc::interface::{duplicate_service_ids, to_doc_string, to_upper_camel_case, UpdateKind};
use fizyr_rpc::peer::{flow_after_write_error, HandleCount, LoopFlow};
use fizyr_rpc::transport::TransportError;
use fizyr_rpc::Error;

#[test]
fn upper_camel_case_names() {
	assert_eq!(to_upper_camel_case("record"), "Record");
	assert_eq!(to_upper_camel_case("enable_tracing"), "EnableTracing");
	assert_eq!(to_upper_camel_case("hidden_service"), "HiddenService");
	assert_eq!(to_upper_camel_case("_leading__double_"), "LeadingDouble");
	assert_eq!(to_upper_camel_case("already_Upper9"), "AlreadyUpper9");
	assert_eq!(to_upper_camel_case(""), "");
	assert_ne!(UpdateKind::RequestUpdate, UpdateKind::ResponseUpdate);
}

#[test]
fn peer_stops_when_all_handles_are_gone() {
	let mut handles = HandleCount::new();
	assert!(!handles.should_stop());
	handles.register_write_handle();
	handles.unregister_write_handle();
	handles.unregister_write_handle();
	assert!(!handles.should_stop());
	handles.unregister_read_handle();
	assert!(handles.should_stop());
}

#[test]
fn peer_write_error_flow() {
	assert_eq!(flow_after_write_error(&TransportError::new_fatal(Error::message_too_short(1))), LoopFlow::Stop);
	assert_eq!(flow_after_write_error(&TransportError::new_non_fatal(Error::payload_too_large(2, 1))), LoopFlow::Continue);
}

#[test]
fn duplicate_update_service_ids() {
	assert_eq!(duplicate_service_ids(&vec![]), Vec::<usize>::new());
	assert_eq!(duplicate_service_ids(&vec![1, 2, 3]), Vec::<usize>::new());
	assert_eq!(duplicate_service_ids(&vec![1, 2, 1]), vec![2]);
	// Three equal IDs make three pairs: (0, 1), (0, 3) and (1, 3).
	assert_eq!(duplicate_service_ids(&vec![7, 7, -1, 7, -1]), vec![1, 3, 3, 4]);
}

#[test]
fn peer_counts_write_handles() {
	let mut handles = HandleCount::new();
	assert_eq!(handles.write_handles(), 1);
	handles.register_write_handle();
	handles.register_write_handle();
	assert_eq!(handles.write_handles(), 3);
	handles.unregister_write_handle();
	assert_eq!(handles.write_handles(), 2);
}

#[test]
fn doc_string_removes_common_indentation() {
	let lines = vec!["  Hello".to_string(), "".to_string(), "    indented".to_string(), "   ".to_string()];
	assert_eq!(to_doc_string(&lines), "Hello\n\n  indented\n\n");
	assert_eq!(to_doc_string(&vec!["".to_string(), " ".to_string()]), "\n\n");
	assert_eq!(to_doc_string(&vec![" h\u{e9}llo".to_string(), "  w\u{f6}rld".to_string()]), "h\u{e9}llo\n w\u{f6}rld\n");
	assert_eq!(to_doc_string(&vec![]), "");
}
