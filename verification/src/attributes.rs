//! The attributes of an interface definition and of its services.
//!
//! The contents of each attribute are parsed from the interface definition first; which attributes
//! are known, which may appear only once, how update service IDs may repeat and which
//! errors all of this gives is decided here.

use vstd::prelude::*;
use crate::interface::UpdateKind;

verus! {

/// An update message declared by an attribute of a service: its service ID and body type.
#[derive(Debug)]
pub struct UpdateAttribute {
    /// The service ID of the update message.
    pub service_id: i32,

    /// The body type of the update message, as written.
    pub body_type: String,
}

/// An attribute of a service, with its parsed contents or the message of the parse error.
#[derive(Debug)]
pub enum ServiceAttribute {
    /// `#[service_id = ...]`: the service ID of the service.
    ServiceId(Result<i32, String>),

    /// A line of documentation.
    Doc(Result<String, String>),

    /// `#[request_update(service_id, BodyType)]`: an update that the requester may send.
    RequestUpdate(Result<UpdateAttribute, String>),

    /// `#[response_update(service_id, BodyType)]`: an update that the responder may send.
    ResponseUpdate(Result<UpdateAttribute, String>),

    /// Any other attribute.
    Unknown,
}

/// An attribute of an interface, with its parsed contents or the message of the parse error.
#[derive(Debug)]
pub enum InterfaceAttribute {
    /// A line of documentation.
    Doc(Result<String, String>),

    /// `#[request_enum = Name]`: the name of the enum of received requests.
    RequestEnum(Result<String, String>),

    /// `#[client_struct = Name]`: the name of the client struct.
    ClientStruct(Result<String, String>),

    /// `#[server_struct = Name]`: the name of the server struct.
    ServerStruct(Result<String, String>),

    /// Any other attribute.
    Unknown,
}

/// The attributes that may appear only once.
#[derive(Debug, Clone, Copy, PartialEq, Eq, Structural)]
pub enum SingleAttribute {
    /// `service_id`.
    ServiceId,

    /// `request_enum`.
    RequestEnum,

    /// `client_struct`.
    ClientStruct,

    /// `server_struct`.
    ServerStruct,
}

/// What the path of an attribute of a service names.
#[derive(Debug, Clone, Copy, PartialEq, Eq, Structural)]
pub enum ServiceAttributeKind {
    /// `service_id`.
    ServiceId,

    /// `doc`.
    Doc,

    /// `request_update`.
    RequestUpdate,

    /// `response_update`.
    ResponseUpdate,

    /// Any other path.
    Unknown,
}

/// What the path of an attribute of an interface names.
#[derive(Debug, Clone, Copy, PartialEq, Eq, Structural)]
pub enum InterfaceAttributeKind {
    /// `doc`.
    Doc,

    /// `request_enum`.
    RequestEnum,

    /// `client_struct`.
    ClientStruct,

    /// `server_struct`.
    ServerStruct,

    /// Any other path.
    Unknown,
}

/// The kind of a service attribute with the given path.
pub open spec fn spec_service_attribute_kind(path: Seq<char>) -> ServiceAttributeKind {
    if path == "service_id"@ {
        ServiceAttributeKind::ServiceId
    } else if path == "doc"@ {
        ServiceAttributeKind::Doc
    } else if path == "request_update"@ {
        ServiceAttributeKind::RequestUpdate
    } else if path == "response_update"@ {
        ServiceAttributeKind::ResponseUpdate
    } else {
        ServiceAttributeKind::Unknown
    }
}

/// The kind of an interface attribute with the given path.
pub open spec fn spec_interface_attribute_kind(path: Seq<char>) -> InterfaceAttributeKind {
    if path == "doc"@ {
        InterfaceAttributeKind::Doc
    } else if path == "request_enum"@ {
        InterfaceAttributeKind::RequestEnum
    } else if path == "client_struct"@ {
        InterfaceAttributeKind::ClientStruct
    } else if path == "server_struct"@ {
        InterfaceAttributeKind::ServerStruct
    } else {
        InterfaceAttributeKind::Unknown
    }
}

/// Compare two strings character by character.
pub(crate) fn str_equals(a: &str, b: &str) -> (r: bool)
    ensures
        r == (a@ == b@),
{
    let n = a.unicode_len();
    if n != b.unicode_len() {
        return false;
    }
    let mut i: usize = 0;
    while i < n
        invariant
            n == a@.len(),
            n == b@.len(),
            i <= n,
            forall|j: int| 0 <= j < i ==> a@[j] == b@[j],
        decreases n - i,
    {
        if a.get_char(i) != b.get_char(i) {
            return false;
        }
        i += 1;
    }
    assert(a@ =~= b@);
    true
}

/// Tell which attribute of a service an attribute path names.
///
/// The path is the single identifier of the attribute, as written.
pub fn classify_service_attribute(path: &str) -> (r: ServiceAttributeKind)
    ensures
        r == spec_service_attribute_kind(path@),
{
    if str_equals(path, "service_id") {
        ServiceAttributeKind::ServiceId
    } else if str_equals(path, "doc") {
        ServiceAttributeKind::Doc
    } else if str_equals(path, "request_update") {
        ServiceAttributeKind::RequestUpdate
    } else if str_equals(path, "response_update") {
        ServiceAttributeKind::ResponseUpdate
    } else {
        ServiceAttributeKind::Unknown
    }
}

/// Tell which attribute of an interface an attribute path names.
///
/// The path is the single identifier of the attribute, as written.
pub fn classify_interface_attribute(path: &str) -> (r: InterfaceAttributeKind)
    ensures
        r == spec_interface_attribute_kind(path@),
{
    if str_equals(path, "doc") {
        InterfaceAttributeKind::Doc
    } else if str_equals(path, "request_enum") {
        InterfaceAttributeKind::RequestEnum
    } else if str_equals(path, "client_struct") {
        InterfaceAttributeKind::ClientStruct
    } else if str_equals(path, "server_struct") {
        InterfaceAttributeKind::ServerStruct
    } else {
        InterfaceAttributeKind::Unknown
    }
}

/// An error in the attributes of an interface or a service.
///
/// `index` is the position of the attribute that caused the error.
#[derive(Debug)]
pub enum AttributeError {
    /// The contents of the attribute could not be parsed.
    Invalid { index: usize, message: String },

    /// The attribute may appear only once, and appeared before.
    Duplicate { index: usize, attribute: SingleAttribute },

    /// The update has the same service ID as an earlier update of the same kind.
    DuplicateUpdateId { index: usize, kind: UpdateKind },

    /// The attribute is not known.
    Unknown { index: usize },

    /// The service has no `service_id` attribute.
    MissingServiceId,
}

impl SingleAttribute {
    /// The name of the attribute, as written.
    pub open spec fn spec_name(self) -> Seq<char> {
        match self {
            SingleAttribute::ServiceId => "service_id"@,
            SingleAttribute::RequestEnum => "request_enum"@,
            SingleAttribute::ClientStruct => "client_struct"@,
            SingleAttribute::ServerStruct => "server_struct"@,
        }
    }
}

impl AttributeError {
    /// The text of this error.
    pub open spec fn spec_describe(&self) -> Seq<char> {
        match self {
            AttributeError::Invalid { message, .. } => message@,
            AttributeError::Duplicate { attribute, .. } => "duplicate `"@ + attribute.spec_name() + "' attribute"@,
            AttributeError::DuplicateUpdateId { kind: UpdateKind::RequestUpdate, .. } => "duplicate service ID for request update"@,
            AttributeError::DuplicateUpdateId { kind: UpdateKind::ResponseUpdate, .. } => "duplicate service ID for response update"@,
            AttributeError::Unknown { .. } => "unknown attribute"@,
            AttributeError::MissingServiceId => "missing `#[service_id = i32]' attribute"@,
        }
    }

    /// Describe this error in words.
    pub fn describe(&self) -> (r: String)
        ensures
            r@ == self.spec_describe(),
    {
        match self {
            AttributeError::Invalid { message, .. } => message.clone(),
            AttributeError::Duplicate { attribute, .. } => {
                let mut text = String::from_str("duplicate `");
                match attribute {
                    SingleAttribute::ServiceId => text.append("service_id"),
                    SingleAttribute::RequestEnum => text.append("request_enum"),
                    SingleAttribute::ClientStruct => text.append("client_struct"),
                    SingleAttribute::ServerStruct => text.append("server_struct"),
                }
                text.append("' attribute");
                text
            },
            AttributeError::DuplicateUpdateId { kind: UpdateKind::RequestUpdate, .. } => String::from_str("duplicate service ID for request update"),
            AttributeError::DuplicateUpdateId { kind: UpdateKind::ResponseUpdate, .. } => String::from_str("duplicate service ID for response update"),
            AttributeError::Unknown { .. } => String::from_str("unknown attribute"),
            AttributeError::MissingServiceId => String::from_str("missing `#[service_id = i32]' attribute"),
        }
    }
}

/// The attributes of a service, once all of them were collected.
#[derive(Debug)]
pub struct ServiceAttributes {
    /// The service ID; zero when it is missing or could not be parsed.
    pub service_id: i32,

    /// The lines of documentation.
    pub doc: Vec<String>,

    /// The updates that the requester may send.
    pub request_updates: Vec<UpdateAttribute>,

    /// The updates that the responder may send.
    pub response_updates: Vec<UpdateAttribute>,
}

/// The attributes of an interface, once all of them were collected.
#[derive(Debug)]
pub struct InterfaceAttributes {
    /// The lines of documentation.
    pub doc: Vec<String>,

    /// The name of the enum of received requests, if given.
    pub request_enum: Option<String>,

    /// The name of the client struct, if given.
    pub client_struct: Option<String>,

    /// The name of the server struct, if given.
    pub server_struct: Option<String>,
}

/// What the attributes of a service seen so far amount to.
pub struct ServiceState {
    /// The first service ID that was parsed.
    pub service_id: Option<i32>,

    /// The lines of documentation.
    pub doc: Seq<String>,

    /// The updates that the requester may send.
    pub request_updates: Seq<UpdateAttribute>,

    /// The updates that the responder may send.
    pub response_updates: Seq<UpdateAttribute>,

    /// The errors so far.
    pub errors: Seq<AttributeError>,
}

/// What the attributes of an interface seen so far amount to.
pub struct InterfaceState {
    /// The lines of documentation.
    pub doc: Seq<String>,

    /// The name of the enum of received requests.
    pub request_enum: Option<String>,

    /// The name of the client struct.
    pub client_struct: Option<String>,

    /// The name of the server struct.
    pub server_struct: Option<String>,

    /// The errors so far.
    pub errors: Seq<AttributeError>,
}

/// Some update in `updates` has service ID `id`.
pub open spec fn spec_has_update_id(updates: Seq<UpdateAttribute>, id: i32) -> bool {
    exists|k: int| 0 <= k < updates.len() && #[trigger] updates[k].service_id == id
}

/// Take in the service attribute at position `index`.
///
/// A repeated `service_id` is an error, but its contents are still checked;
/// the first service ID that parses is kept. An update with the service ID of an
/// earlier update of the same kind is an error and is dropped.
pub open spec fn spec_service_step(s: ServiceState, index: int, attr: ServiceAttribute) -> ServiceState {
    match attr {
        ServiceAttribute::ServiceId(parsed) => {
            let errors = if s.service_id is Some {
                s.errors.push(AttributeError::Duplicate { index: index as usize, attribute: SingleAttribute::ServiceId })
            } else {
                s.errors
            };
            match parsed {
                Err(message) => ServiceState {
                    errors: errors.push(AttributeError::Invalid { index: index as usize, message }),
                    ..s
                },
                Ok(id) => ServiceState {
                    service_id: if s.service_id is Some { s.service_id } else { Some(id) },
                    errors,
                    ..s
                },
            }
        },
        ServiceAttribute::Doc(Err(message)) => ServiceState {
            errors: s.errors.push(AttributeError::Invalid { index: index as usize, message }),
            ..s
        },
        ServiceAttribute::Doc(Ok(line)) => ServiceState { doc: s.doc.push(line), ..s },
        ServiceAttribute::RequestUpdate(Err(message)) => ServiceState {
            errors: s.errors.push(AttributeError::Invalid { index: index as usize, message }),
            ..s
        },
        ServiceAttribute::RequestUpdate(Ok(update)) => if spec_has_update_id(s.request_updates, update.service_id) {
            ServiceState {
                errors: s.errors.push(AttributeError::DuplicateUpdateId { index: index as usize, kind: UpdateKind::RequestUpdate }),
                ..s
            }
        } else {
            ServiceState { request_updates: s.request_updates.push(update), ..s }
        },
        ServiceAttribute::ResponseUpdate(Err(message)) => ServiceState {
            errors: s.errors.push(AttributeError::Invalid { index: index as usize, message }),
            ..s
        },
        ServiceAttribute::ResponseUpdate(Ok(update)) => if spec_has_update_id(s.response_updates, update.service_id) {
            ServiceState {
                errors: s.errors.push(AttributeError::DuplicateUpdateId { index: index as usize, kind: UpdateKind::ResponseUpdate }),
                ..s
            }
        } else {
            ServiceState { response_updates: s.response_updates.push(update), ..s }
        },
        ServiceAttribute::Unknown => ServiceState {
            errors: s.errors.push(AttributeError::Unknown { index: index as usize }),
            ..s
        },
    }
}

/// What the first `n` attributes of a service amount to, taken in order.
pub open spec fn spec_service_state(attrs: Seq<ServiceAttribute>, n: nat) -> ServiceState
    decreases n,
{
    if n == 0 {
        ServiceState {
            service_id: None,
            doc: Seq::empty(),
            request_updates: Seq::empty(),
            response_updates: Seq::empty(),
            errors: Seq::empty(),
        }
    } else {
        spec_service_step(spec_service_state(attrs, (n - 1) as nat), n - 1, attrs[n - 1])
    }
}

/// Take in the interface attribute at position `index`.
///
/// A repeated name attribute is an error and is dropped; the first one is kept.
pub open spec fn spec_interface_step(s: InterfaceState, index: int, attr: InterfaceAttribute) -> InterfaceState {
    match attr {
        InterfaceAttribute::Doc(Err(message)) | InterfaceAttribute::RequestEnum(Err(message))
        | InterfaceAttribute::ClientStruct(Err(message)) | InterfaceAttribute::ServerStruct(Err(message)) => InterfaceState {
            errors: s.errors.push(AttributeError::Invalid { index: index as usize, message }),
            ..s
        },
        InterfaceAttribute::Doc(Ok(line)) => InterfaceState { doc: s.doc.push(line), ..s },
        InterfaceAttribute::RequestEnum(Ok(name)) => if s.request_enum is Some {
            InterfaceState {
                errors: s.errors.push(AttributeError::Duplicate { index: index as usize, attribute: SingleAttribute::RequestEnum }),
                ..s
            }
        } else {
            InterfaceState { request_enum: Some(name), ..s }
        },
        InterfaceAttribute::ClientStruct(Ok(name)) => if s.client_struct is Some {
            InterfaceState {
                errors: s.errors.push(AttributeError::Duplicate { index: index as usize, attribute: SingleAttribute::ClientStruct }),
                ..s
            }
        } else {
            InterfaceState { client_struct: Some(name), ..s }
        },
        InterfaceAttribute::ServerStruct(Ok(name)) => if s.server_struct is Some {
            InterfaceState {
                errors: s.errors.push(AttributeError::Duplicate { index: index as usize, attribute: SingleAttribute::ServerStruct }),
                ..s
            }
        } else {
            InterfaceState { server_struct: Some(name), ..s }
        },
        InterfaceAttribute::Unknown => InterfaceState {
            errors: s.errors.push(AttributeError::Unknown { index: index as usize }),
            ..s
        },
    }
}

/// What the first `n` attributes of an interface amount to, taken in order.
pub open spec fn spec_interface_state(attrs: Seq<InterfaceAttribute>, n: nat) -> InterfaceState
    decreases n,
{
    if n == 0 {
        InterfaceState {
            doc: Seq::empty(),
            request_enum: None,
            client_struct: None,
            server_struct: None,
            errors: Seq::empty(),
        }
    } else {
        spec_interface_step(spec_interface_state(attrs, (n - 1) as nat), n - 1, attrs[n - 1])
    }
}

/// No two updates in `updates` share a service ID.
pub open spec fn spec_distinct_update_ids(updates: Seq<UpdateAttribute>) -> bool {
    forall|i: int, j: int| 0 <= i < j < updates.len() ==> updates[i].service_id != updates[j].service_id
}

/// The collected updates of a service never share a service ID within one kind,
/// whatever the attributes were.
pub proof fn lemma_collected_update_ids_are_distinct(attrs: Seq<ServiceAttribute>, n: nat)
    ensures
        spec_distinct_update_ids(spec_service_state(attrs, n).request_updates),
        spec_distinct_update_ids(spec_service_state(attrs, n).response_updates),
    decreases n,
{
    if n > 0 {
        lemma_collected_update_ids_are_distinct(attrs, (n - 1) as nat);
        let prev = spec_service_state(attrs, (n - 1) as nat);
        match attrs[n - 1] {
            ServiceAttribute::RequestUpdate(Ok(update)) => {
                if !spec_has_update_id(prev.request_updates, update.service_id) {
                    let next = prev.request_updates.push(update);
                    assert forall|i: int, j: int| 0 <= i < j < next.len() implies next[i].service_id != next[j].service_id by {
                        if j == next.len() - 1 {
                            assert(prev.request_updates[i].service_id == next[i].service_id);
                        }
                    }
                }
            },
            ServiceAttribute::ResponseUpdate(Ok(update)) => {
                if !spec_has_update_id(prev.response_updates, update.service_id) {
                    let next = prev.response_updates.push(update);
                    assert forall|i: int, j: int| 0 <= i < j < next.len() implies next[i].service_id != next[j].service_id by {
                        if j == next.len() - 1 {
                            assert(prev.response_updates[i].service_id == next[i].service_id);
                        }
                    }
                }
            },
            _ => {},
        }
    }
}

/// The service ID that is kept is the first one that was parsed: once known, it never changes.
pub proof fn lemma_first_service_id_is_kept(attrs: Seq<ServiceAttribute>, m: nat, n: nat)
    requires
        m <= n,
        spec_service_state(attrs, m).service_id is Some,
    ensures
        spec_service_state(attrs, n).service_id == spec_service_state(attrs, m).service_id,
    decreases n - m,
{
    if m < n {
        lemma_first_service_id_is_kept(attrs, m, (n - 1) as nat);
    }
}

/// Check whether some update in `updates` has service ID `id`.
fn has_update_id(updates: &Vec<UpdateAttribute>, id: i32) -> (r: bool)
    ensures
        r == spec_has_update_id(updates@, id),
{
    let mut k: usize = 0;
    while k < updates.len()
        invariant
            k <= updates@.len(),
            forall|j: int| 0 <= j < k ==> #[trigger] updates@[j].service_id != id,
        decreases updates@.len() - k,
    {
        if updates[k].service_id == id {
            return true;
        }
        k += 1;
    }
    false
}

/// Collect the attributes of a service, in order.
///
/// Returns the collected attributes and every error that they gave, in the order of the
/// attributes; a missing service ID is reported last and makes the service ID zero.
pub fn collect_service_attributes(attrs: Vec<ServiceAttribute>) -> (r: (ServiceAttributes, Vec<AttributeError>))
    ensures
        ({
            let s = spec_service_state(attrs@, attrs@.len());
            &&& r.0.service_id == (match s.service_id { Some(id) => id, None => 0i32 })
            &&& r.0.doc@ == s.doc
            &&& r.0.request_updates@ == s.request_updates
            &&& r.0.response_updates@ == s.response_updates
            &&& r.1@ == if s.service_id is Some { s.errors } else { s.errors.push(AttributeError::MissingServiceId) }
        }),
{
    let ghost all = attrs@;
    let n = attrs.len();
    let mut rest = attrs;
    let mut service_id: Option<i32> = None;
    let mut doc: Vec<String> = Vec::new();
    let mut request_updates: Vec<UpdateAttribute> = Vec::new();
    let mut response_updates: Vec<UpdateAttribute> = Vec::new();
    let mut errors: Vec<AttributeError> = Vec::new();
    let mut index: usize = 0;
    assert(all.skip(0) =~= all);
    while index < n
        invariant
            n == all.len(),
            index <= n,
            rest@ == all.skip(index as int),
            ({
                let s = spec_service_state(all, index as nat);
                &&& service_id == s.service_id
                &&& doc@ == s.doc
                &&& request_updates@ == s.request_updates
                &&& response_updates@ == s.response_updates
                &&& errors@ == s.errors
            }),
        decreases n - index,
    {
        let attr = rest.remove(0);
        assert(attr == all[index as int]);
        assert(rest@ =~= all.skip(index + 1));
        match attr {
            ServiceAttribute::ServiceId(parsed) => {
                if service_id.is_some() {
                    errors.push(AttributeError::Duplicate { index, attribute: SingleAttribute::ServiceId });
                }
                match parsed {
                    Err(message) => errors.push(AttributeError::Invalid { index, message }),
                    Ok(id) => {
                        if service_id.is_none() {
                            service_id = Some(id);
                        }
                    },
                }
            },
            ServiceAttribute::Doc(parsed) => match parsed {
                Err(message) => errors.push(AttributeError::Invalid { index, message }),
                Ok(line) => doc.push(line),
            },
            ServiceAttribute::RequestUpdate(parsed) => match parsed {
                Err(message) => errors.push(AttributeError::Invalid { index, message }),
                Ok(update) => {
                    if has_update_id(&request_updates, update.service_id) {
                        errors.push(AttributeError::DuplicateUpdateId { index, kind: UpdateKind::RequestUpdate });
                    } else {
                        request_updates.push(update);
                    }
                },
            },
            ServiceAttribute::ResponseUpdate(parsed) => match parsed {
                Err(message) => errors.push(AttributeError::Invalid { index, message }),
                Ok(update) => {
                    if has_update_id(&response_updates, update.service_id) {
                        errors.push(AttributeError::DuplicateUpdateId { index, kind: UpdateKind::ResponseUpdate });
                    } else {
                        response_updates.push(update);
                    }
                },
            },
            ServiceAttribute::Unknown => errors.push(AttributeError::Unknown { index }),
        }
        index += 1;
    }
    let service_id = match service_id {
        Some(id) => id,
        None => {
            errors.push(AttributeError::MissingServiceId);
            0
        },
    };
    (ServiceAttributes { service_id, doc, request_updates, response_updates }, errors)
}

/// Collect the attributes of an interface, in order.
///
/// Returns the collected attributes and every error that they gave, in the order of the attributes.
pub fn collect_interface_attributes(attrs: Vec<InterfaceAttribute>) -> (r: (InterfaceAttributes, Vec<AttributeError>))
    ensures
        ({
            let s = spec_interface_state(attrs@, attrs@.len());
            &&& r.0.doc@ == s.doc
            &&& r.0.request_enum == s.request_enum
            &&& r.0.client_struct == s.client_struct
            &&& r.0.server_struct == s.server_struct
            &&& r.1@ == s.errors
        }),
{
    let ghost all = attrs@;
    let n = attrs.len();
    let mut rest = attrs;
    let mut doc: Vec<String> = Vec::new();
    let mut request_enum: Option<String> = None;
    let mut client_struct: Option<String> = None;
    let mut server_struct: Option<String> = None;
    let mut errors: Vec<AttributeError> = Vec::new();
    let mut index: usize = 0;
    assert(all.skip(0) =~= all);
    while index < n
        invariant
            n == all.len(),
            index <= n,
            rest@ == all.skip(index as int),
            ({
                let s = spec_interface_state(all, index as nat);
                &&& doc@ == s.doc
                &&& request_enum == s.request_enum
                &&& client_struct == s.client_struct
                &&& server_struct == s.server_struct
                &&& errors@ == s.errors
            }),
        decreases n - index,
    {
        let attr = rest.remove(0);
        assert(attr == all[index as int]);
        assert(rest@ =~= all.skip(index + 1));
        match attr {
            InterfaceAttribute::Doc(parsed) => match parsed {
                Err(message) => errors.push(AttributeError::Invalid { index, message }),
                Ok(line) => doc.push(line),
            },
            InterfaceAttribute::RequestEnum(parsed) => match parsed {
                Err(message) => errors.push(AttributeError::Invalid { index, message }),
                Ok(name) => {
                    if request_enum.is_some() {
                        errors.push(AttributeError::Duplicate { index, attribute: SingleAttribute::RequestEnum });
                    } else {
                        request_enum = Some(name);
                    }
                },
            },
            InterfaceAttribute::ClientStruct(parsed) => match parsed {
                Err(message) => errors.push(AttributeError::Invalid { index, message }),
                Ok(name) => {
                    if client_struct.is_some() {
                        errors.push(AttributeError::Duplicate { index, attribute: SingleAttribute::ClientStruct });
                    } else {
                        client_struct = Some(name);
                    }
                },
            },
            InterfaceAttribute::ServerStruct(parsed) => match parsed {
                Err(message) => errors.push(AttributeError::Invalid { index, message }),
                Ok(name) => {
                    if server_struct.is_some() {
                        errors.push(AttributeError::Duplicate { index, attribute: SingleAttribute::ServerStruct });
                    } else {
                        server_struct = Some(name);
                    }
                },
            },
            InterfaceAttribute::Unknown => errors.push(AttributeError::Unknown { index }),
        }
        index += 1;
    }
    (InterfaceAttributes { doc, request_enum, client_struct, server_struct }, errors)
}

} // verus!
