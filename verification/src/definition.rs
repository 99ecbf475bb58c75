//! From a parsed interface definition to the model that code is generated from.
//!
//! An interface definition is first read into raw items: names, service IDs and types as written,
//! with the attributes of each item. Turning the raw items into the model checks the
//! attributes and the service IDs; every problem gives an error, and the model is still
//! made from what remains, so that code can be generated next to the errors.

use vstd::prelude::*;
use crate::attributes::str_equals;
use crate::codegen::{InterfaceModel, MessageModel, ServiceModel};
use crate::interface::{duplicate_service_ids, lemma_duplicate_ids_have_earlier_twin, spec_duplicate_ids, UpdateKind};

verus! {

/// An attribute of an item of an interface: its path and, for a doc comment, its text
/// or the message of the error from parsing it.
#[derive(Debug)]
pub struct RawAttribute {
    /// The path of the attribute, as written.
    pub path: String,

    /// The parsed text of a doc comment; not looked at for other attributes.
    pub doc: Result<String, String>,
}

/// An update or stream message as written in the interface definition.
#[derive(Debug)]
pub struct RawMessage {
    /// The attributes of the message.
    pub attrs: Vec<RawAttribute>,

    /// The name of the message.
    pub name: String,

    /// The service ID, or the message of the error from parsing the integer literal.
    pub service_id: Result<i32, String>,

    /// The body type, as written.
    pub body_type: String,

    /// The body type is `()`.
    pub body_is_unit: bool,
}

/// An update of a service as written in the interface definition.
#[derive(Debug)]
pub struct RawUpdate {
    /// Whether the requester or the responder sends the update.
    pub kind: UpdateKind,

    /// The update message.
    pub message: RawMessage,
}

/// A service as written in the interface definition.
#[derive(Debug)]
pub struct RawService {
    /// The attributes of the service.
    pub attrs: Vec<RawAttribute>,

    /// The name of the service.
    pub name: String,

    /// The service ID, or the message of the error from parsing the integer literal.
    pub service_id: Result<i32, String>,

    /// The request body type, as written.
    pub request_type: String,

    /// The request body type is `()`.
    pub request_is_unit: bool,

    /// The response body type, as written.
    pub response_type: String,

    /// The updates of the service, in order.
    pub updates: Vec<RawUpdate>,
}

/// An item of an interface definition.
#[derive(Debug)]
pub enum RawItem {
    /// A service.
    Service(RawService),

    /// A stream message.
    Stream(RawMessage),
}

/// An interface definition as written.
#[derive(Debug)]
pub struct RawInterface {
    /// The attributes of the interface.
    pub attrs: Vec<RawAttribute>,

    /// The name of the interface.
    pub name: String,

    /// The visibility of the interface, as written.
    pub visibility: String,

    /// The services and stream messages, in order.
    pub items: Vec<RawItem>,
}

/// An error in an interface definition.
#[derive(Debug)]
pub enum DefinitionError {
    /// An attribute other than a doc comment or `hidden`.
    UnknownAttribute,

    /// A doc comment that could not be parsed; the parser's message.
    InvalidAttribute(String),

    /// A service ID that is not a valid `i32` literal; the parser's message.
    InvalidServiceId(String),

    /// An update with the service ID of an earlier update of the same kind of the same service.
    DuplicateServiceId { kind: UpdateKind, service_id: i32 },
}

impl DefinitionError {
    /// The text of this error.
    pub open spec fn spec_describe(&self) -> Seq<char> {
        match self {
            DefinitionError::UnknownAttribute => "unknown attribute"@,
            DefinitionError::InvalidAttribute(message) => message@,
            DefinitionError::InvalidServiceId(message) => message@,
            DefinitionError::DuplicateServiceId { .. } => "duplicate service ID"@,
        }
    }

    /// Describe this error in words.
    pub fn describe(&self) -> (r: String)
        ensures
            r@ == self.spec_describe(),
    {
        match self {
            DefinitionError::UnknownAttribute => String::from_str("unknown attribute"),
            DefinitionError::InvalidAttribute(message) => message.clone(),
            DefinitionError::InvalidServiceId(message) => message.clone(),
            DefinitionError::DuplicateServiceId { .. } => String::from_str("duplicate service ID"),
        }
    }
}

/// What the attributes of an item amount to.
pub struct ItemAttributes {
    /// The lines of documentation.
    pub doc: Seq<String>,

    /// The item is hidden from generated documentation.
    pub hidden: bool,

    /// The errors, in order.
    pub errors: Seq<DefinitionError>,
}

/// What the first `n` attributes of an item amount to: doc comments give documentation,
/// `hidden` hides the item, and anything else is an unknown attribute.
pub open spec fn spec_item_attributes(attrs: Seq<RawAttribute>, n: nat) -> ItemAttributes
    decreases n,
{
    if n == 0 {
        ItemAttributes { doc: Seq::empty(), hidden: false, errors: Seq::empty() }
    } else {
        let s = spec_item_attributes(attrs, (n - 1) as nat);
        let a = attrs[n - 1];
        if a.path@ == "doc"@ {
            match a.doc {
                Ok(line) => ItemAttributes { doc: s.doc.push(line), ..s },
                Err(message) => ItemAttributes { errors: s.errors.push(DefinitionError::InvalidAttribute(message)), ..s },
            }
        } else if a.path@ == "hidden"@ {
            ItemAttributes { hidden: true, ..s }
        } else {
            ItemAttributes { errors: s.errors.push(DefinitionError::UnknownAttribute), ..s }
        }
    }
}

/// All attributes of an item.
pub open spec fn spec_attrs(attrs: Seq<RawAttribute>) -> ItemAttributes {
    spec_item_attributes(attrs, attrs.len())
}

/// Check the attributes of an item.
fn item_attributes(attrs: Vec<RawAttribute>) -> (r: (Vec<String>, bool, Vec<DefinitionError>))
    ensures
        r.0@ == spec_attrs(attrs@).doc,
        r.1 == spec_attrs(attrs@).hidden,
        r.2@ == spec_attrs(attrs@).errors,
{
    let ghost all = attrs@;
    let n = attrs.len();
    let mut rest = attrs;
    let mut doc: Vec<String> = Vec::new();
    let mut hidden = false;
    let mut errors: Vec<DefinitionError> = Vec::new();
    let mut i: usize = 0;
    assert(all.skip(0) =~= all);
    while i < n
        invariant
            n == all.len(),
            i <= n,
            rest@ == all.skip(i as int),
            doc@ == spec_item_attributes(all, i as nat).doc,
            hidden == spec_item_attributes(all, i as nat).hidden,
            errors@ == spec_item_attributes(all, i as nat).errors,
        decreases n - i,
    {
        let a = rest.remove(0);
        assert(a == all[i as int]);
        assert(rest@ =~= all.skip(i + 1));
        if str_equals(a.path.as_str(), "doc") {
            match a.doc {
                Ok(line) => doc.push(line),
                Err(message) => errors.push(DefinitionError::InvalidAttribute(message)),
            }
        } else if str_equals(a.path.as_str(), "hidden") {
            hidden = true;
        } else {
            errors.push(DefinitionError::UnknownAttribute);
        }
        i += 1;
    }
    (doc, hidden, errors)
}

/// The service ID that is used: the parsed one, or zero when it could not be parsed.
pub open spec fn spec_id(id: Result<i32, String>) -> i32 {
    match id {
        Ok(v) => v,
        Err(_) => 0,
    }
}

/// The error of a service ID that could not be parsed, if any.
pub open spec fn spec_id_errors(id: Result<i32, String>) -> Seq<DefinitionError> {
    match id {
        Ok(_) => Seq::empty(),
        Err(message) => seq![DefinitionError::InvalidServiceId(message)],
    }
}

/// The model of a message is made of its raw form.
pub open spec fn spec_message_matches(m: MessageModel, raw: RawMessage) -> bool {
    &&& m.name == raw.name
    &&& m.service_id == spec_id(raw.service_id)
    &&& m.body_type == raw.body_type
    &&& m.body_is_unit == raw.body_is_unit
    &&& m.doc@ == spec_attrs(raw.attrs@).doc
    &&& m.hidden == spec_attrs(raw.attrs@).hidden
}

/// The errors of a message: those of its attributes, then that of its service ID.
pub open spec fn spec_message_errors(raw: RawMessage) -> Seq<DefinitionError> {
    spec_attrs(raw.attrs@).errors + spec_id_errors(raw.service_id)
}

/// Turn a raw message into its model, appending its errors to `errors`.
pub fn message_from_raw(raw: RawMessage, errors: &mut Vec<DefinitionError>) -> (r: MessageModel)
    ensures
        spec_message_matches(r, raw),
        final(errors)@ == old(errors)@ + spec_message_errors(raw),
{
    let ghost old_raw = raw;
    let (doc, hidden, attr_errors) = item_attributes(raw.attrs);
    let mut attr_errors = attr_errors;
    errors.append(&mut attr_errors);
    let service_id = match raw.service_id {
        Ok(v) => v,
        Err(message) => {
            errors.push(DefinitionError::InvalidServiceId(message));
            0
        },
    };
    assert(final(errors)@ =~= old(errors)@ + spec_message_errors(old_raw));
    MessageModel {
        name: raw.name,
        service_id,
        body_type: raw.body_type,
        doc,
        body_is_unit: raw.body_is_unit,
        hidden,
    }
}

/// The raw updates of one kind, in order.
pub open spec fn spec_updates_of(updates: Seq<RawUpdate>, kind: UpdateKind) -> Seq<RawMessage>
    decreases updates.len(),
{
    if updates.len() == 0 {
        Seq::empty()
    } else {
        let rest = spec_updates_of(updates.drop_last(), kind);
        if updates.last().kind == kind { rest.push(updates.last().message) } else { rest }
    }
}

/// The errors of the update messages, in order.
pub open spec fn spec_update_errors(updates: Seq<RawUpdate>) -> Seq<DefinitionError>
    decreases updates.len(),
{
    if updates.len() == 0 {
        Seq::empty()
    } else {
        spec_update_errors(updates.drop_last()) + spec_message_errors(updates.last().message)
    }
}

/// The service IDs used by the messages, in order.
pub open spec fn spec_ids(messages: Seq<RawMessage>) -> Seq<i32> {
    messages.map_values(|m: RawMessage| spec_id(m.service_id))
}

/// The errors for repeated service IDs among the updates of one kind: one for every pair of
/// updates with the same service ID, naming that ID, ordered as `spec_duplicate_ids` orders them.
pub open spec fn spec_duplicate_errors(ids: Seq<i32>, kind: UpdateKind) -> Seq<DefinitionError> {
    spec_duplicate_ids(ids, ids.len() as int).map_values(|j: usize| DefinitionError::DuplicateServiceId { kind, service_id: ids[j as int] })
}

/// Report the repeated service IDs among the updates of one kind.
fn duplicate_errors(ids: &Vec<i32>, kind: UpdateKind, errors: &mut Vec<DefinitionError>)
    ensures
        final(errors)@ == old(errors)@ + spec_duplicate_errors(ids@, kind),
{
    let positions = duplicate_service_ids(ids);
    // The length of a vector fits in a usize.
    let _len = ids.len();
    let ghost start = errors@;
    let ghost expected = spec_duplicate_errors(ids@, kind);
    assert forall|j: int| 0 <= j < positions@.len() implies positions@[j] < ids@.len() by {
        lemma_duplicate_ids_have_earlier_twin(ids@, ids@.len() as int, j);
    }
    let mut k: usize = 0;
    while k < positions.len()
        invariant
            k <= positions@.len(),
            positions@ == spec_duplicate_ids(ids@, ids@.len() as int),
            expected == spec_duplicate_errors(ids@, kind),
            errors@ == start + expected.take(k as int),
            forall|j: int| 0 <= j < positions@.len() ==> positions@[j] < ids@.len(),
        decreases positions@.len() - k,
    {
        let j = positions[k];
        errors.push(DefinitionError::DuplicateServiceId { kind, service_id: ids[j] });
        assert(expected.take(k + 1) =~= expected.take(k as int).push(expected[k as int]));
        k += 1;
    }
    assert(expected.take(positions@.len() as int) =~= expected);
}

/// The model of a service is made of its raw form.
pub open spec fn spec_service_matches(s: ServiceModel, raw: RawService) -> bool {
    let requests = spec_updates_of(raw.updates@, UpdateKind::RequestUpdate);
    let responses = spec_updates_of(raw.updates@, UpdateKind::ResponseUpdate);
    &&& s.name == raw.name
    &&& s.service_id == spec_id(raw.service_id)
    &&& s.request_type == raw.request_type
    &&& s.request_is_unit == raw.request_is_unit
    &&& s.response_type == raw.response_type
    &&& s.doc@ == spec_attrs(raw.attrs@).doc
    &&& s.hidden == spec_attrs(raw.attrs@).hidden
    &&& s.request_updates@.len() == requests.len()
    &&& forall|k: int| 0 <= k < requests.len() ==> spec_message_matches(#[trigger] s.request_updates@[k], requests[k])
    &&& s.response_updates@.len() == responses.len()
    &&& forall|k: int| 0 <= k < responses.len() ==> spec_message_matches(#[trigger] s.response_updates@[k], responses[k])
}

/// The errors of a service: those of its attributes, those of its updates, the repeated
/// service IDs of its request updates and of its response updates, then that of its own service ID.
pub open spec fn spec_service_errors(raw: RawService) -> Seq<DefinitionError> {
    spec_attrs(raw.attrs@).errors
        + spec_update_errors(raw.updates@)
        + spec_duplicate_errors(spec_ids(spec_updates_of(raw.updates@, UpdateKind::RequestUpdate)), UpdateKind::RequestUpdate)
        + spec_duplicate_errors(spec_ids(spec_updates_of(raw.updates@, UpdateKind::ResponseUpdate)), UpdateKind::ResponseUpdate)
        + spec_id_errors(raw.service_id)
}

/// Turn a raw service into its model, appending its errors to `errors`.
pub fn service_from_raw(raw: RawService, errors: &mut Vec<DefinitionError>) -> (r: ServiceModel)
    ensures
        spec_service_matches(r, raw),
        final(errors)@ == old(errors)@ + spec_service_errors(raw),
{
    let ghost old_raw = raw;
    let ghost all = raw.updates@;
    let (doc, hidden, attr_errors) = item_attributes(raw.attrs);
    let mut attr_errors = attr_errors;
    errors.append(&mut attr_errors);
    let ghost after_attrs = errors@;

    let n = raw.updates.len();
    let mut rest = raw.updates;
    let mut request_updates: Vec<MessageModel> = Vec::new();
    let mut response_updates: Vec<MessageModel> = Vec::new();
    let mut request_ids: Vec<i32> = Vec::new();
    let mut response_ids: Vec<i32> = Vec::new();
    let mut i: usize = 0;
    assert(all.skip(0) =~= all);
    assert(all.take(0) =~= Seq::<RawUpdate>::empty());
    while i < n
        invariant
            n == all.len(),
            i <= n,
            rest@ == all.skip(i as int),
            errors@ == after_attrs + spec_update_errors(all.take(i as int)),
            request_updates@.len() == spec_updates_of(all.take(i as int), UpdateKind::RequestUpdate).len(),
            forall|k: int| 0 <= k < request_updates@.len() ==> spec_message_matches(#[trigger] request_updates@[k],
                spec_updates_of(all.take(i as int), UpdateKind::RequestUpdate)[k]),
            response_updates@.len() == spec_updates_of(all.take(i as int), UpdateKind::ResponseUpdate).len(),
            forall|k: int| 0 <= k < response_updates@.len() ==> spec_message_matches(#[trigger] response_updates@[k],
                spec_updates_of(all.take(i as int), UpdateKind::ResponseUpdate)[k]),
            request_ids@ == spec_ids(spec_updates_of(all.take(i as int), UpdateKind::RequestUpdate)),
            response_ids@ == spec_ids(spec_updates_of(all.take(i as int), UpdateKind::ResponseUpdate)),
        decreases n - i,
    {
        let update = rest.remove(0);
        assert(update == all[i as int]);
        assert(rest@ =~= all.skip(i + 1));
        assert(all.take(i + 1).drop_last() =~= all.take(i as int));
        assert(all.take(i + 1).last() == all[i as int]);
        let ghost prev_req = spec_updates_of(all.take(i as int), UpdateKind::RequestUpdate);
        let ghost prev_resp = spec_updates_of(all.take(i as int), UpdateKind::ResponseUpdate);
        let kind = update.kind;
        let model = message_from_raw(update.message, errors);
        let id = model.service_id;
        match kind {
            UpdateKind::RequestUpdate => {
                request_updates.push(model);
                request_ids.push(id);
                assert(request_ids@ =~= spec_ids(prev_req.push(all[i as int].message)));
            },
            UpdateKind::ResponseUpdate => {
                response_updates.push(model);
                response_ids.push(id);
                assert(response_ids@ =~= spec_ids(prev_resp.push(all[i as int].message)));
            },
        }
        assert(errors@ =~= after_attrs + spec_update_errors(all.take(i + 1)));
        i += 1;
    }
    assert(all.take(n as int) =~= all);
    duplicate_errors(&request_ids, UpdateKind::RequestUpdate, errors);
    duplicate_errors(&response_ids, UpdateKind::ResponseUpdate, errors);
    let service_id = match raw.service_id {
        Ok(v) => v,
        Err(message) => {
            errors.push(DefinitionError::InvalidServiceId(message));
            0
        },
    };
    assert(final(errors)@ =~= old(errors)@ + spec_service_errors(old_raw));
    ServiceModel {
        name: raw.name,
        doc,
        service_id,
        request_type: raw.request_type,
        request_is_unit: raw.request_is_unit,
        response_type: raw.response_type,
        request_updates,
        response_updates,
        hidden,
    }
}

/// The raw services of an interface, in order.
pub open spec fn spec_services_of(items: Seq<RawItem>) -> Seq<RawService>
    decreases items.len(),
{
    if items.len() == 0 {
        Seq::empty()
    } else {
        let rest = spec_services_of(items.drop_last());
        match items.last() {
            RawItem::Service(s) => rest.push(s),
            RawItem::Stream(_) => rest,
        }
    }
}

/// The raw stream messages of an interface, in order.
pub open spec fn spec_streams_of(items: Seq<RawItem>) -> Seq<RawMessage>
    decreases items.len(),
{
    if items.len() == 0 {
        Seq::empty()
    } else {
        let rest = spec_streams_of(items.drop_last());
        match items.last() {
            RawItem::Service(_) => rest,
            RawItem::Stream(m) => rest.push(m),
        }
    }
}

/// The errors of the items of an interface, in order.
pub open spec fn spec_item_errors(items: Seq<RawItem>) -> Seq<DefinitionError>
    decreases items.len(),
{
    if items.len() == 0 {
        Seq::empty()
    } else {
        spec_item_errors(items.drop_last()) + match items.last() {
            RawItem::Service(s) => spec_service_errors(s),
            RawItem::Stream(m) => spec_message_errors(m),
        }
    }
}

/// The model of an interface is made of its raw form.
pub open spec fn spec_interface_matches(i: InterfaceModel, raw: RawInterface) -> bool {
    let services = spec_services_of(raw.items@);
    let streams = spec_streams_of(raw.items@);
    &&& i.name == raw.name
    &&& i.visibility == raw.visibility
    &&& i.doc@ == spec_attrs(raw.attrs@).doc
    &&& i.hidden == spec_attrs(raw.attrs@).hidden
    &&& i.services@.len() == services.len()
    &&& forall|k: int| 0 <= k < services.len() ==> spec_service_matches(#[trigger] i.services@[k], services[k])
    &&& i.streams@.len() == streams.len()
    &&& forall|k: int| 0 <= k < streams.len() ==> spec_message_matches(#[trigger] i.streams@[k], streams[k])
}

/// Turn a raw interface definition into its model, with all errors in the definition:
/// those of the interface's attributes, then those of each item in order.
pub fn interface_from_raw(raw: RawInterface) -> (r: (InterfaceModel, Vec<DefinitionError>))
    ensures
        spec_interface_matches(r.0, raw),
        r.1@ == spec_attrs(raw.attrs@).errors + spec_item_errors(raw.items@),
{
    let ghost all = raw.items@;
    let (doc, hidden, attr_errors) = item_attributes(raw.attrs);
    let mut errors = attr_errors;
    let ghost after_attrs = errors@;
    let n = raw.items.len();
    let mut rest = raw.items;
    let mut services: Vec<ServiceModel> = Vec::new();
    let mut streams: Vec<MessageModel> = Vec::new();
    let mut i: usize = 0;
    assert(all.skip(0) =~= all);
    assert(all.take(0) =~= Seq::<RawItem>::empty());
    while i < n
        invariant
            n == all.len(),
            i <= n,
            rest@ == all.skip(i as int),
            errors@ == after_attrs + spec_item_errors(all.take(i as int)),
            services@.len() == spec_services_of(all.take(i as int)).len(),
            forall|k: int| 0 <= k < services@.len() ==> spec_service_matches(#[trigger] services@[k],
                spec_services_of(all.take(i as int))[k]),
            streams@.len() == spec_streams_of(all.take(i as int)).len(),
            forall|k: int| 0 <= k < streams@.len() ==> spec_message_matches(#[trigger] streams@[k],
                spec_streams_of(all.take(i as int))[k]),
        decreases n - i,
    {
        let item = rest.remove(0);
        assert(item == all[i as int]);
        assert(rest@ =~= all.skip(i + 1));
        assert(all.take(i + 1).drop_last() =~= all.take(i as int));
        assert(all.take(i + 1).last() == all[i as int]);
        match item {
            RawItem::Service(s) => {
                let model = service_from_raw(s, &mut errors);
                services.push(model);
            },
            RawItem::Stream(m) => {
                let model = message_from_raw(m, &mut errors);
                streams.push(model);
            },
        }
        assert(errors@ =~= after_attrs + spec_item_errors(all.take(i + 1)));
        i += 1;
    }
    assert(all.take(n as int) =~= all);
    let model = InterfaceModel { name: raw.name, doc, hidden, visibility: raw.visibility, services, streams };
    (model, errors)
}


/// The attribute is a doc comment whose text could be read.
pub open spec fn spec_is_doc_line(a: RawAttribute) -> bool {
    a.path@ == "doc"@ && a.doc is Ok
}

/// The lines of documentation that `attrs` give: the texts of their doc comments,
/// in the order the attributes are written.
pub open spec fn spec_doc_lines(attrs: Seq<RawAttribute>) -> Seq<String> {
    attrs.filter(|a: RawAttribute| spec_is_doc_line(a)).map_values(|a: RawAttribute| a.doc->Ok_0)
}

/// The documentation from the first `n` attributes is the texts of their doc comments, in order.
proof fn lemma_doc_lines_prefix(attrs: Seq<RawAttribute>, n: nat)
    requires
        n <= attrs.len(),
    ensures
        spec_item_attributes(attrs, n).doc == spec_doc_lines(attrs.take(n as int)),
    decreases n,
{
    reveal(Seq::filter);
    if n > 0 {
        lemma_doc_lines_prefix(attrs, (n - 1) as nat);
        let before = attrs.take(n - 1);
        let now = attrs.take(n as int);
        assert(now.drop_last() =~= before);
        assert(now.last() == attrs[n - 1]);
        let filtered_before = before.filter(|a: RawAttribute| spec_is_doc_line(a));
        let filtered_now = now.filter(|a: RawAttribute| spec_is_doc_line(a));
        if spec_is_doc_line(attrs[n - 1]) {
            assert(filtered_now == filtered_before.push(attrs[n - 1]));
            assert(filtered_now.map_values(|a: RawAttribute| a.doc->Ok_0)
                =~= filtered_before.map_values(|a: RawAttribute| a.doc->Ok_0).push(attrs[n - 1].doc->Ok_0));
        } else {
            assert(filtered_now == filtered_before);
        }
    }
}

/// The documentation of an item is the texts of its doc comment attributes, in the order in
/// which the attributes are written: line `k` is the text of the `k`-th doc comment.
pub proof fn lemma_doc_lines_in_order(attrs: Seq<RawAttribute>)
    ensures
        spec_attrs(attrs).doc == spec_doc_lines(attrs),
{
    lemma_doc_lines_prefix(attrs, attrs.len());
    assert(attrs.take(attrs.len() as int) =~= attrs);
}

/// The documentation of an interface made by [`interface_from_raw`] is the texts of the doc
/// comments of the definition, in the order written.
pub proof fn lemma_interface_doc_in_order(i: InterfaceModel, raw: RawInterface)
    requires
        spec_interface_matches(i, raw),
    ensures
        i.doc@ == spec_doc_lines(raw.attrs@),
{
    lemma_doc_lines_in_order(raw.attrs@);
}

} // verus!
