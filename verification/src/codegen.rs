//! Rust code generated for an interface definition: its description, client, server and message types.
//!
//! The generators take the parts of an interface definition as text (names, types,
//! visibility and the path of this crate) and give the code as Rust source text.

use vstd::prelude::*;
use crate::interface::{spec_doc_string, spec_upper_camel_case, to_doc_string, to_upper_camel_case};
use crate::text::{push_decimal, push_signed_decimal, spec_decimal, spec_signed_decimal, string_push};

verus! {

/// A character as it is written inside a string literal.
pub open spec fn spec_escape_char(c: char) -> Seq<char> {
    if c == '\\' {
        seq!['\\', '\\']
    } else if c == '"' {
        seq!['\\', '"']
    } else {
        seq![c]
    }
}

/// Text as it is written inside a string literal: backslashes and double quotes are escaped.
pub open spec fn spec_escape(s: Seq<char>) -> Seq<char>
    decreases s.len(),
{
    if s.len() == 0 {
        Seq::<char>::empty()
    } else {
        spec_escape(s.drop_last()) + spec_escape_char(s.last())
    }
}

/// Write text as the contents of a string literal.
pub fn escape(s: &str) -> (r: String)
    ensures
        r@ == spec_escape(s@),
{
    let n = s.unicode_len();
    let mut out = String::new();
    let mut i: usize = 0;
    assert(s@.take(0) =~= Seq::<char>::empty());
    while i < n
        invariant
            n == s@.len(),
            i <= n,
            out@ == spec_escape(s@.take(i as int)),
        decreases n - i,
    {
        let c = s.get_char(i);
        if c == '\\' || c == '"' {
            string_push(&mut out, '\\');
        }
        string_push(&mut out, c);
        assert(s@.take(i + 1).drop_last() =~= s@.take(i as int));
        i += 1;
    }
    assert(s@.take(n as int) =~= s@);
    out
}

/// The client struct of an interface.
#[verifier::opaque]
pub open spec fn spec_client_code(fizyr_rpc: Seq<char>, interface_name: Seq<char>, visibility: Seq<char>, extra_impl: Seq<char>) -> Seq<char> {
    "#[doc = \"RPC client for the "@ + spec_escape(interface_name) + " interface.\"]\n"@ + visibility + " struct Client<F: "@ + fizyr_rpc + "::util::format::Format> {\n\tpeer: "@ + fizyr_rpc + "::PeerWriteHandle<F::Body>,\n}\n\nimpl<F: "@ + fizyr_rpc + "::util::format::Format> ::core::fmt::Debug for Client<F> {\n\tfn fmt(&self, f: &mut ::core::fmt::Formatter) -> ::core::fmt::Result {\n\t\tf.debug_struct(::core::any::type_name::<Self>())\n\t\t\t.field(\"peer\", &self.peer)\n\t\t\t.finish()\n\t}\n}\n\nimpl<F: "@ + fizyr_rpc + "::util::format::Format> ::core::clone::Clone for Client<F> {\n\tfn clone(&self) -> Self {\n\t\tSelf {\n\t\t\tpeer: self.peer.clone(),\n\t\t}\n\t}\n}\n\nimpl<F: "@ + fizyr_rpc + "::util::format::Format> ::core::convert::From<"@ + fizyr_rpc + "::PeerWriteHandle<F::Body>> for Client<F> {\n\tfn from(other: "@ + fizyr_rpc + "::PeerWriteHandle<F::Body>) -> Self {\n\t\tSelf::new(other)\n\t}\n}\n\nimpl<F: "@ + fizyr_rpc + "::util::format::Format> ::core::convert::From<"@ + fizyr_rpc + "::PeerHandle<F::Body>> for Client<F> {\n\tfn from(other: "@ + fizyr_rpc + "::PeerHandle<F::Body>) -> Self {\n\t\tlet (_read, write) = other.split();\n\t\tSelf::new(write)\n\t}\n}\n\nimpl<F: "@ + fizyr_rpc + "::util::format::Format> Client<F> {\n\t/// Create a new interface-specific RPC client from a raw write handle.\n\tpub fn new(peer: "@ + fizyr_rpc + "::PeerWriteHandle<F::Body>) -> Self {\n\t\tSelf { peer }\n\t}\n\n\t/// Close the connection with the remote peer.\n\tpub fn close(self) {\n\t\tself.peer.close()\n\t}\n\n\t/// Make a close handle for the peer.\n\t///\n\t/// The close handle can be used to close the connection with the remote peer.\n\t/// It can be cloned and moved around independently.\n\tpub fn close_handle(&self) -> "@ + fizyr_rpc + "::PeerCloseHandle<F::Body> {\n\t\tself.peer.close_handle()\n\t}\n\n"@ + extra_impl + "\n}\n"@
}

/// Generate the client struct of an interface.
///
/// `fizyr_rpc` is the path of this crate in the generated code, `visibility` that of the
/// interface, and `extra_impl` the functions that the services and streams add to the client.
pub fn generate_client(fizyr_rpc: &str, interface_name: &str, visibility: &str, extra_impl: &str) -> (r: String)
    ensures
        r@ == spec_client_code(fizyr_rpc@, interface_name@, visibility@, extra_impl@),
{
    proof { reveal(spec_client_code); }
    let name_escaped = escape(interface_name);
    let mut out = String::new();
    out.append("#[doc = \"RPC client for the ");
    out.append(name_escaped.as_str());
    out.append(" interface.\"]\n");
    out.append(visibility);
    out.append(" struct Client<F: ");
    out.append(fizyr_rpc);
    out.append("::util::format::Format> {\n\tpeer: ");
    out.append(fizyr_rpc);
    out.append("::PeerWriteHandle<F::Body>,\n}\n\nimpl<F: ");
    out.append(fizyr_rpc);
    out.append("::util::format::Format> ::core::fmt::Debug for Client<F> {\n\tfn fmt(&self, f: &mut ::core::fmt::Formatter) -> ::core::fmt::Result {\n\t\tf.debug_struct(::core::any::type_name::<Self>())\n\t\t\t.field(\"peer\", &self.peer)\n\t\t\t.finish()\n\t}\n}\n\nimpl<F: ");
    out.append(fizyr_rpc);
    out.append("::util::format::Format> ::core::clone::Clone for Client<F> {\n\tfn clone(&self) -> Self {\n\t\tSelf {\n\t\t\tpeer: self.peer.clone(),\n\t\t}\n\t}\n}\n\nimpl<F: ");
    out.append(fizyr_rpc);
    out.append("::util::format::Format> ::core::convert::From<");
    out.append(fizyr_rpc);
    out.append("::PeerWriteHandle<F::Body>> for Client<F> {\n\tfn from(other: ");
    out.append(fizyr_rpc);
    out.append("::PeerWriteHandle<F::Body>) -> Self {\n\t\tSelf::new(other)\n\t}\n}\n\nimpl<F: ");
    out.append(fizyr_rpc);
    out.append("::util::format::Format> ::core::convert::From<");
    out.append(fizyr_rpc);
    out.append("::PeerHandle<F::Body>> for Client<F> {\n\tfn from(other: ");
    out.append(fizyr_rpc);
    out.append("::PeerHandle<F::Body>) -> Self {\n\t\tlet (_read, write) = other.split();\n\t\tSelf::new(write)\n\t}\n}\n\nimpl<F: ");
    out.append(fizyr_rpc);
    out.append("::util::format::Format> Client<F> {\n\t/// Create a new interface-specific RPC client from a raw write handle.\n\tpub fn new(peer: ");
    out.append(fizyr_rpc);
    out.append("::PeerWriteHandle<F::Body>) -> Self {\n\t\tSelf { peer }\n\t}\n\n\t/// Close the connection with the remote peer.\n\tpub fn close(self) {\n\t\tself.peer.close()\n\t}\n\n\t/// Make a close handle for the peer.\n\t///\n\t/// The close handle can be used to close the connection with the remote peer.\n\t/// It can be cloned and moved around independently.\n\tpub fn close_handle(&self) -> ");
    out.append(fizyr_rpc);
    out.append("::PeerCloseHandle<F::Body> {\n\t\tself.peer.close_handle()\n\t}\n\n");
    out.append(extra_impl);
    out.append("\n}\n");
    out
}

/// A message of a message enum: a service, an update or a stream message of an interface.
#[derive(Debug)]
pub struct MessageModel {
    /// The name of the message, in `snake_case`.
    pub name: String,

    /// The service ID of the message.
    pub service_id: i32,

    /// The body type of the message, as written.
    pub body_type: String,

    /// The lines of documentation of the message.
    pub doc: Vec<String>,

    /// The body type is `()`.
    pub body_is_unit: bool,

    /// The message is left out of generated documentation.
    pub hidden: bool,
}

/// Doc attributes for lines of documentation.
pub open spec fn spec_doc_attrs(doc: Seq<String>) -> Seq<char>
    decreases doc.len(),
{
    if doc.len() == 0 {
        Seq::<char>::empty()
    } else {
        spec_doc_attrs(doc.drop_last()) + "#[doc = \""@ + spec_escape(doc.last()@) + "\"]\n"@
    }
}

/// Write doc attributes for lines of documentation.
fn doc_attrs(doc: &Vec<String>) -> (r: String)
    ensures
        r@ == spec_doc_attrs(doc@),
{
    let mut out = String::new();
    let mut i: usize = 0;
    assert(doc@.take(0) =~= Seq::<String>::empty());
    while i < doc.len()
        invariant
            i <= doc@.len(),
            out@ == spec_doc_attrs(doc@.take(i as int)),
        decreases doc@.len() - i,
    {
        let line = escape(doc[i].as_str());
        out.append("#[doc = \"");
        out.append(line.as_str());
        out.append("\"]\n");
        assert(doc@.take(i + 1).drop_last() =~= doc@.take(i as int));
        i += 1;
    }
    assert(doc@.take(doc@.len() as int) =~= doc@);
    out
}

/// One part of the code for one message of a message enum: `part` picks the variant, a match
/// arm of decoding, a bound for decoding, a match arm of encoding, a match arm of the service ID,
/// a bound for encoding, or the accessor functions.
#[verifier::opaque]
pub open spec fn spec_message_piece(fizyr_rpc: Seq<char>, m: MessageModel, part: int) -> Seq<char> {
    if part == 0 {
        spec_doc_attrs(m.doc@) + spec_upper_camel_case(m.name@, true) + "("@ + m.body_type@ + "),\n"@
    } else if part == 1 {
        spec_signed_decimal(m.service_id as int) + " => ::core::result::Result::Ok(Self::"@ + spec_upper_camel_case(m.name@, true) + "(F::decode_body(message.body).map_err("@ + fizyr_rpc + "::Error::decode_failed)?)),\n"@
    } else if part == 2 {
        "F: "@ + fizyr_rpc + "::format::DecodeBody<"@ + m.body_type@ + ">,\n"@
    } else if part == 3 {
        "Self::"@ + spec_upper_camel_case(m.name@, true) + "(message) => ::core::result::Result::Ok(("@ + spec_signed_decimal(m.service_id as int) + ", F::encode_body(message)?)),\n"@
    } else if part == 4 {
        "Self::"@ + spec_upper_camel_case(m.name@, true) + "(_) => "@ + spec_signed_decimal(m.service_id as int) + ",\n"@
    } else if part == 5 {
        "F: "@ + fizyr_rpc + "::format::EncodeBody<"@ + m.body_type@ + ">,\n"@
    } else {
        "#[doc = \"Check if the message is a [`Self::"@ + spec_upper_camel_case(m.name@, true) + "`].\"]\npub fn is_"@ + m.name@ + "(&self) -> bool {\n\tif let Self::"@ + spec_upper_camel_case(m.name@, true) + "(_) = self {\n\t\ttrue\n\t} else {\n\t\tfalse\n\t}\n}\n\n#[doc = \"Get the message as [`Self::"@ + spec_upper_camel_case(m.name@, true) + "`] by reference.\"]\npub fn as_"@ + m.name@ + "(&self) -> ::core::option::Option<&"@ + m.body_type@ + "> {\n\tif let Self::"@ + spec_upper_camel_case(m.name@, true) + "(x) = self {\n\t\t::core::option::Option::Some(x)\n\t} else {\n\t\t::core::option::Option::None\n\t}\n}\n\n#[doc = \"Get the message as [`Self::"@ + spec_upper_camel_case(m.name@, true) + "`] by value.\"]\npub fn into_"@ + m.name@ + "(self) -> ::core::result::Result<"@ + m.body_type@ + ", "@ + fizyr_rpc + "::Error> {\n\tlet service_id = self.service_id();\n\tif let Self::"@ + spec_upper_camel_case(m.name@, true) + "(x) = self {\n\t\t::core::result::Result::Ok(x)\n\t} else {\n\t\t::core::result::Result::Err("@ + fizyr_rpc + "::Error::unexpected_service_id(service_id))\n\t}\n}\n\n"@
    }
}

/// One part of the code of a message enum for all of `messages`, in order.
pub open spec fn spec_enum_part(fizyr_rpc: Seq<char>, messages: Seq<MessageModel>, part: int) -> Seq<char>
    decreases messages.len(),
{
    if messages.len() == 0 {
        Seq::<char>::empty()
    } else {
        spec_enum_part(fizyr_rpc, messages.drop_last(), part) + spec_message_piece(fizyr_rpc, messages.last(), part)
    }
}

/// Write the seven parts of the code of a message enum for one message.
fn message_pieces(fizyr_rpc: &str, m: &MessageModel) -> (r: (String, String, String, String, String, String, String))
    ensures
        r.0@ == spec_message_piece(fizyr_rpc@, *m, 0),
        r.1@ == spec_message_piece(fizyr_rpc@, *m, 1),
        r.2@ == spec_message_piece(fizyr_rpc@, *m, 2),
        r.3@ == spec_message_piece(fizyr_rpc@, *m, 3),
        r.4@ == spec_message_piece(fizyr_rpc@, *m, 4),
        r.5@ == spec_message_piece(fizyr_rpc@, *m, 5),
        r.6@ == spec_message_piece(fizyr_rpc@, *m, 6),
{
    proof { reveal(spec_message_piece); }
    let doc_attrs = doc_attrs(&m.doc);
    let variant = to_upper_camel_case(m.name.as_str());
    let mut sid = String::new();
    push_signed_decimal(&mut sid, m.service_id as i64);
    let piece0: String;
    let piece1: String;
    let piece2: String;
    let piece3: String;
    let piece4: String;
    let piece5: String;
    let piece6: String;
    {
        let mut out = String::new();
        out.append(doc_attrs.as_str());
        out.append(variant.as_str());
        out.append("(");
        out.append(m.body_type.as_str());
        out.append("),\n");
        piece0 = out;
        let mut out = String::new();
        out.append(sid.as_str());
        out.append(" => ::core::result::Result::Ok(Self::");
        out.append(variant.as_str());
        out.append("(F::decode_body(message.body).map_err(");
        out.append(fizyr_rpc);
        out.append("::Error::decode_failed)?)),\n");
        piece1 = out;
        let mut out = String::new();
        out.append("F: ");
        out.append(fizyr_rpc);
        out.append("::format::DecodeBody<");
        out.append(m.body_type.as_str());
        out.append(">,\n");
        piece2 = out;
        let mut out = String::new();
        out.append("Self::");
        out.append(variant.as_str());
        out.append("(message) => ::core::result::Result::Ok((");
        out.append(sid.as_str());
        out.append(", F::encode_body(message)?)),\n");
        piece3 = out;
        let mut out = String::new();
        out.append("Self::");
        out.append(variant.as_str());
        out.append("(_) => ");
        out.append(sid.as_str());
        out.append(",\n");
        piece4 = out;
        let mut out = String::new();
        out.append("F: ");
        out.append(fizyr_rpc);
        out.append("::format::EncodeBody<");
        out.append(m.body_type.as_str());
        out.append(">,\n");
        piece5 = out;
        let mut out = String::new();
        out.append("#[doc = \"Check if the message is a [`Self::");
        out.append(variant.as_str());
        out.append("`].\"]\npub fn is_");
        out.append(m.name.as_str());
        out.append("(&self) -> bool {\n\tif let Self::");
        out.append(variant.as_str());
        out.append("(_) = self {\n\t\ttrue\n\t} else {\n\t\tfalse\n\t}\n}\n\n#[doc = \"Get the message as [`Self::");
        out.append(variant.as_str());
        out.append("`] by reference.\"]\npub fn as_");
        out.append(m.name.as_str());
        out.append("(&self) -> ::core::option::Option<&");
        out.append(m.body_type.as_str());
        out.append("> {\n\tif let Self::");
        out.append(variant.as_str());
        out.append("(x) = self {\n\t\t::core::option::Option::Some(x)\n\t} else {\n\t\t::core::option::Option::None\n\t}\n}\n\n#[doc = \"Get the message as [`Self::");
        out.append(variant.as_str());
        out.append("`] by value.\"]\npub fn into_");
        out.append(m.name.as_str());
        out.append("(self) -> ::core::result::Result<");
        out.append(m.body_type.as_str());
        out.append(", ");
        out.append(fizyr_rpc);
        out.append("::Error> {\n\tlet service_id = self.service_id();\n\tif let Self::");
        out.append(variant.as_str());
        out.append("(x) = self {\n\t\t::core::result::Result::Ok(x)\n\t} else {\n\t\t::core::result::Result::Err(");
        out.append(fizyr_rpc);
        out.append("::Error::unexpected_service_id(service_id))\n\t}\n}\n\n");
        piece6 = out;
    }
    (piece0, piece1, piece2, piece3, piece4, piece5, piece6)
}

/// The text of a message enum around the seven parts of its messages' code.
#[verifier::opaque]
pub open spec fn spec_message_enum_text(
    fizyr_rpc: Seq<char>, enum_name: Seq<char>, doc_escaped: Seq<char>,
    p0: Seq<char>, p1: Seq<char>, p2: Seq<char>, p3: Seq<char>, p4: Seq<char>, p5: Seq<char>, p6: Seq<char>,
) -> Seq<char> {
    "#[doc = \""@ + doc_escaped + "\"]\n#[derive(Debug)]\npub enum "@ + enum_name + " {\n"@ + p0 + "}\n\nimpl "@ + enum_name + " {\n\t/// Get the service ID of the message.\n\tfn service_id(&self) -> i32 {\n\t\tmatch self {\n"@ + p4 + "\t\t}\n\t}\n\n"@ + p6 + "}\n\nimpl<F: "@ + fizyr_rpc + "::format::Format> "@ + fizyr_rpc + "::format::FromMessage<F> for "@ + enum_name + "\nwhere\n"@ + p2 + "{\n\tfn from_message(message: "@ + fizyr_rpc + "::Message<F::Body>) -> ::core::result::Result<Self, "@ + fizyr_rpc + "::Error> {\n\t\tmatch message.header.service_id {\n"@ + p1 + "\t\t\tservice_id => ::core::result::Result::Err("@ + fizyr_rpc + "::Error::unexpected_service_id(service_id)),\n\t\t}\n\t}\n}\n\nimpl<F: "@ + fizyr_rpc + "::format::Format> "@ + fizyr_rpc + "::format::ToMessage<F> for "@ + enum_name + "\nwhere\n"@ + p5 + "{\n\tfn to_message(&self) -> ::core::result::Result<(i32, F::Body), ::std::boxed::Box<dyn ::std::error::Error + ::core::marker::Send>> {\n\t\tmatch self {\n"@ + p3 + "\t\t}\n\t}\n}\n"@
}

/// The enum of all messages of one kind of an interface, with its conversions from and to messages.
pub open spec fn spec_message_enum_code(fizyr_rpc: Seq<char>, messages: Seq<MessageModel>, enum_name: Seq<char>, enum_doc: Seq<char>) -> Seq<char> {
    spec_message_enum_text(
        fizyr_rpc, enum_name, spec_escape(enum_doc),
        spec_enum_part(fizyr_rpc, messages, 0), spec_enum_part(fizyr_rpc, messages, 1),
        spec_enum_part(fizyr_rpc, messages, 2), spec_enum_part(fizyr_rpc, messages, 3),
        spec_enum_part(fizyr_rpc, messages, 4), spec_enum_part(fizyr_rpc, messages, 5),
        spec_enum_part(fizyr_rpc, messages, 6),
    )
}

/// Write the text of a message enum around the seven parts of its messages' code.
fn message_enum_text(
    fizyr_rpc: &str, enum_name: &str, doc_escaped: &str,
    p0: &str, p1: &str, p2: &str, p3: &str, p4: &str, p5: &str, p6: &str,
) -> (r: String)
    ensures
        r@ == spec_message_enum_text(fizyr_rpc@, enum_name@, doc_escaped@, p0@, p1@, p2@, p3@, p4@, p5@, p6@),
{
    proof { reveal(spec_message_enum_text); }
    let mut out = String::new();
    out.append("#[doc = \"");
    out.append(doc_escaped);
    out.append("\"]\n#[derive(Debug)]\npub enum ");
    out.append(enum_name);
    out.append(" {\n");
    out.append(p0);
    out.append("}\n\nimpl ");
    out.append(enum_name);
    out.append(" {\n\t/// Get the service ID of the message.\n\tfn service_id(&self) -> i32 {\n\t\tmatch self {\n");
    out.append(p4);
    out.append("\t\t}\n\t}\n\n");
    out.append(p6);
    out.append("}\n\nimpl<F: ");
    out.append(fizyr_rpc);
    out.append("::format::Format> ");
    out.append(fizyr_rpc);
    out.append("::format::FromMessage<F> for ");
    out.append(enum_name);
    out.append("\nwhere\n");
    out.append(p2);
    out.append("{\n\tfn from_message(message: ");
    out.append(fizyr_rpc);
    out.append("::Message<F::Body>) -> ::core::result::Result<Self, ");
    out.append(fizyr_rpc);
    out.append("::Error> {\n\t\tmatch message.header.service_id {\n");
    out.append(p1);
    out.append("\t\t\tservice_id => ::core::result::Result::Err(");
    out.append(fizyr_rpc);
    out.append("::Error::unexpected_service_id(service_id)),\n\t\t}\n\t}\n}\n\nimpl<F: ");
    out.append(fizyr_rpc);
    out.append("::format::Format> ");
    out.append(fizyr_rpc);
    out.append("::format::ToMessage<F> for ");
    out.append(enum_name);
    out.append("\nwhere\n");
    out.append(p5);
    out.append("{\n\tfn to_message(&self) -> ::core::result::Result<(i32, F::Body), ::std::boxed::Box<dyn ::std::error::Error + ::core::marker::Send>> {\n\t\tmatch self {\n");
    out.append(p3);
    out.append("\t\t}\n\t}\n}\n");
    out
}

/// Generate the enum of all messages of one kind of an interface.
///
/// Each message becomes a variant named after it in `UpperCamelCase`, with its body type;
/// the enum is converted from and to messages by service ID.
pub fn generate_message_enum(fizyr_rpc: &str, messages: &Vec<MessageModel>, enum_name: &str, enum_doc: &str) -> (r: String)
    ensures
        r@ == spec_message_enum_code(fizyr_rpc@, messages@, enum_name@, enum_doc@),
{
    let mut p0 = String::new();
    let mut p1 = String::new();
    let mut p2 = String::new();
    let mut p3 = String::new();
    let mut p4 = String::new();
    let mut p5 = String::new();
    let mut p6 = String::new();
    let mut i: usize = 0;
    assert(messages@.take(0) =~= Seq::<MessageModel>::empty());
    while i < messages.len()
        invariant
            i <= messages@.len(),
            p0@ == spec_enum_part(fizyr_rpc@, messages@.take(i as int), 0),
            p1@ == spec_enum_part(fizyr_rpc@, messages@.take(i as int), 1),
            p2@ == spec_enum_part(fizyr_rpc@, messages@.take(i as int), 2),
            p3@ == spec_enum_part(fizyr_rpc@, messages@.take(i as int), 3),
            p4@ == spec_enum_part(fizyr_rpc@, messages@.take(i as int), 4),
            p5@ == spec_enum_part(fizyr_rpc@, messages@.take(i as int), 5),
            p6@ == spec_enum_part(fizyr_rpc@, messages@.take(i as int), 6),
        decreases messages@.len() - i,
    {
        let (q0, q1, q2, q3, q4, q5, q6) = message_pieces(fizyr_rpc, &messages[i]);
        p0.append(q0.as_str());
        p1.append(q1.as_str());
        p2.append(q2.as_str());
        p3.append(q3.as_str());
        p4.append(q4.as_str());
        p5.append(q5.as_str());
        p6.append(q6.as_str());
        assert(messages@.take(i + 1).drop_last() =~= messages@.take(i as int));
        i += 1;
    }
    assert(messages@.take(messages@.len() as int) =~= messages@);
    let doc_escaped = escape(enum_doc);
    message_enum_text(
        fizyr_rpc, enum_name, doc_escaped.as_str(),
        p0.as_str(), p1.as_str(), p2.as_str(), p3.as_str(), p4.as_str(), p5.as_str(), p6.as_str(),
    )
}

/// The function that sends one update of a request.
#[verifier::opaque]
pub open spec fn spec_send_update_fn_text(name: Seq<char>, body_arg: Seq<char>, body_type: Seq<char>, body_val: Seq<char>, sid: Seq<char>, fizyr_rpc: Seq<char>) -> Seq<char> {
    "#[doc = \"Send a `"@ + name + "` update to the remote peer.\"]\n#[allow(clippy::ptr_arg)]\npub async fn send_"@ + name + "_update(&self, "@ + body_arg + ") -> ::core::result::Result<(), "@ + fizyr_rpc + "::Error>\nwhere\n\tF: "@ + fizyr_rpc + "::util::format::EncodeBody<"@ + body_type + ">,\n{\n\tlet body = F::encode_body("@ + body_val + ").map_err("@ + fizyr_rpc + "::Error::encode_failed)?;\n\tself.request.send_update("@ + sid + ", body).await?;\n\t::core::result::Result::Ok(())\n}\n"@
}

/// Write the function that sends one update of a request.
fn send_update_fn_text(name: &str, body_arg: &str, body_type: &str, body_val: &str, sid: &str, fizyr_rpc: &str) -> (r: String)
    ensures
        r@ == spec_send_update_fn_text(name@, body_arg@, body_type@, body_val@, sid@, fizyr_rpc@),
{
    proof { reveal(spec_send_update_fn_text); }
    let mut out = String::new();
    out.append("#[doc = \"Send a `");
    out.append(name);
    out.append("` update to the remote peer.\"]\n#[allow(clippy::ptr_arg)]\npub async fn send_");
    out.append(name);
    out.append("_update(&self, ");
    out.append(body_arg);
    out.append(") -> ::core::result::Result<(), ");
    out.append(fizyr_rpc);
    out.append("::Error>\nwhere\n\tF: ");
    out.append(fizyr_rpc);
    out.append("::util::format::EncodeBody<");
    out.append(body_type);
    out.append(">,\n{\n\tlet body = F::encode_body(");
    out.append(body_val);
    out.append(").map_err(");
    out.append(fizyr_rpc);
    out.append("::Error::encode_failed)?;\n\tself.request.send_update(");
    out.append(sid);
    out.append(", body).await?;\n\t::core::result::Result::Ok(())\n}\n");
    out
}

/// The bound that lets a format decode an update body.
#[verifier::opaque]
pub open spec fn spec_update_bound_text(fizyr_rpc: Seq<char>, body_type: Seq<char>) -> Seq<char> {
    "F: "@ + fizyr_rpc + "::util::format::DecodeBody<"@ + body_type + ">,\n"@
}

/// Write the bound that lets a format decode an update body.
fn update_bound_text(fizyr_rpc: &str, body_type: &str) -> (r: String)
    ensures
        r@ == spec_update_bound_text(fizyr_rpc@, body_type@),
{
    proof { reveal(spec_update_bound_text); }
    let mut out = String::new();
    out.append("F: ");
    out.append(fizyr_rpc);
    out.append("::util::format::DecodeBody<");
    out.append(body_type);
    out.append(">,\n");
    out
}

/// The match arm that decodes one update.
#[verifier::opaque]
pub open spec fn spec_decode_arm_text(sid: Seq<char>, kind: Seq<char>, variant: Seq<char>, fizyr_rpc: Seq<char>) -> Seq<char> {
    sid + " => {\n\tmatch F::decode_body(update.body) {\n\t\t::core::result::Result::Ok(body) => {\n\t\t\t::core::result::Result::Ok("@ + kind + "::"@ + variant + "(body))\n\t\t},\n\t\t::core::result::Result::Err(e) => {\n\t\t\t::core::result::Result::Err("@ + fizyr_rpc + "::ParseUpdateError::InvalidUpdate(update.header, e))\n\t\t},\n\t}\n},\n"@
}

/// Write the match arm that decodes one update.
fn decode_arm_text(sid: &str, kind: &str, variant: &str, fizyr_rpc: &str) -> (r: String)
    ensures
        r@ == spec_decode_arm_text(sid@, kind@, variant@, fizyr_rpc@),
{
    proof { reveal(spec_decode_arm_text); }
    let mut out = String::new();
    out.append(sid);
    out.append(" => {\n\tmatch F::decode_body(update.body) {\n\t\t::core::result::Result::Ok(body) => {\n\t\t\t::core::result::Result::Ok(");
    out.append(kind);
    out.append("::");
    out.append(variant);
    out.append("(body))\n\t\t},\n\t\t::core::result::Result::Err(e) => {\n\t\t\t::core::result::Result::Err(");
    out.append(fizyr_rpc);
    out.append("::ParseUpdateError::InvalidUpdate(update.header, e))\n\t\t},\n\t}\n},\n");
    out
}

/// The function that receives the updates of a request.
#[verifier::opaque]
pub open spec fn spec_recv_update_fn_text(doc: Seq<char>, kind: Seq<char>, fizyr_rpc: Seq<char>, bounds: Seq<char>, arms: Seq<char>) -> Seq<char> {
    doc + "pub async fn recv_update(&mut self) -> ::core::option::Option<::core::result::Result<"@ + kind + ", "@ + fizyr_rpc + "::ParseUpdateError<F::Body>>>\nwhere\n"@ + bounds + "{\n\tlet update = self.request.recv_update().await?;\n\t::core::option::Option::Some(match update.header.service_id {\n"@ + arms + "\t\t_ => ::core::result::Result::Err("@ + fizyr_rpc + "::ParseUpdateError::UnknownUpdate(update))\n\t})\n}\n"@
}

/// Write the function that receives the updates of a request.
fn recv_update_fn_text(doc: &str, kind: &str, fizyr_rpc: &str, bounds: &str, arms: &str) -> (r: String)
    ensures
        r@ == spec_recv_update_fn_text(doc@, kind@, fizyr_rpc@, bounds@, arms@),
{
    proof { reveal(spec_recv_update_fn_text); }
    let mut out = String::new();
    out.append(doc);
    out.append("pub async fn recv_update(&mut self) -> ::core::option::Option<::core::result::Result<");
    out.append(kind);
    out.append(", ");
    out.append(fizyr_rpc);
    out.append("::ParseUpdateError<F::Body>>>\nwhere\n");
    out.append(bounds);
    out.append("{\n\tlet update = self.request.recv_update().await?;\n\t::core::option::Option::Some(match update.header.service_id {\n");
    out.append(arms);
    out.append("\t\t_ => ::core::result::Result::Err(");
    out.append(fizyr_rpc);
    out.append("::ParseUpdateError::UnknownUpdate(update))\n\t})\n}\n");
    out
}

/// The function that receives the response of a sent request.
#[verifier::opaque]
pub open spec fn spec_recv_response_fn_text(doc_recv_update: Seq<char>, response_type: Seq<char>, fizyr_rpc: Seq<char>) -> Seq<char> {
    "/// Receive the final response.\n///\n/// If an update message is received instead of the final response an error is returned.\n/// The update message will remain in the message queue and must be read before the response can be received.\n///\n"@ + doc_recv_update + "pub async fn recv_response(&mut self) -> ::core::result::Result<"@ + response_type + ", "@ + fizyr_rpc + "::Error>\nwhere\n\tF: "@ + fizyr_rpc + "::util::format::DecodeBody<"@ + response_type + ">,\n{\n\tlet response = self.request.recv_response().await?;\n\tif response.header.service_id == "@ + fizyr_rpc + "::service_id::ERROR {\n\t\tuse "@ + fizyr_rpc + "::Body;\n\t\tlet message = response.body\n\t\t\t.into_error()\n\t\t\t.map_err(|e| "@ + fizyr_rpc + "::Error::decode_failed(::std::boxed::Box::new(e)))?;\n\t\t::core::result::Result::Err("@ + fizyr_rpc + "::Error::remote_error(message))\n\t} else {\n\t\tlet decoded = F::decode_body(response.body).map_err("@ + fizyr_rpc + "::Error::decode_failed)?;\n\t\t::core::result::Result::Ok(decoded)\n\t}\n}\n"@
}

/// Write the function that receives the response of a sent request.
fn recv_response_fn_text(doc_recv_update: &str, response_type: &str, fizyr_rpc: &str) -> (r: String)
    ensures
        r@ == spec_recv_response_fn_text(doc_recv_update@, response_type@, fizyr_rpc@),
{
    proof { reveal(spec_recv_response_fn_text); }
    let mut out = String::new();
    out.append("/// Receive the final response.\n///\n/// If an update message is received instead of the final response an error is returned.\n/// The update message will remain in the message queue and must be read before the response can be received.\n///\n");
    out.append(doc_recv_update);
    out.append("pub async fn recv_response(&mut self) -> ::core::result::Result<");
    out.append(response_type);
    out.append(", ");
    out.append(fizyr_rpc);
    out.append("::Error>\nwhere\n\tF: ");
    out.append(fizyr_rpc);
    out.append("::util::format::DecodeBody<");
    out.append(response_type);
    out.append(">,\n{\n\tlet response = self.request.recv_response().await?;\n\tif response.header.service_id == ");
    out.append(fizyr_rpc);
    out.append("::service_id::ERROR {\n\t\tuse ");
    out.append(fizyr_rpc);
    out.append("::Body;\n\t\tlet message = response.body\n\t\t\t.into_error()\n\t\t\t.map_err(|e| ");
    out.append(fizyr_rpc);
    out.append("::Error::decode_failed(::std::boxed::Box::new(e)))?;\n\t\t::core::result::Result::Err(");
    out.append(fizyr_rpc);
    out.append("::Error::remote_error(message))\n\t} else {\n\t\tlet decoded = F::decode_body(response.body).map_err(");
    out.append(fizyr_rpc);
    out.append("::Error::decode_failed)?;\n\t\t::core::result::Result::Ok(decoded)\n\t}\n}\n");
    out
}

/// The handle types of a sent request of a service.
#[verifier::opaque]
pub open spec fn spec_sent_request_handles_text(handle_doc: Seq<char>, write_handle_doc: Seq<char>, fizyr_rpc: Seq<char>, read_impl: Seq<char>, write_impl: Seq<char>) -> Seq<char> {
    "#[doc = \""@ + handle_doc + "\"]\npub struct SentRequestHandle<F: "@ + fizyr_rpc + "::util::format::Format> {\n\tpub(super) request: "@ + fizyr_rpc + "::SentRequestHandle<F::Body>,\n}\n\n#[doc = \""@ + write_handle_doc + "\"]\npub struct SentRequestWriteHandle<F: "@ + fizyr_rpc + "::util::format::Format> {\n\tpub(super) request: "@ + fizyr_rpc + "::SentRequestWriteHandle<F::Body>,\n}\n\nimpl<F: "@ + fizyr_rpc + "::util::format::Format> ::core::fmt::Debug for SentRequestHandle<F> {\n\tfn fmt(&self, f: &mut ::core::fmt::Formatter) -> ::core::fmt::Result {\n\t\tf.debug_struct(::core::any::type_name::<Self>())\n\t\t\t.field(\"request_id\", &self.request_id())\n\t\t\t.field(\"service_id\", &self.service_id())\n\t\t\t.finish()\n\t}\n}\n\nimpl<F: "@ + fizyr_rpc + "::util::format::Format> ::core::fmt::Debug for SentRequestWriteHandle<F> {\n\tfn fmt(&self, f: &mut ::core::fmt::Formatter) -> ::core::fmt::Result {\n\t\tf.debug_struct(::core::any::type_name::<Self>())\n\t\t\t.field(\"request_id\", &self.request_id())\n\t\t\t.field(\"service_id\", &self.service_id())\n\t\t\t.finish()\n\t}\n}\n\nimpl<F: "@ + fizyr_rpc + "::util::format::Format> ::core::clone::Clone for SentRequestWriteHandle<F> {\n\tfn clone(&self) -> Self {\n\t\tSelf {\n\t\t\trequest: self.request.clone(),\n\t\t}\n\t}\n}\n\nimpl<F: "@ + fizyr_rpc + "::util::format::Format> SentRequestHandle<F> {\n\t/// Get the raw request.\n\tpub fn inner(&self) -> &"@ + fizyr_rpc + "::SentRequestHandle<F::Body> {\n\t\t&self.request\n\t}\n\n\t/// Get an exclusive reference to the raw request.\n\tpub fn inner_mut(&self) -> &"@ + fizyr_rpc + "::SentRequestHandle<F::Body> {\n\t\t&self.request\n\t}\n\n\t/// Consume this object to get the raw request.\n\tpub fn into_inner(self) -> "@ + fizyr_rpc + "::SentRequestHandle<F::Body> {\n\t\tself.request\n\t}\n\n\t/// Get the request ID.\n\tpub fn request_id(&self) -> u32 {\n\t\tself.request.request_id()\n\t}\n\n\t/// Get the service ID of the request.\n\tpub fn service_id(&self) -> i32 {\n\t\tself.request.service_id()\n\t}\n\n\t/// Get a write handle for the sent request.\n\t///\n\t/// The write handle can be cloned and sent to other threads freely,\n\t/// but it can not be used to receive update messages or the final response.\n\tpub fn write_handle(&self) -> SentRequestWriteHandle<F> {\n\t\tSentRequestWriteHandle {\n\t\t\trequest: self.request.write_handle(),\n\t\t}\n\t}\n\n"@ + read_impl + "\n"@ + write_impl + "}\n\nimpl<F: "@ + fizyr_rpc + "::util::format::Format> SentRequestWriteHandle<F> {\n\t/// Get the raw request.\n\tpub fn inner(&self) -> &"@ + fizyr_rpc + "::SentRequestWriteHandle<F::Body> {\n\t\t&self.request\n\t}\n\n\t/// Get an exclusive reference to the raw request.\n\tpub fn inner_mut(&self) -> &"@ + fizyr_rpc + "::SentRequestWriteHandle<F::Body> {\n\t\t&self.request\n\t}\n\n\t/// Consume this object to get the raw request.\n\tpub fn into_inner(self) -> "@ + fizyr_rpc + "::SentRequestWriteHandle<F::Body> {\n\t\tself.request\n\t}\n\n\t/// Get the request ID.\n\tpub fn request_id(&self) -> u32 {\n\t\tself.request.request_id()\n\t}\n\n\t/// Get the service ID of the request.\n\tpub fn service_id(&self) -> i32 {\n\t\tself.request.service_id()\n\t}\n\n"@ + write_impl + "}\n"@
}

/// Write the handle types of a sent request of a service.
fn sent_request_handles_text(handle_doc: &str, write_handle_doc: &str, fizyr_rpc: &str, read_impl: &str, write_impl: &str) -> (r: String)
    ensures
        r@ == spec_sent_request_handles_text(handle_doc@, write_handle_doc@, fizyr_rpc@, read_impl@, write_impl@),
{
    proof { reveal(spec_sent_request_handles_text); }
    let mut out = String::new();
    out.append("#[doc = \"");
    out.append(handle_doc);
    out.append("\"]\npub struct SentRequestHandle<F: ");
    out.append(fizyr_rpc);
    out.append("::util::format::Format> {\n\tpub(super) request: ");
    out.append(fizyr_rpc);
    out.append("::SentRequestHandle<F::Body>,\n}\n\n#[doc = \"");
    out.append(write_handle_doc);
    out.append("\"]\npub struct SentRequestWriteHandle<F: ");
    out.append(fizyr_rpc);
    out.append("::util::format::Format> {\n\tpub(super) request: ");
    out.append(fizyr_rpc);
    out.append("::SentRequestWriteHandle<F::Body>,\n}\n\nimpl<F: ");
    out.append(fizyr_rpc);
    out.append("::util::format::Format> ::core::fmt::Debug for SentRequestHandle<F> {\n\tfn fmt(&self, f: &mut ::core::fmt::Formatter) -> ::core::fmt::Result {\n\t\tf.debug_struct(::core::any::type_name::<Self>())\n\t\t\t.field(\"request_id\", &self.request_id())\n\t\t\t.field(\"service_id\", &self.service_id())\n\t\t\t.finish()\n\t}\n}\n\nimpl<F: ");
    out.append(fizyr_rpc);
    out.append("::util::format::Format> ::core::fmt::Debug for SentRequestWriteHandle<F> {\n\tfn fmt(&self, f: &mut ::core::fmt::Formatter) -> ::core::fmt::Result {\n\t\tf.debug_struct(::core::any::type_name::<Self>())\n\t\t\t.field(\"request_id\", &self.request_id())\n\t\t\t.field(\"service_id\", &self.service_id())\n\t\t\t.finish()\n\t}\n}\n\nimpl<F: ");
    out.append(fizyr_rpc);
    out.append("::util::format::Format> ::core::clone::Clone for SentRequestWriteHandle<F> {\n\tfn clone(&self) -> Self {\n\t\tSelf {\n\t\t\trequest: self.request.clone(),\n\t\t}\n\t}\n}\n\nimpl<F: ");
    out.append(fizyr_rpc);
    out.append("::util::format::Format> SentRequestHandle<F> {\n\t/// Get the raw request.\n\tpub fn inner(&self) -> &");
    out.append(fizyr_rpc);
    out.append("::SentRequestHandle<F::Body> {\n\t\t&self.request\n\t}\n\n\t/// Get an exclusive reference to the raw request.\n\tpub fn inner_mut(&self) -> &");
    out.append(fizyr_rpc);
    out.append("::SentRequestHandle<F::Body> {\n\t\t&self.request\n\t}\n\n\t/// Consume this object to get the raw request.\n\tpub fn into_inner(self) -> ");
    out.append(fizyr_rpc);
    out.append("::SentRequestHandle<F::Body> {\n\t\tself.request\n\t}\n\n\t/// Get the request ID.\n\tpub fn request_id(&self) -> u32 {\n\t\tself.request.request_id()\n\t}\n\n\t/// Get the service ID of the request.\n\tpub fn service_id(&self) -> i32 {\n\t\tself.request.service_id()\n\t}\n\n\t/// Get a write handle for the sent request.\n\t///\n\t/// The write handle can be cloned and sent to other threads freely,\n\t/// but it can not be used to receive update messages or the final response.\n\tpub fn write_handle(&self) -> SentRequestWriteHandle<F> {\n\t\tSentRequestWriteHandle {\n\t\t\trequest: self.request.write_handle(),\n\t\t}\n\t}\n\n");
    out.append(read_impl);
    out.append("\n");
    out.append(write_impl);
    out.append("}\n\nimpl<F: ");
    out.append(fizyr_rpc);
    out.append("::util::format::Format> SentRequestWriteHandle<F> {\n\t/// Get the raw request.\n\tpub fn inner(&self) -> &");
    out.append(fizyr_rpc);
    out.append("::SentRequestWriteHandle<F::Body> {\n\t\t&self.request\n\t}\n\n\t/// Get an exclusive reference to the raw request.\n\tpub fn inner_mut(&self) -> &");
    out.append(fizyr_rpc);
    out.append("::SentRequestWriteHandle<F::Body> {\n\t\t&self.request\n\t}\n\n\t/// Consume this object to get the raw request.\n\tpub fn into_inner(self) -> ");
    out.append(fizyr_rpc);
    out.append("::SentRequestWriteHandle<F::Body> {\n\t\tself.request\n\t}\n\n\t/// Get the request ID.\n\tpub fn request_id(&self) -> u32 {\n\t\tself.request.request_id()\n\t}\n\n\t/// Get the service ID of the request.\n\tpub fn service_id(&self) -> i32 {\n\t\tself.request.service_id()\n\t}\n\n");
    out.append(write_impl);
    out.append("}\n");
    out
}

/// The handle types of a received request of a service.
#[verifier::opaque]
pub open spec fn spec_received_request_handles_text(handle_doc: Seq<char>, write_handle_doc: Seq<char>, fizyr_rpc: Seq<char>, read_impl: Seq<char>, write_impl: Seq<char>) -> Seq<char> {
    "#[doc = \""@ + handle_doc + "\"]\npub struct ReceivedRequestHandle<F: "@ + fizyr_rpc + "::util::format::Format> {\n\tpub(super) request: "@ + fizyr_rpc + "::ReceivedRequestHandle<F::Body>,\n}\n\n#[doc = \""@ + write_handle_doc + "\"]\npub struct ReceivedRequestWriteHandle<F: "@ + fizyr_rpc + "::util::format::Format> {\n\tpub(super) request: "@ + fizyr_rpc + "::ReceivedRequestWriteHandle<F::Body>,\n}\n\nimpl<F: "@ + fizyr_rpc + "::util::format::Format> ::core::fmt::Debug for ReceivedRequestHandle<F> {\n\tfn fmt(&self, f: &mut ::core::fmt::Formatter) -> ::core::fmt::Result {\n\t\tf.debug_struct(::core::any::type_name::<Self>())\n\t\t\t.field(\"request_id\", &self.request_id())\n\t\t\t.field(\"service_id\", &self.service_id())\n\t\t\t.finish()\n\t}\n}\n\nimpl<F: "@ + fizyr_rpc + "::util::format::Format> ::core::fmt::Debug for ReceivedRequestWriteHandle<F> {\n\tfn fmt(&self, f: &mut ::core::fmt::Formatter) -> ::core::fmt::Result {\n\t\tf.debug_struct(::core::any::type_name::<Self>())\n\t\t\t.field(\"request_id\", &self.request_id())\n\t\t\t.field(\"service_id\", &self.service_id())\n\t\t\t.finish()\n\t}\n}\n\nimpl<F: "@ + fizyr_rpc + "::util::format::Format> ::core::clone::Clone for ReceivedRequestWriteHandle<F> {\n\tfn clone(&self) -> Self {\n\t\tSelf {\n\t\t\trequest: self.request.clone(),\n\t\t}\n\t}\n}\n\nimpl<F: "@ + fizyr_rpc + "::util::format::Format> ReceivedRequestHandle<F> {\n\t/// Get the raw request.\n\t///\n\t/// Note that the request body has been consumed when it was parsed.\n\t/// As a result, the raw request always has an empty body.\n\tpub fn inner(&self) -> &"@ + fizyr_rpc + "::ReceivedRequestHandle<F::Body> {\n\t\t&self.request\n\t}\n\n\t/// Get an exclusive reference to the raw request.\n\t///\n\t/// Note that the request body has been consumed when it was parsed.\n\t/// As a result, the raw request always has an empty body.\n\tpub fn inner_mut(&self) -> &"@ + fizyr_rpc + "::ReceivedRequestHandle<F::Body> {\n\t\t&self.request\n\t}\n\n\t/// Consume this object to get the raw request.\n\t///\n\t/// Note that the request body has been consumed when it was parsed.\n\t/// As a result, the raw request always has an empty body.\n\tpub fn into_inner(self) -> "@ + fizyr_rpc + "::ReceivedRequestHandle<F::Body> {\n\t\tself.request\n\t}\n\n\t/// Get the request ID.\n\tpub fn request_id(&self) -> u32 {\n\t\tself.request.request_id()\n\t}\n\n\t/// Get the service ID of the request.\n\tpub fn service_id(&self) -> i32 {\n\t\tself.request.service_id()\n\t}\n\n\t/// Get a write handle for the received request.\n\t///\n\t/// The write handle can be cloned and sent to other threads freely,\n\t/// but it can not be used to receive update messages.\n\tpub fn write_handle(&self) -> ReceivedRequestWriteHandle<F> {\n\t\tReceivedRequestWriteHandle {\n\t\t\trequest: self.request.write_handle(),\n\t\t}\n\t}\n\n"@ + read_impl + "\n"@ + write_impl + "}\n\nimpl<F: "@ + fizyr_rpc + "::util::format::Format> ReceivedRequestWriteHandle<F> {\n\t/// Get the raw request.\n\t///\n\t/// Note that the request body has been consumed when it was parsed.\n\t/// As a result, the raw request always has an empty body.\n\tpub fn inner(&self) -> &"@ + fizyr_rpc + "::ReceivedRequestWriteHandle<F::Body> {\n\t\t&self.request\n\t}\n\n\t/// Get an exclusive reference to the raw request.\n\t///\n\t/// Note that the request body has been consumed when it was parsed.\n\t/// As a result, the raw request always has an empty body.\n\tpub fn inner_mut(&self) -> &"@ + fizyr_rpc + "::ReceivedRequestWriteHandle<F::Body> {\n\t\t&self.request\n\t}\n\n\t/// Consume this object to get the raw request.\n\t///\n\t/// Note that the request body has been consumed when it was parsed.\n\t/// As a result, the raw request always has an empty body.\n\tpub fn into_inner(self) -> "@ + fizyr_rpc + "::ReceivedRequestWriteHandle<F::Body> {\n\t\tself.request\n\t}\n\n\t/// Get the request ID.\n\tpub fn request_id(&self) -> u32 {\n\t\tself.request.request_id()\n\t}\n\n\t/// Get the service ID of the request.\n\tpub fn service_id(&self) -> i32 {\n\t\tself.request.service_id()\n\t}\n\n"@ + write_impl + "}\n"@
}

/// Write the handle types of a received request of a service.
fn received_request_handles_text(handle_doc: &str, write_handle_doc: &str, fizyr_rpc: &str, read_impl: &str, write_impl: &str) -> (r: String)
    ensures
        r@ == spec_received_request_handles_text(handle_doc@, write_handle_doc@, fizyr_rpc@, read_impl@, write_impl@),
{
    proof { reveal(spec_received_request_handles_text); }
    let mut out = String::new();
    out.append("#[doc = \"");
    out.append(handle_doc);
    out.append("\"]\npub struct ReceivedRequestHandle<F: ");
    out.append(fizyr_rpc);
    out.append("::util::format::Format> {\n\tpub(super) request: ");
    out.append(fizyr_rpc);
    out.append("::ReceivedRequestHandle<F::Body>,\n}\n\n#[doc = \"");
    out.append(write_handle_doc);
    out.append("\"]\npub struct ReceivedRequestWriteHandle<F: ");
    out.append(fizyr_rpc);
    out.append("::util::format::Format> {\n\tpub(super) request: ");
    out.append(fizyr_rpc);
    out.append("::ReceivedRequestWriteHandle<F::Body>,\n}\n\nimpl<F: ");
    out.append(fizyr_rpc);
    out.append("::util::format::Format> ::core::fmt::Debug for ReceivedRequestHandle<F> {\n\tfn fmt(&self, f: &mut ::core::fmt::Formatter) -> ::core::fmt::Result {\n\t\tf.debug_struct(::core::any::type_name::<Self>())\n\t\t\t.field(\"request_id\", &self.request_id())\n\t\t\t.field(\"service_id\", &self.service_id())\n\t\t\t.finish()\n\t}\n}\n\nimpl<F: ");
    out.append(fizyr_rpc);
    out.append("::util::format::Format> ::core::fmt::Debug for ReceivedRequestWriteHandle<F> {\n\tfn fmt(&self, f: &mut ::core::fmt::Formatter) -> ::core::fmt::Result {\n\t\tf.debug_struct(::core::any::type_name::<Self>())\n\t\t\t.field(\"request_id\", &self.request_id())\n\t\t\t.field(\"service_id\", &self.service_id())\n\t\t\t.finish()\n\t}\n}\n\nimpl<F: ");
    out.append(fizyr_rpc);
    out.append("::util::format::Format> ::core::clone::Clone for ReceivedRequestWriteHandle<F> {\n\tfn clone(&self) -> Self {\n\t\tSelf {\n\t\t\trequest: self.request.clone(),\n\t\t}\n\t}\n}\n\nimpl<F: ");
    out.append(fizyr_rpc);
    out.append("::util::format::Format> ReceivedRequestHandle<F> {\n\t/// Get the raw request.\n\t///\n\t/// Note that the request body has been consumed when it was parsed.\n\t/// As a result, the raw request always has an empty body.\n\tpub fn inner(&self) -> &");
    out.append(fizyr_rpc);
    out.append("::ReceivedRequestHandle<F::Body> {\n\t\t&self.request\n\t}\n\n\t/// Get an exclusive reference to the raw request.\n\t///\n\t/// Note that the request body has been consumed when it was parsed.\n\t/// As a result, the raw request always has an empty body.\n\tpub fn inner_mut(&self) -> &");
    out.append(fizyr_rpc);
    out.append("::ReceivedRequestHandle<F::Body> {\n\t\t&self.request\n\t}\n\n\t/// Consume this object to get the raw request.\n\t///\n\t/// Note that the request body has been consumed when it was parsed.\n\t/// As a result, the raw request always has an empty body.\n\tpub fn into_inner(self) -> ");
    out.append(fizyr_rpc);
    out.append("::ReceivedRequestHandle<F::Body> {\n\t\tself.request\n\t}\n\n\t/// Get the request ID.\n\tpub fn request_id(&self) -> u32 {\n\t\tself.request.request_id()\n\t}\n\n\t/// Get the service ID of the request.\n\tpub fn service_id(&self) -> i32 {\n\t\tself.request.service_id()\n\t}\n\n\t/// Get a write handle for the received request.\n\t///\n\t/// The write handle can be cloned and sent to other threads freely,\n\t/// but it can not be used to receive update messages.\n\tpub fn write_handle(&self) -> ReceivedRequestWriteHandle<F> {\n\t\tReceivedRequestWriteHandle {\n\t\t\trequest: self.request.write_handle(),\n\t\t}\n\t}\n\n");
    out.append(read_impl);
    out.append("\n");
    out.append(write_impl);
    out.append("}\n\nimpl<F: ");
    out.append(fizyr_rpc);
    out.append("::util::format::Format> ReceivedRequestWriteHandle<F> {\n\t/// Get the raw request.\n\t///\n\t/// Note that the request body has been consumed when it was parsed.\n\t/// As a result, the raw request always has an empty body.\n\tpub fn inner(&self) -> &");
    out.append(fizyr_rpc);
    out.append("::ReceivedRequestWriteHandle<F::Body> {\n\t\t&self.request\n\t}\n\n\t/// Get an exclusive reference to the raw request.\n\t///\n\t/// Note that the request body has been consumed when it was parsed.\n\t/// As a result, the raw request always has an empty body.\n\tpub fn inner_mut(&self) -> &");
    out.append(fizyr_rpc);
    out.append("::ReceivedRequestWriteHandle<F::Body> {\n\t\t&self.request\n\t}\n\n\t/// Consume this object to get the raw request.\n\t///\n\t/// Note that the request body has been consumed when it was parsed.\n\t/// As a result, the raw request always has an empty body.\n\tpub fn into_inner(self) -> ");
    out.append(fizyr_rpc);
    out.append("::ReceivedRequestWriteHandle<F::Body> {\n\t\tself.request\n\t}\n\n\t/// Get the request ID.\n\tpub fn request_id(&self) -> u32 {\n\t\tself.request.request_id()\n\t}\n\n\t/// Get the service ID of the request.\n\tpub fn service_id(&self) -> i32 {\n\t\tself.request.service_id()\n\t}\n\n");
    out.append(write_impl);
    out.append("}\n");
    out
}

/// The functions that send the response to a received request.
#[verifier::opaque]
pub open spec fn spec_send_response_fns_text(response_type: Seq<char>, fizyr_rpc: Seq<char>, sid: Seq<char>) -> Seq<char> {
    "/// Send the final response.\n#[allow(clippy::ptr_arg)]\npub async fn send_response(&self, response: &"@ + response_type + ") -> ::core::result::Result<(), "@ + fizyr_rpc + "::Error>\nwhere\n\tF: "@ + fizyr_rpc + "::util::format::EncodeBody<"@ + response_type + ">,\n{\n\tlet encoded = F::encode_body(response).map_err("@ + fizyr_rpc + "::Error::encode_failed)?;\n\tlet response = self.request.send_response("@ + sid + ", encoded).await?;\n\t::core::result::Result::Ok(())\n}\n\n/// Send the final response.\npub async fn send_error_response(&self, error: &str) -> ::core::result::Result<(), "@ + fizyr_rpc + "::Error> {\n\t::core::result::Result::Ok(self.request.send_error_response(error).await?)\n}\n"@
}

/// Write the functions that send the response to a received request.
fn send_response_fns_text(response_type: &str, fizyr_rpc: &str, sid: &str) -> (r: String)
    ensures
        r@ == spec_send_response_fns_text(response_type@, fizyr_rpc@, sid@),
{
    proof { reveal(spec_send_response_fns_text); }
    let mut out = String::new();
    out.append("/// Send the final response.\n#[allow(clippy::ptr_arg)]\npub async fn send_response(&self, response: &");
    out.append(response_type);
    out.append(") -> ::core::result::Result<(), ");
    out.append(fizyr_rpc);
    out.append("::Error>\nwhere\n\tF: ");
    out.append(fizyr_rpc);
    out.append("::util::format::EncodeBody<");
    out.append(response_type);
    out.append(">,\n{\n\tlet encoded = F::encode_body(response).map_err(");
    out.append(fizyr_rpc);
    out.append("::Error::encode_failed)?;\n\tlet response = self.request.send_response(");
    out.append(sid);
    out.append(", encoded).await?;\n\t::core::result::Result::Ok(())\n}\n\n/// Send the final response.\npub async fn send_error_response(&self, error: &str) -> ::core::result::Result<(), ");
    out.append(fizyr_rpc);
    out.append("::Error> {\n\t::core::result::Result::Ok(self.request.send_error_response(error).await?)\n}\n");
    out
}

/// The client function of a service without updates: it returns the response.
#[verifier::opaque]
pub open spec fn spec_direct_call_text(service_doc: Seq<char>, name: Seq<char>, request_param: Seq<char>, response_type: Seq<char>, fizyr_rpc: Seq<char>, request_type: Seq<char>, request_body: Seq<char>, sid: Seq<char>) -> Seq<char> {
    service_doc + "#[allow(clippy::ptr_arg)]\npub async fn "@ + name + "(&self, "@ + request_param + ") -> ::core::result::Result<"@ + response_type + ", "@ + fizyr_rpc + "::Error>\nwhere\n\tF: "@ + fizyr_rpc + "::util::format::EncodeBody<"@ + request_type + ">,\n\tF: "@ + fizyr_rpc + "::util::format::DecodeBody<"@ + response_type + ">,\n{\n\tlet request_body = "@ + request_body + ".map_err("@ + fizyr_rpc + "::Error::encode_failed)?;\n\tlet mut request = self.peer.send_request("@ + sid + ", request_body).await?;\n\n\tlet response = request.recv_response().await?;\n\tif response.header.service_id == "@ + fizyr_rpc + "::service_id::ERROR {\n\t\tuse "@ + fizyr_rpc + "::Body;\n\t\tlet message = response.body\n\t\t\t.into_error()\n\t\t\t.map_err(|e| "@ + fizyr_rpc + "::Error::decode_failed(::std::boxed::Box::new(e)))?;\n\t\t::core::result::Result::Err("@ + fizyr_rpc + "::Error::remote_error(message))\n\t} else {\n\t\tlet decoded = F::decode_body(response.body).map_err("@ + fizyr_rpc + "::Error::decode_failed)?;\n\t\t::core::result::Result::Ok(decoded)\n\t}\n}\n"@
}

/// Write the client function of a service without updates: it returns the response.
fn direct_call_text(service_doc: &str, name: &str, request_param: &str, response_type: &str, fizyr_rpc: &str, request_type: &str, request_body: &str, sid: &str) -> (r: String)
    ensures
        r@ == spec_direct_call_text(service_doc@, name@, request_param@, response_type@, fizyr_rpc@, request_type@, request_body@, sid@),
{
    proof { reveal(spec_direct_call_text); }
    let mut out = String::new();
    out.append(service_doc);
    out.append("#[allow(clippy::ptr_arg)]\npub async fn ");
    out.append(name);
    out.append("(&self, ");
    out.append(request_param);
    out.append(") -> ::core::result::Result<");
    out.append(response_type);
    out.append(", ");
    out.append(fizyr_rpc);
    out.append("::Error>\nwhere\n\tF: ");
    out.append(fizyr_rpc);
    out.append("::util::format::EncodeBody<");
    out.append(request_type);
    out.append(">,\n\tF: ");
    out.append(fizyr_rpc);
    out.append("::util::format::DecodeBody<");
    out.append(response_type);
    out.append(">,\n{\n\tlet request_body = ");
    out.append(request_body);
    out.append(".map_err(");
    out.append(fizyr_rpc);
    out.append("::Error::encode_failed)?;\n\tlet mut request = self.peer.send_request(");
    out.append(sid);
    out.append(", request_body).await?;\n\n\tlet response = request.recv_response().await?;\n\tif response.header.service_id == ");
    out.append(fizyr_rpc);
    out.append("::service_id::ERROR {\n\t\tuse ");
    out.append(fizyr_rpc);
    out.append("::Body;\n\t\tlet message = response.body\n\t\t\t.into_error()\n\t\t\t.map_err(|e| ");
    out.append(fizyr_rpc);
    out.append("::Error::decode_failed(::std::boxed::Box::new(e)))?;\n\t\t::core::result::Result::Err(");
    out.append(fizyr_rpc);
    out.append("::Error::remote_error(message))\n\t} else {\n\t\tlet decoded = F::decode_body(response.body).map_err(");
    out.append(fizyr_rpc);
    out.append("::Error::decode_failed)?;\n\t\t::core::result::Result::Ok(decoded)\n\t}\n}\n");
    out
}

/// The client function of a service with updates: it returns a handle to the request.
#[verifier::opaque]
pub open spec fn spec_handle_call_text(service_doc: Seq<char>, name: Seq<char>, request_param: Seq<char>, response_type: Seq<char>, fizyr_rpc: Seq<char>, request_type: Seq<char>, request_body: Seq<char>, sid: Seq<char>) -> Seq<char> {
    service_doc + "#[allow(clippy::ptr_arg)]\npub async fn "@ + name + "(&self, "@ + request_param + ") -> ::core::result::Result<"@ + name + "::SentRequestHandle<F>, "@ + fizyr_rpc + "::Error>\nwhere\n\tF: "@ + fizyr_rpc + "::util::format::EncodeBody<"@ + request_type + ">,\n\tF: "@ + fizyr_rpc + "::util::format::DecodeBody<"@ + response_type + ">,\n{\n\tlet request_body = "@ + request_body + ".map_err("@ + fizyr_rpc + "::Error::encode_failed)?;\n\tlet mut request = self.peer.send_request("@ + sid + ", request_body).await?;\n\t::core::result::Result::Ok("@ + name + "::SentRequestHandle { request })\n}\n"@
}

/// Write the client function of a service with updates: it returns a handle to the request.
fn handle_call_text(service_doc: &str, name: &str, request_param: &str, response_type: &str, fizyr_rpc: &str, request_type: &str, request_body: &str, sid: &str) -> (r: String)
    ensures
        r@ == spec_handle_call_text(service_doc@, name@, request_param@, response_type@, fizyr_rpc@, request_type@, request_body@, sid@),
{
    proof { reveal(spec_handle_call_text); }
    let mut out = String::new();
    out.append(service_doc);
    out.append("#[allow(clippy::ptr_arg)]\npub async fn ");
    out.append(name);
    out.append("(&self, ");
    out.append(request_param);
    out.append(") -> ::core::result::Result<");
    out.append(name);
    out.append("::SentRequestHandle<F>, ");
    out.append(fizyr_rpc);
    out.append("::Error>\nwhere\n\tF: ");
    out.append(fizyr_rpc);
    out.append("::util::format::EncodeBody<");
    out.append(request_type);
    out.append(">,\n\tF: ");
    out.append(fizyr_rpc);
    out.append("::util::format::DecodeBody<");
    out.append(response_type);
    out.append(">,\n{\n\tlet request_body = ");
    out.append(request_body);
    out.append(".map_err(");
    out.append(fizyr_rpc);
    out.append("::Error::encode_failed)?;\n\tlet mut request = self.peer.send_request(");
    out.append(sid);
    out.append(", request_body).await?;\n\t::core::result::Result::Ok(");
    out.append(name);
    out.append("::SentRequestHandle { request })\n}\n");
    out
}

/// The module of support types of a service.
#[verifier::opaque]
pub open spec fn spec_service_mod_text(name_escaped: Seq<char>, visibility: Seq<char>, name: Seq<char>, items: Seq<char>) -> Seq<char> {
    "#[doc = \"Support types for the `"@ + name_escaped + "` service.\"]\n"@ + visibility + " mod "@ + name + " {\n\t#[allow(unused_imports)]\n\tuse super::*;\n\n"@ + items + "}\n"@
}

/// Write the module of support types of a service.
fn service_mod_text(name_escaped: &str, visibility: &str, name: &str, items: &str) -> (r: String)
    ensures
        r@ == spec_service_mod_text(name_escaped@, visibility@, name@, items@),
{
    proof { reveal(spec_service_mod_text); }
    let mut out = String::new();
    out.append("#[doc = \"Support types for the `");
    out.append(name_escaped);
    out.append("` service.\"]\n");
    out.append(visibility);
    out.append(" mod ");
    out.append(name);
    out.append(" {\n\t#[allow(unused_imports)]\n\tuse super::*;\n\n");
    out.append(items);
    out.append("}\n");
    out
}

/// A service of an interface.
#[derive(Debug)]
pub struct ServiceModel {
    /// The name of the service, in `snake_case`.
    pub name: String,

    /// The lines of documentation of the service.
    pub doc: Vec<String>,

    /// The service ID of the service.
    pub service_id: i32,

    /// The request body type, as written.
    pub request_type: String,

    /// The request body type is `()`.
    pub request_is_unit: bool,

    /// The response body type, as written.
    pub response_type: String,

    /// The updates that the requester may send.
    pub request_updates: Vec<MessageModel>,

    /// The updates that the responder may send.
    pub response_updates: Vec<MessageModel>,

    /// The service is left out of generated documentation.
    pub hidden: bool,
}

/// The parameter through which an update body is given to its send function: none for `()`.
pub open spec fn spec_update_arg(m: MessageModel) -> Seq<char> {
    if m.body_is_unit { Seq::<char>::empty() } else { "update: &"@ + m.body_type@ }
}

/// The body that an update send function encodes.
pub open spec fn spec_update_val(m: MessageModel) -> Seq<char> {
    if m.body_is_unit { "&()"@ } else { "update"@ }
}

/// One part of the code for one update: `part` picks its send function, the bound for
/// decoding it, or the match arm that decodes it as a variant of the enum `kind`.
pub open spec fn spec_update_piece(fizyr_rpc: Seq<char>, kind: Seq<char>, m: MessageModel, part: int) -> Seq<char> {
    if part == 0 {
        spec_send_update_fn_text(m.name@, spec_update_arg(m), m.body_type@, spec_update_val(m),
            spec_signed_decimal(m.service_id as int), fizyr_rpc)
    } else if part == 1 {
        spec_update_bound_text(fizyr_rpc, m.body_type@)
    } else {
        spec_decode_arm_text(spec_signed_decimal(m.service_id as int), kind, spec_upper_camel_case(m.name@, true), fizyr_rpc)
    }
}

/// One part of the code for all of `updates`, in order.
pub open spec fn spec_update_part(fizyr_rpc: Seq<char>, kind: Seq<char>, updates: Seq<MessageModel>, part: int) -> Seq<char>
    decreases updates.len(),
{
    if updates.len() == 0 {
        Seq::<char>::empty()
    } else {
        spec_update_part(fizyr_rpc, kind, updates.drop_last(), part) + spec_update_piece(fizyr_rpc, kind, updates.last(), part)
    }
}

/// Write the three parts of the code for one update.
fn update_pieces(fizyr_rpc: &str, kind: &str, m: &MessageModel) -> (r: (String, String, String))
    ensures
        r.0@ == spec_update_piece(fizyr_rpc@, kind@, *m, 0),
        r.1@ == spec_update_piece(fizyr_rpc@, kind@, *m, 1),
        r.2@ == spec_update_piece(fizyr_rpc@, kind@, *m, 2),
{
    let mut sid = String::new();
    push_signed_decimal(&mut sid, m.service_id as i64);
    let mut arg = String::new();
    if !m.body_is_unit {
        arg.append("update: &");
        arg.append(m.body_type.as_str());
    }
    let val = if m.body_is_unit { String::from_str("&()") } else { String::from_str("update") };
    let variant = to_upper_camel_case(m.name.as_str());
    let send = send_update_fn_text(m.name.as_str(), arg.as_str(), m.body_type.as_str(), val.as_str(), sid.as_str(), fizyr_rpc);
    let bound = update_bound_text(fizyr_rpc, m.body_type.as_str());
    let arm = decode_arm_text(sid.as_str(), kind, variant.as_str(), fizyr_rpc);
    (send, bound, arm)
}

/// Write the three parts of the code for all of `updates`, in order.
fn update_parts(fizyr_rpc: &str, kind: &str, updates: &Vec<MessageModel>) -> (r: (String, String, String))
    ensures
        r.0@ == spec_update_part(fizyr_rpc@, kind@, updates@, 0),
        r.1@ == spec_update_part(fizyr_rpc@, kind@, updates@, 1),
        r.2@ == spec_update_part(fizyr_rpc@, kind@, updates@, 2),
{
    let mut p0 = String::new();
    let mut p1 = String::new();
    let mut p2 = String::new();
    let mut i: usize = 0;
    assert(updates@.take(0) =~= Seq::<MessageModel>::empty());
    while i < updates.len()
        invariant
            i <= updates@.len(),
            p0@ == spec_update_part(fizyr_rpc@, kind@, updates@.take(i as int), 0),
            p1@ == spec_update_part(fizyr_rpc@, kind@, updates@.take(i as int), 1),
            p2@ == spec_update_part(fizyr_rpc@, kind@, updates@.take(i as int), 2),
        decreases updates@.len() - i,
    {
        let (q0, q1, q2) = update_pieces(fizyr_rpc, kind, &updates[i]);
        p0.append(q0.as_str());
        p1.append(q1.as_str());
        p2.append(q2.as_str());
        assert(updates@.take(i + 1).drop_last() =~= updates@.take(i as int));
        i += 1;
    }
    assert(updates@.take(updates@.len() as int) =~= updates@);
    (p0, p1, p2)
}

/// The doc comment of the function that receives updates; for response updates it says
/// how the function behaves once the response arrived.
pub open spec fn spec_recv_update_doc(response: bool) -> Seq<char> {
    "/// Receive an update from the remote peer.\n///\n/// This function only returns an error if an update message was received that could not be parsed.\n/// If an I/O error occurs or the connection is closed, this function returns `Ok(None)`.\n"@
        + if response {
            "///\n/// Once the final response is received,\n/// this function will keep returning `Ok(None)`.\n/// Use [`Self::recv_response`] to receive the response.\n"@
        } else {
            Seq::<char>::empty()
        }
}

/// The name of the enum of updates of one kind.
pub open spec fn spec_update_kind(response: bool) -> Seq<char> {
    if response { "ResponseUpdate"@ } else { "RequestUpdate"@ }
}

/// The function that receives the updates of one kind of a request.
pub open spec fn spec_recv_update_fn(fizyr_rpc: Seq<char>, updates: Seq<MessageModel>, response: bool) -> Seq<char> {
    let kind = spec_update_kind(response);
    spec_recv_update_fn_text(spec_recv_update_doc(response), kind, fizyr_rpc,
        spec_update_part(fizyr_rpc, kind, updates, 1), spec_update_part(fizyr_rpc, kind, updates, 2))
}

/// Write the function that receives the updates of one kind of a request.
fn recv_update_fn(fizyr_rpc: &str, updates: &Vec<MessageModel>, response: bool) -> (r: String)
    ensures
        r@ == spec_recv_update_fn(fizyr_rpc@, updates@, response),
{
    let kind = if response { String::from_str("ResponseUpdate") } else { String::from_str("RequestUpdate") };
    let mut doc = String::from_str("/// Receive an update from the remote peer.\n///\n/// This function only returns an error if an update message was received that could not be parsed.\n/// If an I/O error occurs or the connection is closed, this function returns `Ok(None)`.\n");
    if response {
        doc.append("///\n/// Once the final response is received,\n/// this function will keep returning `Ok(None)`.\n/// Use [`Self::recv_response`] to receive the response.\n");
    }
    let (_send, bounds, arms) = update_parts(fizyr_rpc, kind.as_str(), updates);
    recv_update_fn_text(doc.as_str(), kind.as_str(), fizyr_rpc, bounds.as_str(), arms.as_str())
}

/// The send functions of all of `updates`.
pub open spec fn spec_send_update_fns(fizyr_rpc: Seq<char>, updates: Seq<MessageModel>) -> Seq<char> {
    spec_update_part(fizyr_rpc, Seq::<char>::empty(), updates, 0)
}

/// The send functions do not depend on the name of the enum of updates.
proof fn lemma_send_fns_ignore_kind(fizyr_rpc: Seq<char>, kind: Seq<char>, updates: Seq<MessageModel>)
    ensures
        spec_update_part(fizyr_rpc, kind, updates, 0) == spec_send_update_fns(fizyr_rpc, updates),
    decreases updates.len(),
{
    if updates.len() > 0 {
        lemma_send_fns_ignore_kind(fizyr_rpc, kind, updates.drop_last());
    }
}

/// Write the send functions of all of `updates`.
fn send_update_fns(fizyr_rpc: &str, updates: &Vec<MessageModel>) -> (r: String)
    ensures
        r@ == spec_send_update_fns(fizyr_rpc@, updates@),
{
    let (send, _bounds, _arms) = update_parts(fizyr_rpc, "", updates);
    proof {
        reveal_strlit("");
        assert(""@ =~= Seq::<char>::empty());
    }
    send
}

/// The doc comment on receiving the response that says what happens to a pending update.
pub open spec fn spec_doc_recv_update(has_response_updates: bool) -> Seq<char> {
    if has_response_updates {
        "/// You can still receive the update message by calling [`Self::recv_update`].\n/// This function will keep returning an error until the update message is received.\n"@
    } else {
        "/// This service call does not support update messages, so there is no way to retrieve it.\n"@
    }
}

/// The code of a sent request of a service with updates: the enums of its updates and its handles.
pub open spec fn spec_sent_request_code(fizyr_rpc: Seq<char>, s: ServiceModel) -> Seq<char> {
    let req = s.request_updates@;
    let resp = s.response_updates@;
    let read_impl = spec_recv_response_fn_text(spec_doc_recv_update(resp.len() > 0), s.response_type@, fizyr_rpc)
        + if resp.len() > 0 { spec_recv_update_fn(fizyr_rpc, resp, true) } else { Seq::<char>::empty() };
    let write_impl = if req.len() > 0 { spec_send_update_fns(fizyr_rpc, req) } else { Seq::<char>::empty() };
    let req_enum = if req.len() > 0 {
        spec_message_enum_code(fizyr_rpc, req, "RequestUpdate"@, "A request update for the "@ + s.name@ + " service"@)
    } else {
        Seq::<char>::empty()
    };
    let resp_enum = if resp.len() > 0 {
        spec_message_enum_code(fizyr_rpc, resp, "ResponseUpdate"@, "A response update for the "@ + s.name@ + " service"@)
    } else {
        Seq::<char>::empty()
    };
    req_enum + resp_enum + spec_sent_request_handles_text(
        spec_escape("Read/write handle for a sent request for the `"@ + s.name@ + "` service."@),
        spec_escape("Write handle for a sent request for the `"@ + s.name@ + "` service."@),
        fizyr_rpc, read_impl, write_impl)
}

/// Write `prefix`, then `text`, then `suffix`.
fn surround(prefix: &str, text: &str, suffix: &str) -> (r: String)
    ensures
        r@ == prefix@ + text@ + suffix@,
{
    let mut out = String::from_str(prefix);
    out.append(text);
    out.append(suffix);
    out
}

/// Generate the code of a sent request of a service with updates.
pub fn generate_sent_request(fizyr_rpc: &str, s: &ServiceModel) -> (r: String)
    ensures
        r@ == spec_sent_request_code(fizyr_rpc@, *s),
{
    let has_req = s.request_updates.len() > 0;
    let has_resp = s.response_updates.len() > 0;
    let doc_recv_update = if has_resp {
        String::from_str("/// You can still receive the update message by calling [`Self::recv_update`].\n/// This function will keep returning an error until the update message is received.\n")
    } else {
        String::from_str("/// This service call does not support update messages, so there is no way to retrieve it.\n")
    };
    let mut read_impl = recv_response_fn_text(doc_recv_update.as_str(), s.response_type.as_str(), fizyr_rpc);
    if has_resp {
        let f = recv_update_fn(fizyr_rpc, &s.response_updates, true);
        read_impl.append(f.as_str());
    }
    let write_impl = if has_req { send_update_fns(fizyr_rpc, &s.request_updates) } else { String::new() };
    let mut out = String::new();
    if has_req {
        let doc = surround("A request update for the ", s.name.as_str(), " service");
        let e = generate_message_enum(fizyr_rpc, &s.request_updates, "RequestUpdate", doc.as_str());
        out.append(e.as_str());
    }
    if has_resp {
        let doc = surround("A response update for the ", s.name.as_str(), " service");
        let e = generate_message_enum(fizyr_rpc, &s.response_updates, "ResponseUpdate", doc.as_str());
        out.append(e.as_str());
    }
    let handle_doc = escape(surround("Read/write handle for a sent request for the `", s.name.as_str(), "` service.").as_str());
    let write_handle_doc = escape(surround("Write handle for a sent request for the `", s.name.as_str(), "` service.").as_str());
    let handles = sent_request_handles_text(handle_doc.as_str(), write_handle_doc.as_str(), fizyr_rpc, read_impl.as_str(), write_impl.as_str());
    out.append(handles.as_str());
    assert(out@ =~= spec_sent_request_code(fizyr_rpc@, *s));
    out
}

/// The code of a received request of a service: its handles.
pub open spec fn spec_received_request_code(fizyr_rpc: Seq<char>, s: ServiceModel) -> Seq<char> {
    let req = s.request_updates@;
    let resp = s.response_updates@;
    let read_impl = if req.len() > 0 { spec_recv_update_fn(fizyr_rpc, req, false) } else { Seq::<char>::empty() };
    let write_impl = (if resp.len() > 0 { spec_send_update_fns(fizyr_rpc, resp) } else { Seq::<char>::empty() })
        + spec_send_response_fns_text(s.response_type@, fizyr_rpc, spec_signed_decimal(s.service_id as int));
    spec_received_request_handles_text(
        spec_escape("Handle for a received `"@ + s.name@ + "` request."@),
        spec_escape("Write-only handle for a received `"@ + s.name@ + "` request."@),
        fizyr_rpc, read_impl, write_impl)
}

/// Generate the code of a received request of a service.
pub fn generate_received_request(fizyr_rpc: &str, s: &ServiceModel) -> (r: String)
    ensures
        r@ == spec_received_request_code(fizyr_rpc@, *s),
{
    let read_impl = if s.request_updates.len() > 0 { recv_update_fn(fizyr_rpc, &s.request_updates, false) } else { String::new() };
    let mut write_impl = if s.response_updates.len() > 0 { send_update_fns(fizyr_rpc, &s.response_updates) } else { String::new() };
    let mut sid = String::new();
    push_signed_decimal(&mut sid, s.service_id as i64);
    let send = send_response_fns_text(s.response_type.as_str(), fizyr_rpc, sid.as_str());
    write_impl.append(send.as_str());
    let handle_doc = escape(surround("Handle for a received `", s.name.as_str(), "` request.").as_str());
    let write_handle_doc = escape(surround("Write-only handle for a received `", s.name.as_str(), "` request.").as_str());
    received_request_handles_text(handle_doc.as_str(), write_handle_doc.as_str(), fizyr_rpc, read_impl.as_str(), write_impl.as_str())
}

/// The code of one service: its module of support types, and its function on the client.
#[verifier::opaque]
pub open spec fn spec_service_code(fizyr_rpc: Seq<char>, s: ServiceModel, visibility: Seq<char>) -> (Seq<char>, Seq<char>) {
    let request_param = if s.request_is_unit { Seq::<char>::empty() } else { "request: &"@ + s.request_type@ };
    let request_body = if s.request_is_unit { "F::encode_body(&())"@ } else { "F::encode_body(request)"@ };
    let sid = spec_signed_decimal(s.service_id as int);
    let doc = spec_doc_attrs(s.doc@);
    let no_updates = s.request_updates@.len() == 0 && s.response_updates@.len() == 0;
    let client = if no_updates {
        spec_direct_call_text(doc, s.name@, request_param, s.response_type@, fizyr_rpc, s.request_type@, request_body, sid)
    } else {
        spec_handle_call_text(doc, s.name@, request_param, s.response_type@, fizyr_rpc, s.request_type@, request_body, sid)
    };
    let sent = if no_updates { Seq::<char>::empty() } else { spec_sent_request_code(fizyr_rpc, s) };
    let items = spec_service_mod_text(spec_escape(s.name@), visibility, s.name@, sent + spec_received_request_code(fizyr_rpc, s));
    (items, client)
}

/// Generate the code of one service: its module of support types, and its function on the client.
pub fn generate_service(fizyr_rpc: &str, s: &ServiceModel, visibility: &str) -> (r: (String, String))
    ensures
        (r.0@, r.1@) == spec_service_code(fizyr_rpc@, *s, visibility@),
{
    proof { reveal(spec_service_code); }
    let mut request_param = String::new();
    if !s.request_is_unit {
        request_param.append("request: &");
        request_param.append(s.request_type.as_str());
    }
    let request_body = if s.request_is_unit { String::from_str("F::encode_body(&())") } else { String::from_str("F::encode_body(request)") };
    let mut sid = String::new();
    push_signed_decimal(&mut sid, s.service_id as i64);
    let doc = doc_attrs(&s.doc);
    let no_updates = s.request_updates.len() == 0 && s.response_updates.len() == 0;
    let client = if no_updates {
        direct_call_text(doc.as_str(), s.name.as_str(), request_param.as_str(), s.response_type.as_str(), fizyr_rpc,
            s.request_type.as_str(), request_body.as_str(), sid.as_str())
    } else {
        handle_call_text(doc.as_str(), s.name.as_str(), request_param.as_str(), s.response_type.as_str(), fizyr_rpc,
            s.request_type.as_str(), request_body.as_str(), sid.as_str())
    };
    let mut inner = if no_updates { String::new() } else { generate_sent_request(fizyr_rpc, s) };
    let received = generate_received_request(fizyr_rpc, s);
    inner.append(received.as_str());
    let name_escaped = escape(s.name.as_str());
    let items = service_mod_text(name_escaped.as_str(), visibility, s.name.as_str(), inner.as_str());
    (items, client)
}

/// The code of all services of an interface: the modules of support types (`part` 0)
/// or the functions on the client (`part` 1), in order.
pub open spec fn spec_services_part(fizyr_rpc: Seq<char>, services: Seq<ServiceModel>, visibility: Seq<char>, part: int) -> Seq<char>
    decreases services.len(),
{
    if services.len() == 0 {
        Seq::<char>::empty()
    } else {
        let code = spec_service_code(fizyr_rpc, services.last(), visibility);
        spec_services_part(fizyr_rpc, services.drop_last(), visibility, part) + if part == 0 { code.0 } else { code.1 }
    }
}

/// Generate the code of all services of an interface: the modules of support types,
/// and the functions on the client.
pub fn generate_services(fizyr_rpc: &str, services: &Vec<ServiceModel>, visibility: &str) -> (r: (String, String))
    ensures
        r.0@ == spec_services_part(fizyr_rpc@, services@, visibility@, 0),
        r.1@ == spec_services_part(fizyr_rpc@, services@, visibility@, 1),
{
    let mut items = String::new();
    let mut client = String::new();
    let mut i: usize = 0;
    assert(services@.take(0) =~= Seq::<ServiceModel>::empty());
    while i < services.len()
        invariant
            i <= services@.len(),
            items@ == spec_services_part(fizyr_rpc@, services@.take(i as int), visibility@, 0),
            client@ == spec_services_part(fizyr_rpc@, services@.take(i as int), visibility@, 1),
        decreases services@.len() - i,
    {
        let (a, b) = generate_service(fizyr_rpc, &services[i], visibility);
        items.append(a.as_str());
        client.append(b.as_str());
        assert(services@.take(i + 1).drop_last() =~= services@.take(i as int));
        i += 1;
    }
    assert(services@.take(services@.len() as int) =~= services@);
    (items, client)
}

/// A bound that lets a format decode a body type.
#[verifier::opaque]
pub open spec fn spec_format_bound_text(fizyr_rpc: Seq<char>, body_type: Seq<char>) -> Seq<char> {
    "F: "@ + fizyr_rpc + "::format::DecodeBody<"@ + body_type + ">,\n"@
}

/// Write a bound that lets a format decode a body type.
fn format_bound_text(fizyr_rpc: &str, body_type: &str) -> (r: String)
    ensures
        r@ == spec_format_bound_text(fizyr_rpc@, body_type@),
{
    proof { reveal(spec_format_bound_text); }
    let mut out = String::new();
    out.append("F: ");
    out.append(fizyr_rpc);
    out.append("::format::DecodeBody<");
    out.append(body_type);
    out.append(">,\n");
    out
}

/// The match arm that decodes one stream message.
#[verifier::opaque]
pub open spec fn spec_decode_stream_arm_text(sid: Seq<char>, variant: Seq<char>, fizyr_rpc: Seq<char>) -> Seq<char> {
    sid + " => {\n\tmatch F::decode_body(message.body) {\n\t\t::core::result::Result::Ok(body) => {\n\t\t\t::core::result::Result::Ok(ReceivedMessage::Stream(StreamMessage::"@ + variant + "(body)))\n\t\t},\n\t\t::core::result::Result::Err(e) => {\n\t\t\t::core::result::Result::Err("@ + fizyr_rpc + "::RecvMessageError::InvalidStream(message.header, e))\n\t\t},\n\t}\n},\n"@
}

/// Write the match arm that decodes one stream message.
fn decode_stream_arm_text(sid: &str, variant: &str, fizyr_rpc: &str) -> (r: String)
    ensures
        r@ == spec_decode_stream_arm_text(sid@, variant@, fizyr_rpc@),
{
    proof { reveal(spec_decode_stream_arm_text); }
    let mut out = String::new();
    out.append(sid);
    out.append(" => {\n\tmatch F::decode_body(message.body) {\n\t\t::core::result::Result::Ok(body) => {\n\t\t\t::core::result::Result::Ok(ReceivedMessage::Stream(StreamMessage::");
    out.append(variant);
    out.append("(body)))\n\t\t},\n\t\t::core::result::Result::Err(e) => {\n\t\t\t::core::result::Result::Err(");
    out.append(fizyr_rpc);
    out.append("::RecvMessageError::InvalidStream(message.header, e))\n\t\t},\n\t}\n},\n");
    out
}

/// The match arm that decodes one request.
#[verifier::opaque]
pub open spec fn spec_decode_request_arm_text(sid: Seq<char>, name: Seq<char>, variant: Seq<char>, fizyr_rpc: Seq<char>) -> Seq<char> {
    sid + " => {\n\tmatch F::decode_body(body) {\n\t\t::core::result::Result::Ok(body) => {\n\t\t\tlet request = "@ + name + "::ReceivedRequestHandle { request };\n\t\t\t::core::result::Result::Ok(ReceivedMessage::Request(ReceivedRequestHandle::"@ + variant + "(request, body)))\n\t\t},\n\t\t::core::result::Result::Err(e) => {\n\t\t\t::core::result::Result::Err("@ + fizyr_rpc + "::RecvMessageError::InvalidRequest(request, e))\n\t\t},\n\t}\n},\n"@
}

/// Write the match arm that decodes one request.
fn decode_request_arm_text(sid: &str, name: &str, variant: &str, fizyr_rpc: &str) -> (r: String)
    ensures
        r@ == spec_decode_request_arm_text(sid@, name@, variant@, fizyr_rpc@),
{
    proof { reveal(spec_decode_request_arm_text); }
    let mut out = String::new();
    out.append(sid);
    out.append(" => {\n\tmatch F::decode_body(body) {\n\t\t::core::result::Result::Ok(body) => {\n\t\t\tlet request = ");
    out.append(name);
    out.append("::ReceivedRequestHandle { request };\n\t\t\t::core::result::Result::Ok(ReceivedMessage::Request(ReceivedRequestHandle::");
    out.append(variant);
    out.append("(request, body)))\n\t\t},\n\t\t::core::result::Result::Err(e) => {\n\t\t\t::core::result::Result::Err(");
    out.append(fizyr_rpc);
    out.append("::RecvMessageError::InvalidRequest(request, e))\n\t\t},\n\t}\n},\n");
    out
}

/// The variant of the enum of received requests for one service.
#[verifier::opaque]
pub open spec fn spec_request_variant_text(doc: Seq<char>, variant: Seq<char>, name: Seq<char>, request_type: Seq<char>) -> Seq<char> {
    doc + variant + "("@ + name + "::ReceivedRequestHandle<F>, "@ + request_type + "),\n"@
}

/// Write the variant of the enum of received requests for one service.
fn request_variant_text(doc: &str, variant: &str, name: &str, request_type: &str) -> (r: String)
    ensures
        r@ == spec_request_variant_text(doc@, variant@, name@, request_type@),
{
    proof { reveal(spec_request_variant_text); }
    let mut out = String::new();
    out.append(doc);
    out.append(variant);
    out.append("(");
    out.append(name);
    out.append("::ReceivedRequestHandle<F>, ");
    out.append(request_type);
    out.append("),\n");
    out
}

/// The match arm that formats a received request of one service.
#[verifier::opaque]
pub open spec fn spec_request_debug_arm_text(variant: Seq<char>, variant_escaped: Seq<char>) -> Seq<char> {
    "Self::"@ + variant + "(request, _body) => ::core::write!(f, \"{}({:?})\", \""@ + variant_escaped + "\", request),\n"@
}

/// Write the match arm that formats a received request of one service.
fn request_debug_arm_text(variant: &str, variant_escaped: &str) -> (r: String)
    ensures
        r@ == spec_request_debug_arm_text(variant@, variant_escaped@),
{
    proof { reveal(spec_request_debug_arm_text); }
    let mut out = String::new();
    out.append("Self::");
    out.append(variant);
    out.append("(request, _body) => ::core::write!(f, \"{}({:?})\", \"");
    out.append(variant_escaped);
    out.append("\", request),\n");
    out
}

/// The enum of all received requests of an interface.
#[verifier::opaque]
pub open spec fn spec_received_request_enum_text(enum_doc: Seq<char>, visibility: Seq<char>, fizyr_rpc: Seq<char>, variants: Seq<char>, debug_arms: Seq<char>) -> Seq<char> {
    "#[doc = \""@ + enum_doc + "\"]\n"@ + visibility + " enum ReceivedRequestHandle<F: "@ + fizyr_rpc + "::format::Format> {\n"@ + variants + "}\n\nimpl<F: "@ + fizyr_rpc + "::format::Format> ::core::fmt::Debug for ReceivedRequestHandle<F> {\n\tfn fmt(&self, f: &mut ::core::fmt::Formatter) -> ::core::fmt::Result {\n\t\tmatch self {\n"@ + debug_arms + "\t\t}\n\t}\n}\n"@
}

/// Write the enum of all received requests of an interface.
fn received_request_enum_text(enum_doc: &str, visibility: &str, fizyr_rpc: &str, variants: &str, debug_arms: &str) -> (r: String)
    ensures
        r@ == spec_received_request_enum_text(enum_doc@, visibility@, fizyr_rpc@, variants@, debug_arms@),
{
    proof { reveal(spec_received_request_enum_text); }
    let mut out = String::new();
    out.append("#[doc = \"");
    out.append(enum_doc);
    out.append("\"]\n");
    out.append(visibility);
    out.append(" enum ReceivedRequestHandle<F: ");
    out.append(fizyr_rpc);
    out.append("::format::Format> {\n");
    out.append(variants);
    out.append("}\n\nimpl<F: ");
    out.append(fizyr_rpc);
    out.append("::format::Format> ::core::fmt::Debug for ReceivedRequestHandle<F> {\n\tfn fmt(&self, f: &mut ::core::fmt::Formatter) -> ::core::fmt::Result {\n\t\tmatch self {\n");
    out.append(debug_arms);
    out.append("\t\t}\n\t}\n}\n");
    out
}

/// The server struct of an interface.
#[verifier::opaque]
pub open spec fn spec_server_text(server_doc: Seq<char>, visibility: Seq<char>, fizyr_rpc: Seq<char>, generics: Seq<char>, recv_where: Seq<char>, stream_arms: Seq<char>, request_arms: Seq<char>, msg_where: Seq<char>, variants: Seq<char>, debug_arms: Seq<char>) -> Seq<char> {
    "#[doc = \""@ + server_doc + "\"]\n"@ + visibility + " struct Server<F: "@ + fizyr_rpc + "::format::Format> {\n\tpeer: "@ + fizyr_rpc + "::PeerReadHandle<F::Body>,\n}\n\nimpl<F: "@ + fizyr_rpc + "::format::Format> ::core::fmt::Debug for Server<F> {\n\tfn fmt(&self, f: &mut ::core::fmt::Formatter) -> ::core::fmt::Result {\n\t\tf.debug_struct(::core::any::type_name::<Self>())\n\t\t\t.field(\"peer\", &self.peer)\n\t\t\t.finish()\n\t}\n}\n\nimpl<F: "@ + fizyr_rpc + "::format::Format> Server<F> {\n\t/// Create a new interface-specific RPC server from a raw write handle.\n\tfn new(peer: "@ + fizyr_rpc + "::PeerReadHandle<F::Body>) -> Self {\n\t\tSelf { peer }\n\t}\n\n\t/// Close the connection with the remote peer.\n\tpub fn close(self) {\n\t\tself.peer.close()\n\t}\n\n\t/// Make a close handle for the peer.\n\t///\n\t/// The close handle can be used to close the connection with the remote peer.\n\t/// It can be cloned and moved around independently.\n\tpub fn close_handle(&self) -> "@ + fizyr_rpc + "::PeerCloseHandle<F::Body> {\n\t\tself.peer.close_handle()\n\t}\n\n\t/// Receive the next incoming message.\n\tpub async fn recv_message(&mut self) -> ::core::result::Result<ReceivedMessage<"@ + generics + ">, "@ + fizyr_rpc + "::RecvMessageError<F::Body>>\n\twhere\n"@ + recv_where + "\t{\n\t\tmatch self.peer.recv_message().await? {\n\t\t\t"@ + fizyr_rpc + "::ReceivedMessage::Stream(message) => {\n\t\t\t\tmatch message.header.service_id {\n"@ + stream_arms + "\t\t\t\t\t_ => ::core::result::Result::Err("@ + fizyr_rpc + "::RecvMessageError::UnknownStream(message)),\n\t\t\t\t}\n\t\t\t},\n\t\t\t"@ + fizyr_rpc + "::ReceivedMessage::Request(request, body) => {\n\t\t\t\tmatch request.service_id() {\n"@ + request_arms + "\t\t\t\t\t_ => ::core::result::Result::Err("@ + fizyr_rpc + "::RecvMessageError::UnknownRequest(request, body)),\n\t\t\t\t}\n\t\t\t},\n\t\t}\n\t}\n}\n\nimpl<F: "@ + fizyr_rpc + "::format::Format> ::core::convert::From<"@ + fizyr_rpc + "::PeerReadHandle<F::Body>> for Server<F> {\n\tfn from(other: "@ + fizyr_rpc + "::PeerReadHandle<F::Body>) -> Self {\n\t\tSelf::new(other)\n\t}\n}\n\nimpl<F: "@ + fizyr_rpc + "::format::Format> ::core::convert::From<"@ + fizyr_rpc + "::PeerHandle<F::Body>> for Server<F> {\n\tfn from(other: "@ + fizyr_rpc + "::PeerHandle<F::Body>) -> Self {\n\t\tlet (read, _write) = other.split();\n\t\tSelf::new(read)\n\t}\n}\n\n/// An incoming message from a remote peer.\n"@ + visibility + " enum ReceivedMessage<"@ + generics + ">\nwhere\n"@ + msg_where + "{\n"@ + variants + "}\n\nimpl<"@ + generics + "> ::core::fmt::Debug for ReceivedMessage<"@ + generics + ">\nwhere\n"@ + msg_where + "{\n\tfn fmt(&self, f: &mut ::core::fmt::Formatter) -> ::core::fmt::Result {\n\t\tmatch self {\n"@ + debug_arms + "\t\t}\n\t}\n}\n"@
}

/// Write the server struct of an interface.
fn server_text(server_doc: &str, visibility: &str, fizyr_rpc: &str, generics: &str, recv_where: &str, stream_arms: &str, request_arms: &str, msg_where: &str, variants: &str, debug_arms: &str) -> (r: String)
    ensures
        r@ == spec_server_text(server_doc@, visibility@, fizyr_rpc@, generics@, recv_where@, stream_arms@, request_arms@, msg_where@, variants@, debug_arms@),
{
    proof { reveal(spec_server_text); }
    let mut out = String::new();
    out.append("#[doc = \"");
    out.append(server_doc);
    out.append("\"]\n");
    out.append(visibility);
    out.append(" struct Server<F: ");
    out.append(fizyr_rpc);
    out.append("::format::Format> {\n\tpeer: ");
    out.append(fizyr_rpc);
    out.append("::PeerReadHandle<F::Body>,\n}\n\nimpl<F: ");
    out.append(fizyr_rpc);
    out.append("::format::Format> ::core::fmt::Debug for Server<F> {\n\tfn fmt(&self, f: &mut ::core::fmt::Formatter) -> ::core::fmt::Result {\n\t\tf.debug_struct(::core::any::type_name::<Self>())\n\t\t\t.field(\"peer\", &self.peer)\n\t\t\t.finish()\n\t}\n}\n\nimpl<F: ");
    out.append(fizyr_rpc);
    out.append("::format::Format> Server<F> {\n\t/// Create a new interface-specific RPC server from a raw write handle.\n\tfn new(peer: ");
    out.append(fizyr_rpc);
    out.append("::PeerReadHandle<F::Body>) -> Self {\n\t\tSelf { peer }\n\t}\n\n\t/// Close the connection with the remote peer.\n\tpub fn close(self) {\n\t\tself.peer.close()\n\t}\n\n\t/// Make a close handle for the peer.\n\t///\n\t/// The close handle can be used to close the connection with the remote peer.\n\t/// It can be cloned and moved around independently.\n\tpub fn close_handle(&self) -> ");
    out.append(fizyr_rpc);
    out.append("::PeerCloseHandle<F::Body> {\n\t\tself.peer.close_handle()\n\t}\n\n\t/// Receive the next incoming message.\n\tpub async fn recv_message(&mut self) -> ::core::result::Result<ReceivedMessage<");
    out.append(generics);
    out.append(">, ");
    out.append(fizyr_rpc);
    out.append("::RecvMessageError<F::Body>>\n\twhere\n");
    out.append(recv_where);
    out.append("\t{\n\t\tmatch self.peer.recv_message().await? {\n\t\t\t");
    out.append(fizyr_rpc);
    out.append("::ReceivedMessage::Stream(message) => {\n\t\t\t\tmatch message.header.service_id {\n");
    out.append(stream_arms);
    out.append("\t\t\t\t\t_ => ::core::result::Result::Err(");
    out.append(fizyr_rpc);
    out.append("::RecvMessageError::UnknownStream(message)),\n\t\t\t\t}\n\t\t\t},\n\t\t\t");
    out.append(fizyr_rpc);
    out.append("::ReceivedMessage::Request(request, body) => {\n\t\t\t\tmatch request.service_id() {\n");
    out.append(request_arms);
    out.append("\t\t\t\t\t_ => ::core::result::Result::Err(");
    out.append(fizyr_rpc);
    out.append("::RecvMessageError::UnknownRequest(request, body)),\n\t\t\t\t}\n\t\t\t},\n\t\t}\n\t}\n}\n\nimpl<F: ");
    out.append(fizyr_rpc);
    out.append("::format::Format> ::core::convert::From<");
    out.append(fizyr_rpc);
    out.append("::PeerReadHandle<F::Body>> for Server<F> {\n\tfn from(other: ");
    out.append(fizyr_rpc);
    out.append("::PeerReadHandle<F::Body>) -> Self {\n\t\tSelf::new(other)\n\t}\n}\n\nimpl<F: ");
    out.append(fizyr_rpc);
    out.append("::format::Format> ::core::convert::From<");
    out.append(fizyr_rpc);
    out.append("::PeerHandle<F::Body>> for Server<F> {\n\tfn from(other: ");
    out.append(fizyr_rpc);
    out.append("::PeerHandle<F::Body>) -> Self {\n\t\tlet (read, _write) = other.split();\n\t\tSelf::new(read)\n\t}\n}\n\n/// An incoming message from a remote peer.\n");
    out.append(visibility);
    out.append(" enum ReceivedMessage<");
    out.append(generics);
    out.append(">\nwhere\n");
    out.append(msg_where);
    out.append("{\n");
    out.append(variants);
    out.append("}\n\nimpl<");
    out.append(generics);
    out.append("> ::core::fmt::Debug for ReceivedMessage<");
    out.append(generics);
    out.append(">\nwhere\n");
    out.append(msg_where);
    out.append("{\n\tfn fmt(&self, f: &mut ::core::fmt::Formatter) -> ::core::fmt::Result {\n\t\tmatch self {\n");
    out.append(debug_arms);
    out.append("\t\t}\n\t}\n}\n");
    out
}

/// One part of the server code for one stream message: the bound for decoding it (`part` 0)
/// or the match arm that decodes it (`part` 1).
pub open spec fn spec_stream_piece(fizyr_rpc: Seq<char>, m: MessageModel, part: int) -> Seq<char> {
    if part == 0 {
        spec_format_bound_text(fizyr_rpc, m.body_type@)
    } else {
        spec_decode_stream_arm_text(spec_signed_decimal(m.service_id as int), spec_upper_camel_case(m.name@, true), fizyr_rpc)
    }
}

/// One part of the server code for all of `streams`, in order.
pub open spec fn spec_stream_part(fizyr_rpc: Seq<char>, streams: Seq<MessageModel>, part: int) -> Seq<char>
    decreases streams.len(),
{
    if streams.len() == 0 {
        Seq::<char>::empty()
    } else {
        spec_stream_part(fizyr_rpc, streams.drop_last(), part) + spec_stream_piece(fizyr_rpc, streams.last(), part)
    }
}

/// One part of the server code for one service: the bound for decoding its request (`part` 0),
/// the match arm that decodes it (`part` 1), its variant of the enum of received requests
/// (`part` 2) or the match arm that formats that variant (`part` 3).
pub open spec fn spec_request_piece(fizyr_rpc: Seq<char>, s: ServiceModel, part: int) -> Seq<char> {
    let variant = spec_upper_camel_case(s.name@, true);
    if part == 0 {
        spec_format_bound_text(fizyr_rpc, s.request_type@)
    } else if part == 1 {
        spec_decode_request_arm_text(spec_signed_decimal(s.service_id as int), s.name@, variant, fizyr_rpc)
    } else if part == 2 {
        spec_request_variant_text(spec_doc_attrs(s.doc@), variant, s.name@, s.request_type@)
    } else {
        spec_request_debug_arm_text(variant, spec_escape(variant))
    }
}

/// One part of the server code for all of `services`, in order.
pub open spec fn spec_request_part(fizyr_rpc: Seq<char>, services: Seq<ServiceModel>, part: int) -> Seq<char>
    decreases services.len(),
{
    if services.len() == 0 {
        Seq::<char>::empty()
    } else {
        spec_request_part(fizyr_rpc, services.drop_last(), part) + spec_request_piece(fizyr_rpc, services.last(), part)
    }
}

/// Write the two parts of the server code for all of `streams`.
fn stream_parts(fizyr_rpc: &str, streams: &Vec<MessageModel>) -> (r: (String, String))
    ensures
        r.0@ == spec_stream_part(fizyr_rpc@, streams@, 0),
        r.1@ == spec_stream_part(fizyr_rpc@, streams@, 1),
{
    let mut p0 = String::new();
    let mut p1 = String::new();
    let mut i: usize = 0;
    assert(streams@.take(0) =~= Seq::<MessageModel>::empty());
    while i < streams.len()
        invariant
            i <= streams@.len(),
            p0@ == spec_stream_part(fizyr_rpc@, streams@.take(i as int), 0),
            p1@ == spec_stream_part(fizyr_rpc@, streams@.take(i as int), 1),
        decreases streams@.len() - i,
    {
        let m = &streams[i];
        let mut sid = String::new();
        push_signed_decimal(&mut sid, m.service_id as i64);
        let variant = to_upper_camel_case(m.name.as_str());
        let q0 = format_bound_text(fizyr_rpc, m.body_type.as_str());
        let q1 = decode_stream_arm_text(sid.as_str(), variant.as_str(), fizyr_rpc);
        p0.append(q0.as_str());
        p1.append(q1.as_str());
        assert(streams@.take(i + 1).drop_last() =~= streams@.take(i as int));
        i += 1;
    }
    assert(streams@.take(streams@.len() as int) =~= streams@);
    (p0, p1)
}

/// Write the four parts of the server code for one service.
fn request_pieces(fizyr_rpc: &str, s: &ServiceModel) -> (r: (String, String, String, String))
    ensures
        r.0@ == spec_request_piece(fizyr_rpc@, *s, 0),
        r.1@ == spec_request_piece(fizyr_rpc@, *s, 1),
        r.2@ == spec_request_piece(fizyr_rpc@, *s, 2),
        r.3@ == spec_request_piece(fizyr_rpc@, *s, 3),
{
    let mut sid = String::new();
    push_signed_decimal(&mut sid, s.service_id as i64);
    let variant = to_upper_camel_case(s.name.as_str());
    let doc = doc_attrs(&s.doc);
    let variant_escaped = escape(variant.as_str());
    let q0 = format_bound_text(fizyr_rpc, s.request_type.as_str());
    let q1 = decode_request_arm_text(sid.as_str(), s.name.as_str(), variant.as_str(), fizyr_rpc);
    let q2 = request_variant_text(doc.as_str(), variant.as_str(), s.name.as_str(), s.request_type.as_str());
    let q3 = request_debug_arm_text(variant.as_str(), variant_escaped.as_str());
    (q0, q1, q2, q3)
}

/// Write the four parts of the server code for all of `services`.
fn request_parts(fizyr_rpc: &str, services: &Vec<ServiceModel>) -> (r: (String, String, String, String))
    ensures
        r.0@ == spec_request_part(fizyr_rpc@, services@, 0),
        r.1@ == spec_request_part(fizyr_rpc@, services@, 1),
        r.2@ == spec_request_part(fizyr_rpc@, services@, 2),
        r.3@ == spec_request_part(fizyr_rpc@, services@, 3),
{
    let mut p0 = String::new();
    let mut p1 = String::new();
    let mut p2 = String::new();
    let mut p3 = String::new();
    let mut i: usize = 0;
    assert(services@.take(0) =~= Seq::<ServiceModel>::empty());
    while i < services.len()
        invariant
            i <= services@.len(),
            p0@ == spec_request_part(fizyr_rpc@, services@.take(i as int), 0),
            p1@ == spec_request_part(fizyr_rpc@, services@.take(i as int), 1),
            p2@ == spec_request_part(fizyr_rpc@, services@.take(i as int), 2),
            p3@ == spec_request_part(fizyr_rpc@, services@.take(i as int), 3),
        decreases services@.len() - i,
    {
        let (q0, q1, q2, q3) = request_pieces(fizyr_rpc, &services[i]);
        p0.append(q0.as_str());
        p1.append(q1.as_str());
        p2.append(q2.as_str());
        p3.append(q3.as_str());
        assert(services@.take(i + 1).drop_last() =~= services@.take(i as int));
        i += 1;
    }
    assert(services@.take(services@.len() as int) =~= services@);
    (p0, p1, p2, p3)
}

/// The bound that the stream messages add to receiving a message.
pub open spec fn spec_stream_message_bound(fizyr_rpc: Seq<char>) -> Seq<char> {
    "StreamMessage: "@ + fizyr_rpc + "::format::FromMessage<F>,\n"@
}

/// The variant of received messages for stream messages.
pub open spec fn spec_stream_variant() -> Seq<char> {
    "/// A stream message.\nStream(StreamMessage),\n"@
}

/// The variant of received messages for requests.
pub open spec fn spec_request_variant() -> Seq<char> {
    "/// A request message.\nRequest(ReceivedRequestHandle<F>),\n"@
}

/// The match arm that formats a received stream message.
pub open spec fn spec_stream_debug_arm() -> Seq<char> {
    "Self::Stream(message) => {\n\tf.debug_tuple(\"Stream\")\n\t\t.field(&message)\n\t\t.finish()\n},\n"@
}

/// The match arm that formats a received request.
pub open spec fn spec_request_debug_arm() -> Seq<char> {
    "Self::Request(request_handle) => {\n\tf.debug_tuple(\"Request\")\n\t\t.field(&request_handle)\n\t\t.finish()\n},\n"@
}

/// The server struct of an interface, the enum of the messages it receives and, when the
/// interface has services, the enum of the requests it receives.
pub open spec fn spec_server_code(fizyr_rpc: Seq<char>, interface_name: Seq<char>, visibility: Seq<char>,
    services: Seq<ServiceModel>, streams: Seq<MessageModel>) -> Seq<char>
{
    let has_streams = streams.len() > 0;
    let has_services = services.len() > 0;
    let empty = Seq::<char>::empty();
    let recv_where = spec_stream_part(fizyr_rpc, streams, 0)
        + (if has_streams { spec_stream_message_bound(fizyr_rpc) } else { empty })
        + spec_request_part(fizyr_rpc, services, 0);
    let generics = if has_services { "F"@ } else { empty };
    let msg_where = if has_services { "F: "@ + fizyr_rpc + "::format::Format,\n"@ } else { empty };
    let variants = (if has_streams { spec_stream_variant() } else { empty })
        + (if has_services { spec_request_variant() } else { empty });
    let debug_arms = (if has_streams { spec_stream_debug_arm() } else { empty })
        + (if has_services { spec_request_debug_arm() } else { empty });
    spec_server_text(spec_escape("RPC server for the "@ + interface_name + " interface."@), visibility, fizyr_rpc,
        generics, recv_where, spec_stream_part(fizyr_rpc, streams, 1), spec_request_part(fizyr_rpc, services, 1),
        msg_where, variants, debug_arms)
        + if has_services {
            spec_received_request_enum_text(
                spec_escape("Enum for all possible incoming requests of the "@ + interface_name + " interface."@),
                visibility, fizyr_rpc, spec_request_part(fizyr_rpc, services, 2), spec_request_part(fizyr_rpc, services, 3))
        } else {
            empty
        }
}

/// Generate the server struct of an interface, the enum of the messages it receives and,
/// when the interface has services, the enum of the requests it receives.
pub fn generate_server(fizyr_rpc: &str, interface_name: &str, visibility: &str, services: &Vec<ServiceModel>, streams: &Vec<MessageModel>) -> (r: String)
    ensures
        r@ == spec_server_code(fizyr_rpc@, interface_name@, visibility@, services@, streams@),
{
    let has_streams = streams.len() > 0;
    let has_services = services.len() > 0;
    let (stream_bounds, stream_arms) = stream_parts(fizyr_rpc, streams);
    let (request_bounds, request_arms, request_variants, request_debug) = request_parts(fizyr_rpc, services);
    let mut recv_where = stream_bounds;
    if has_streams {
        recv_where.append("StreamMessage: ");
        recv_where.append(fizyr_rpc);
        recv_where.append("::format::FromMessage<F>,\n");
    }
    recv_where.append(request_bounds.as_str());
    assert(recv_where@ =~= spec_stream_part(fizyr_rpc@, streams@, 0)
        + (if has_streams { spec_stream_message_bound(fizyr_rpc@) } else { Seq::<char>::empty() })
        + spec_request_part(fizyr_rpc@, services@, 0));
    let generics = if has_services { String::from_str("F") } else { String::new() };
    let mut msg_where = String::new();
    if has_services {
        msg_where.append("F: ");
        msg_where.append(fizyr_rpc);
        msg_where.append("::format::Format,\n");
    }
    let mut variants = String::new();
    let mut debug_arms = String::new();
    if has_streams {
        variants.append("/// A stream message.\nStream(StreamMessage),\n");
        debug_arms.append("Self::Stream(message) => {\n\tf.debug_tuple(\"Stream\")\n\t\t.field(&message)\n\t\t.finish()\n},\n");
    }
    if has_services {
        variants.append("/// A request message.\nRequest(ReceivedRequestHandle<F>),\n");
        debug_arms.append("Self::Request(request_handle) => {\n\tf.debug_tuple(\"Request\")\n\t\t.field(&request_handle)\n\t\t.finish()\n},\n");
    }
    assert(msg_where@ =~= (if has_services { "F: "@ + fizyr_rpc@ + "::format::Format,\n"@ } else { Seq::<char>::empty() }));
    assert(variants@ =~= (if has_streams { spec_stream_variant() } else { Seq::<char>::empty() })
        + (if has_services { spec_request_variant() } else { Seq::<char>::empty() }));
    assert(debug_arms@ =~= (if has_streams { spec_stream_debug_arm() } else { Seq::<char>::empty() })
        + (if has_services { spec_request_debug_arm() } else { Seq::<char>::empty() }));
    let server_doc = escape(surround("RPC server for the ", interface_name, " interface.").as_str());
    let mut out = server_text(server_doc.as_str(), visibility, fizyr_rpc, generics.as_str(), recv_where.as_str(),
        stream_arms.as_str(), request_arms.as_str(), msg_where.as_str(), variants.as_str(), debug_arms.as_str());
    if has_services {
        let enum_doc = escape(surround("Enum for all possible incoming requests of the ", interface_name, " interface.").as_str());
        let e = received_request_enum_text(enum_doc.as_str(), visibility, fizyr_rpc, request_variants.as_str(), request_debug.as_str());
        out.append(e.as_str());
    }
    assert(out@ =~= spec_server_code(fizyr_rpc@, interface_name@, visibility@, services@, streams@));
    out
}

/// A bound that lets a format describe a body type.
#[verifier::opaque]
pub open spec fn spec_type_info_bound_text(fizyr_rpc: Seq<char>, body_type: Seq<char>) -> Seq<char> {
    "F: "@ + fizyr_rpc + "::introspection::FormatTypeInfo<"@ + body_type + ">,\n"@
}

/// Write a bound that lets a format describe a body type.
fn type_info_bound_text(fizyr_rpc: &str, body_type: &str) -> (r: String)
    ensures
        r@ == spec_type_info_bound_text(fizyr_rpc@, body_type@),
{
    proof { reveal(spec_type_info_bound_text); }
    let mut out = String::new();
    out.append("F: ");
    out.append(fizyr_rpc);
    out.append("::introspection::FormatTypeInfo<");
    out.append(body_type);
    out.append(">,\n");
    out
}

/// The statement that adds the description of one update or stream message.
#[verifier::opaque]
pub open spec fn spec_message_definition_text(fizyr_rpc: Seq<char>, kind: Seq<char>, name_escaped: Seq<char>, doc_escaped: Seq<char>, hidden: Seq<char>, sid: Seq<char>, body_type: Seq<char>) -> Seq<char> {
    "vector.push("@ + fizyr_rpc + "::introspection::"@ + kind + " {\n\tname: \""@ + name_escaped + "\".to_string(),\n\tdoc: \""@ + doc_escaped + "\".to_string(),\n\thidden: "@ + hidden + ",\n\tservice_id: "@ + sid + ",\n\tbody: <F as "@ + fizyr_rpc + "::introspection::FormatTypeInfo<"@ + body_type + ">>::type_info(),\n});\n"@
}

/// Write the statement that adds the description of one update or stream message.
fn message_definition_text(fizyr_rpc: &str, kind: &str, name_escaped: &str, doc_escaped: &str, hidden: &str, sid: &str, body_type: &str) -> (r: String)
    ensures
        r@ == spec_message_definition_text(fizyr_rpc@, kind@, name_escaped@, doc_escaped@, hidden@, sid@, body_type@),
{
    proof { reveal(spec_message_definition_text); }
    let mut out = String::new();
    out.append("vector.push(");
    out.append(fizyr_rpc);
    out.append("::introspection::");
    out.append(kind);
    out.append(" {\n\tname: \"");
    out.append(name_escaped);
    out.append("\".to_string(),\n\tdoc: \"");
    out.append(doc_escaped);
    out.append("\".to_string(),\n\thidden: ");
    out.append(hidden);
    out.append(",\n\tservice_id: ");
    out.append(sid);
    out.append(",\n\tbody: <F as ");
    out.append(fizyr_rpc);
    out.append("::introspection::FormatTypeInfo<");
    out.append(body_type);
    out.append(">>::type_info(),\n});\n");
    out
}

/// A block that builds a vector of descriptions.
#[verifier::opaque]
pub open spec fn spec_vector_text(len: Seq<char>, items: Seq<char>) -> Seq<char> {
    "{\n\tlet mut vector = ::std::vec::Vec::with_capacity("@ + len + ");\n"@ + items + "\tvector\n}"@
}

/// Write a block that builds a vector of descriptions.
fn vector_text(len: &str, items: &str) -> (r: String)
    ensures
        r@ == spec_vector_text(len@, items@),
{
    proof { reveal(spec_vector_text); }
    let mut out = String::new();
    out.append("{\n\tlet mut vector = ::std::vec::Vec::with_capacity(");
    out.append(len);
    out.append(");\n");
    out.append(items);
    out.append("\tvector\n}");
    out
}

/// The statement that adds the description of one service.
#[verifier::opaque]
pub open spec fn spec_service_definition_text(fizyr_rpc: Seq<char>, name_escaped: Seq<char>, doc_escaped: Seq<char>, hidden: Seq<char>, sid: Seq<char>, request_type: Seq<char>, response_type: Seq<char>, request_updates: Seq<char>, response_updates: Seq<char>) -> Seq<char> {
    "vector.push("@ + fizyr_rpc + "::introspection::ServiceDefinition {\n\tname: \""@ + name_escaped + "\".to_string(),\n\tdoc: \""@ + doc_escaped + "\".to_string(),\n\thidden: "@ + hidden + ",\n\tservice_id: "@ + sid + ",\n\trequest_body: <F as "@ + fizyr_rpc + "::introspection::FormatTypeInfo<"@ + request_type + ">>::type_info(),\n\tresponse_body: <F as "@ + fizyr_rpc + "::introspection::FormatTypeInfo<"@ + response_type + ">>::type_info(),\n\trequest_updates: "@ + request_updates + ",\n\tresponse_updates: "@ + response_updates + ",\n});\n"@
}

/// Write the statement that adds the description of one service.
fn service_definition_text(fizyr_rpc: &str, name_escaped: &str, doc_escaped: &str, hidden: &str, sid: &str, request_type: &str, response_type: &str, request_updates: &str, response_updates: &str) -> (r: String)
    ensures
        r@ == spec_service_definition_text(fizyr_rpc@, name_escaped@, doc_escaped@, hidden@, sid@, request_type@, response_type@, request_updates@, response_updates@),
{
    proof { reveal(spec_service_definition_text); }
    let mut out = String::new();
    out.append("vector.push(");
    out.append(fizyr_rpc);
    out.append("::introspection::ServiceDefinition {\n\tname: \"");
    out.append(name_escaped);
    out.append("\".to_string(),\n\tdoc: \"");
    out.append(doc_escaped);
    out.append("\".to_string(),\n\thidden: ");
    out.append(hidden);
    out.append(",\n\tservice_id: ");
    out.append(sid);
    out.append(",\n\trequest_body: <F as ");
    out.append(fizyr_rpc);
    out.append("::introspection::FormatTypeInfo<");
    out.append(request_type);
    out.append(">>::type_info(),\n\tresponse_body: <F as ");
    out.append(fizyr_rpc);
    out.append("::introspection::FormatTypeInfo<");
    out.append(response_type);
    out.append(">>::type_info(),\n\trequest_updates: ");
    out.append(request_updates);
    out.append(",\n\tresponse_updates: ");
    out.append(response_updates);
    out.append(",\n});\n");
    out
}

/// The struct that describes an interface.
#[verifier::opaque]
pub open spec fn spec_interface_struct_text(interface_doc: Seq<char>, visibility: Seq<char>, name_escaped: Seq<char>, doc_escaped: Seq<char>, hidden: Seq<char>, fizyr_rpc: Seq<char>, services_bounds: Seq<char>, streams_bounds: Seq<char>, service_defs: Seq<char>, stream_defs: Seq<char>) -> Seq<char> {
    "#[doc = \""@ + interface_doc + "\"]\n#[derive(Debug)]\n"@ + visibility + " struct Interface {\n\t_priv: (),\n}\n\nimpl Interface {\n\t/// Get the name of the interface.\n\tpub const fn name() -> &'static str {\n\t\t\""@ + name_escaped + "\"\n\t}\n\n\t/// Get the documentation of the interface.\n\t///\n\t/// This string may contain rustdoc compatible markup.\n\tpub const fn doc() -> &'static str {\n\t\t\""@ + doc_escaped + "\"\n\t}\n\n\t/// Get the full interface definition.\n\t///\n\t/// The type information for message bodies depends on serialization format used.\n\tpub fn definition<F>() -> "@ + fizyr_rpc + "::introspection::InterfaceDefinition<F::TypeInfo>\n\twhere\n\t\tF: "@ + fizyr_rpc + "::introspection::IntrospectableFormat,\n"@ + services_bounds + streams_bounds + "\t{\n\t\t"@ + fizyr_rpc + "::introspection::InterfaceDefinition {\n\t\t\tname: \""@ + name_escaped + "\".to_string(),\n\t\t\tdoc: \""@ + doc_escaped + "\".to_string(),\n\t\t\thidden: "@ + hidden + ",\n\t\t\tservices: Self::services::<F>(),\n\t\t\tstreams: Self::streams::<F>(),\n\t\t}\n\t}\n\n\t/// Get the list of services in the interface.\n\t///\n\t/// The type information for message bodies depends on serialization format used.\n\tpub fn services<F>() -> ::std::vec::Vec<"@ + fizyr_rpc + "::introspection::ServiceDefinition<F::TypeInfo>>\n\twhere\n\t\tF: "@ + fizyr_rpc + "::introspection::IntrospectableFormat,\n"@ + services_bounds + "\t{\n\t\t"@ + service_defs + "\n\t}\n\n\t/// Get the list of streams in the interface.\n\t///\n\t/// The type information for message bodies depends on serialization format used.\n\tpub fn streams<F>() -> ::std::vec::Vec<"@ + fizyr_rpc + "::introspection::StreamDefinition<F::TypeInfo>>\n\twhere\n\t\tF: "@ + fizyr_rpc + "::introspection::IntrospectableFormat,\n"@ + streams_bounds + "\t{\n\t\t"@ + stream_defs + "\n\t}\n}\n"@
}

/// Write the struct that describes an interface.
fn interface_struct_text(interface_doc: &str, visibility: &str, name_escaped: &str, doc_escaped: &str, hidden: &str, fizyr_rpc: &str, services_bounds: &str, streams_bounds: &str, service_defs: &str, stream_defs: &str) -> (r: String)
    ensures
        r@ == spec_interface_struct_text(interface_doc@, visibility@, name_escaped@, doc_escaped@, hidden@, fizyr_rpc@, services_bounds@, streams_bounds@, service_defs@, stream_defs@),
{
    proof { reveal(spec_interface_struct_text); }
    let mut out = String::new();
    out.append("#[doc = \"");
    out.append(interface_doc);
    out.append("\"]\n#[derive(Debug)]\n");
    out.append(visibility);
    out.append(" struct Interface {\n\t_priv: (),\n}\n\nimpl Interface {\n\t/// Get the name of the interface.\n\tpub const fn name() -> &'static str {\n\t\t\"");
    out.append(name_escaped);
    out.append("\"\n\t}\n\n\t/// Get the documentation of the interface.\n\t///\n\t/// This string may contain rustdoc compatible markup.\n\tpub const fn doc() -> &'static str {\n\t\t\"");
    out.append(doc_escaped);
    out.append("\"\n\t}\n\n\t/// Get the full interface definition.\n\t///\n\t/// The type information for message bodies depends on serialization format used.\n\tpub fn definition<F>() -> ");
    out.append(fizyr_rpc);
    out.append("::introspection::InterfaceDefinition<F::TypeInfo>\n\twhere\n\t\tF: ");
    out.append(fizyr_rpc);
    out.append("::introspection::IntrospectableFormat,\n");
    out.append(services_bounds);
    out.append(streams_bounds);
    out.append("\t{\n\t\t");
    out.append(fizyr_rpc);
    out.append("::introspection::InterfaceDefinition {\n\t\t\tname: \"");
    out.append(name_escaped);
    out.append("\".to_string(),\n\t\t\tdoc: \"");
    out.append(doc_escaped);
    out.append("\".to_string(),\n\t\t\thidden: ");
    out.append(hidden);
    out.append(",\n\t\t\tservices: Self::services::<F>(),\n\t\t\tstreams: Self::streams::<F>(),\n\t\t}\n\t}\n\n\t/// Get the list of services in the interface.\n\t///\n\t/// The type information for message bodies depends on serialization format used.\n\tpub fn services<F>() -> ::std::vec::Vec<");
    out.append(fizyr_rpc);
    out.append("::introspection::ServiceDefinition<F::TypeInfo>>\n\twhere\n\t\tF: ");
    out.append(fizyr_rpc);
    out.append("::introspection::IntrospectableFormat,\n");
    out.append(services_bounds);
    out.append("\t{\n\t\t");
    out.append(service_defs);
    out.append("\n\t}\n\n\t/// Get the list of streams in the interface.\n\t///\n\t/// The type information for message bodies depends on serialization format used.\n\tpub fn streams<F>() -> ::std::vec::Vec<");
    out.append(fizyr_rpc);
    out.append("::introspection::StreamDefinition<F::TypeInfo>>\n\twhere\n\t\tF: ");
    out.append(fizyr_rpc);
    out.append("::introspection::IntrospectableFormat,\n");
    out.append(streams_bounds);
    out.append("\t{\n\t\t");
    out.append(stream_defs);
    out.append("\n\t}\n}\n");
    out
}

/// The client function that sends one stream message.
#[verifier::opaque]
pub open spec fn spec_stream_send_fn_text(name_escaped: Seq<char>, name: Seq<char>, body_arg: Seq<char>, fizyr_rpc: Seq<char>, body_type: Seq<char>, body_val: Seq<char>, sid: Seq<char>) -> Seq<char> {
    "#[doc = \"Send a `"@ + name_escaped + "` stream message to the remote peer.\"]\n#[allow(clippy::ptr_arg)]\npub async fn send_"@ + name + "(&self, "@ + body_arg + ") -> ::core::result::Result<(), "@ + fizyr_rpc + "::Error>\nwhere\n\tF: "@ + fizyr_rpc + "::format::EncodeBody<"@ + body_type + ">,\n{\n\tlet encoded = F::encode_body("@ + body_val + ").map_err("@ + fizyr_rpc + "::Error::encode_failed)?;\n\tself.peer.send_stream("@ + sid + ", encoded).await?;\n\t::core::result::Result::Ok(())\n}\n"@
}

/// Write the client function that sends one stream message.
fn stream_send_fn_text(name_escaped: &str, name: &str, body_arg: &str, fizyr_rpc: &str, body_type: &str, body_val: &str, sid: &str) -> (r: String)
    ensures
        r@ == spec_stream_send_fn_text(name_escaped@, name@, body_arg@, fizyr_rpc@, body_type@, body_val@, sid@),
{
    proof { reveal(spec_stream_send_fn_text); }
    let mut out = String::new();
    out.append("#[doc = \"Send a `");
    out.append(name_escaped);
    out.append("` stream message to the remote peer.\"]\n#[allow(clippy::ptr_arg)]\npub async fn send_");
    out.append(name);
    out.append("(&self, ");
    out.append(body_arg);
    out.append(") -> ::core::result::Result<(), ");
    out.append(fizyr_rpc);
    out.append("::Error>\nwhere\n\tF: ");
    out.append(fizyr_rpc);
    out.append("::format::EncodeBody<");
    out.append(body_type);
    out.append(">,\n{\n\tlet encoded = F::encode_body(");
    out.append(body_val);
    out.append(").map_err(");
    out.append(fizyr_rpc);
    out.append("::Error::encode_failed)?;\n\tself.peer.send_stream(");
    out.append(sid);
    out.append(", encoded).await?;\n\t::core::result::Result::Ok(())\n}\n");
    out
}

/// The text of a `bool`.
pub open spec fn spec_bool_text(b: bool) -> Seq<char> {
    if b { "true"@ } else { "false"@ }
}

/// Write the text of a `bool`.
fn bool_text(b: bool) -> (r: String)
    ensures
        r@ == spec_bool_text(b),
{
    if b { String::from_str("true") } else { String::from_str("false") }
}

/// The documentation text of doc comment lines, as written inside a string literal.
pub open spec fn spec_doc_literal(doc: Seq<String>) -> Seq<char> {
    spec_escape(spec_doc_string(doc.map_values(|line: String| line@)))
}

/// One part of the description code for one update or stream message: the bound for describing
/// its body (`part` 0) or the statement that adds its description (`part` 1).
/// A hidden message adds nothing.
pub open spec fn spec_definition_piece(fizyr_rpc: Seq<char>, kind: Seq<char>, m: MessageModel, part: int) -> Seq<char> {
    if m.hidden {
        Seq::<char>::empty()
    } else if part == 0 {
        spec_type_info_bound_text(fizyr_rpc, m.body_type@)
    } else {
        spec_message_definition_text(fizyr_rpc, kind, spec_escape(m.name@), spec_doc_literal(m.doc@),
            spec_bool_text(m.hidden), spec_signed_decimal(m.service_id as int), m.body_type@)
    }
}

/// One part of the description code for all of `messages`, in order.
pub open spec fn spec_definition_part(fizyr_rpc: Seq<char>, kind: Seq<char>, messages: Seq<MessageModel>, part: int) -> Seq<char>
    decreases messages.len(),
{
    if messages.len() == 0 {
        Seq::<char>::empty()
    } else {
        spec_definition_part(fizyr_rpc, kind, messages.drop_last(), part) + spec_definition_piece(fizyr_rpc, kind, messages.last(), part)
    }
}

/// The number of messages in `messages` that are not hidden.
pub open spec fn spec_shown_message_count(messages: Seq<MessageModel>) -> nat
    decreases messages.len(),
{
    if messages.len() == 0 {
        0
    } else {
        spec_shown_message_count(messages.drop_last()) + if messages.last().hidden { 0nat } else { 1nat }
    }
}

/// The bounds and the vector of descriptions of the messages of `messages` that are not hidden,
/// in order, whose descriptions are of type `kind`.
pub open spec fn spec_definitions(fizyr_rpc: Seq<char>, kind: Seq<char>, messages: Seq<MessageModel>) -> (Seq<char>, Seq<char>) {
    (spec_definition_part(fizyr_rpc, kind, messages, 0),
        spec_vector_text(spec_decimal(spec_shown_message_count(messages)), spec_definition_part(fizyr_rpc, kind, messages, 1)))
}

/// Write the bounds and the vector of descriptions of the messages of `messages` that are not
/// hidden, whose descriptions are of type `kind`.
fn definitions(fizyr_rpc: &str, kind: &str, messages: &Vec<MessageModel>) -> (r: (String, String))
    ensures
        (r.0@, r.1@) == spec_definitions(fizyr_rpc@, kind@, messages@),
{
    let mut p0 = String::new();
    let mut p1 = String::new();
    let mut shown: usize = 0;
    let mut i: usize = 0;
    assert(messages@.take(0) =~= Seq::<MessageModel>::empty());
    while i < messages.len()
        invariant
            i <= messages@.len(),
            shown <= i,
            shown == spec_shown_message_count(messages@.take(i as int)),
            p0@ == spec_definition_part(fizyr_rpc@, kind@, messages@.take(i as int), 0),
            p1@ == spec_definition_part(fizyr_rpc@, kind@, messages@.take(i as int), 1),
        decreases messages@.len() - i,
    {
        let m = &messages[i];
        assert(messages@.take(i + 1).drop_last() =~= messages@.take(i as int));
        if !m.hidden {
            let mut sid = String::new();
            push_signed_decimal(&mut sid, m.service_id as i64);
            let name = escape(m.name.as_str());
            let doc = escape(to_doc_string(&m.doc).as_str());
            let hidden = bool_text(m.hidden);
            let q0 = type_info_bound_text(fizyr_rpc, m.body_type.as_str());
            let q1 = message_definition_text(fizyr_rpc, kind, name.as_str(), doc.as_str(), hidden.as_str(), sid.as_str(), m.body_type.as_str());
            p0.append(q0.as_str());
            p1.append(q1.as_str());
            shown += 1;
        }
        i += 1;
    }
    assert(messages@.take(messages@.len() as int) =~= messages@);
    let mut len = String::new();
    push_decimal(&mut len, shown as u64);
    let v = vector_text(len.as_str(), p1.as_str());
    (p0, v)
}

/// One part of the description code for one service: its bounds (`part` 0) or the statement
/// that adds its description (`part` 1).
/// A hidden service adds nothing.
pub open spec fn spec_service_definition_piece(fizyr_rpc: Seq<char>, s: ServiceModel, part: int) -> Seq<char> {
    let req = spec_definitions(fizyr_rpc, "UpdateDefinition"@, s.request_updates@);
    let resp = spec_definitions(fizyr_rpc, "UpdateDefinition"@, s.response_updates@);
    if s.hidden {
        Seq::<char>::empty()
    } else if part == 0 {
        req.0 + resp.0 + spec_type_info_bound_text(fizyr_rpc, s.request_type@) + spec_type_info_bound_text(fizyr_rpc, s.response_type@)
    } else {
        spec_service_definition_text(fizyr_rpc, spec_escape(s.name@), spec_doc_literal(s.doc@), spec_bool_text(s.hidden),
            spec_signed_decimal(s.service_id as int), s.request_type@, s.response_type@, req.1, resp.1)
    }
}

/// One part of the description code for all of `services`, in order.
pub open spec fn spec_service_definition_part(fizyr_rpc: Seq<char>, services: Seq<ServiceModel>, part: int) -> Seq<char>
    decreases services.len(),
{
    if services.len() == 0 {
        Seq::<char>::empty()
    } else {
        spec_service_definition_part(fizyr_rpc, services.drop_last(), part) + spec_service_definition_piece(fizyr_rpc, services.last(), part)
    }
}

/// Write the two parts of the description code for one service.
fn service_definition_pieces(fizyr_rpc: &str, s: &ServiceModel) -> (r: (String, String))
    ensures
        r.0@ == spec_service_definition_piece(fizyr_rpc@, *s, 0),
        r.1@ == spec_service_definition_piece(fizyr_rpc@, *s, 1),
{
    if s.hidden {
        return (String::new(), String::new());
    }
    let (req_bounds, req_defs) = definitions(fizyr_rpc, "UpdateDefinition", &s.request_updates);
    let (resp_bounds, resp_defs) = definitions(fizyr_rpc, "UpdateDefinition", &s.response_updates);
    let mut bounds = req_bounds;
    bounds.append(resp_bounds.as_str());
    let b1 = type_info_bound_text(fizyr_rpc, s.request_type.as_str());
    let b2 = type_info_bound_text(fizyr_rpc, s.response_type.as_str());
    bounds.append(b1.as_str());
    bounds.append(b2.as_str());
    let mut sid = String::new();
    push_signed_decimal(&mut sid, s.service_id as i64);
    let name = escape(s.name.as_str());
    let doc = escape(to_doc_string(&s.doc).as_str());
    let hidden = bool_text(s.hidden);
    let def = service_definition_text(fizyr_rpc, name.as_str(), doc.as_str(), hidden.as_str(), sid.as_str(),
        s.request_type.as_str(), s.response_type.as_str(), req_defs.as_str(), resp_defs.as_str());
    (bounds, def)
}

/// The number of services in `services` that are not hidden.
pub open spec fn spec_shown_service_count(services: Seq<ServiceModel>) -> nat
    decreases services.len(),
{
    if services.len() == 0 {
        0
    } else {
        spec_shown_service_count(services.drop_last()) + if services.last().hidden { 0nat } else { 1nat }
    }
}

/// The bounds and the vector of descriptions of the services of `services` that are not hidden,
/// in order.
pub open spec fn spec_service_definitions(fizyr_rpc: Seq<char>, services: Seq<ServiceModel>) -> (Seq<char>, Seq<char>) {
    (spec_service_definition_part(fizyr_rpc, services, 0),
        spec_vector_text(spec_decimal(spec_shown_service_count(services)), spec_service_definition_part(fizyr_rpc, services, 1)))
}

/// The services of `services` that are not hidden, in order.
pub open spec fn spec_shown_services(services: Seq<ServiceModel>) -> Seq<ServiceModel> {
    services.filter(|s: ServiceModel| !s.hidden)
}

/// The messages of `messages` that are not hidden, in order.
pub open spec fn spec_shown_messages(messages: Seq<MessageModel>) -> Seq<MessageModel> {
    messages.filter(|m: MessageModel| !m.hidden)
}

/// Each part of the description of services is that of the services that are not hidden.
proof fn lemma_service_part_of_shown(fizyr_rpc: Seq<char>, services: Seq<ServiceModel>, part: int)
    ensures
        spec_service_definition_part(fizyr_rpc, services, part)
            == spec_service_definition_part(fizyr_rpc, spec_shown_services(services), part),
        spec_shown_service_count(services) == spec_shown_services(services).len(),
    decreases services.len(),
{
    reveal(Seq::filter);
    if services.len() > 0 {
        let rest = services.drop_last();
        lemma_service_part_of_shown(fizyr_rpc, rest, part);
        let shown = spec_shown_services(services);
        if !services.last().hidden {
            assert(shown.drop_last() =~= spec_shown_services(rest));
        } else {
            assert(shown =~= spec_shown_services(rest));
        }
    }
}

/// Each part of the description of messages is that of the messages that are not hidden.
proof fn lemma_message_part_of_shown(fizyr_rpc: Seq<char>, kind: Seq<char>, messages: Seq<MessageModel>, part: int)
    ensures
        spec_definition_part(fizyr_rpc, kind, messages, part)
            == spec_definition_part(fizyr_rpc, kind, spec_shown_messages(messages), part),
        spec_shown_message_count(messages) == spec_shown_messages(messages).len(),
    decreases messages.len(),
{
    reveal(Seq::filter);
    if messages.len() > 0 {
        let rest = messages.drop_last();
        lemma_message_part_of_shown(fizyr_rpc, kind, rest, part);
        let shown = spec_shown_messages(messages);
        if !messages.last().hidden {
            assert(shown.drop_last() =~= spec_shown_messages(rest));
        } else {
            assert(shown =~= spec_shown_messages(rest));
        }
    }
}

/// Hidden items are left out of the description of an interface: the description of services,
/// and of updates or stream messages, is that of the ones that are not hidden, in order,
/// and the description of a service lists only the updates that are not hidden.
pub proof fn lemma_description_leaves_out_hidden(fizyr_rpc: Seq<char>, kind: Seq<char>, services: Seq<ServiceModel>, messages: Seq<MessageModel>)
    ensures
        spec_service_definitions(fizyr_rpc, services) == spec_service_definitions(fizyr_rpc, spec_shown_services(services)),
        spec_definitions(fizyr_rpc, kind, messages) == spec_definitions(fizyr_rpc, kind, spec_shown_messages(messages)),
        forall|i: int| 0 <= i < spec_shown_services(services).len() ==> !(#[trigger] spec_shown_services(services)[i]).hidden,
        forall|i: int| 0 <= i < spec_shown_messages(messages).len() ==> !(#[trigger] spec_shown_messages(messages)[i]).hidden,
{
    let shown_services = spec_shown_services(services);
    let shown_messages = spec_shown_messages(messages);
    lemma_service_part_of_shown(fizyr_rpc, services, 0);
    lemma_service_part_of_shown(fizyr_rpc, services, 1);
    lemma_service_part_of_shown(fizyr_rpc, shown_services, 0);
    lemma_service_part_of_shown(fizyr_rpc, shown_services, 1);
    lemma_message_part_of_shown(fizyr_rpc, kind, messages, 0);
    lemma_message_part_of_shown(fizyr_rpc, kind, messages, 1);
    lemma_message_part_of_shown(fizyr_rpc, kind, shown_messages, 0);
    lemma_message_part_of_shown(fizyr_rpc, kind, shown_messages, 1);
    assert forall|i: int| 0 <= i < shown_services.len() implies !(#[trigger] shown_services[i]).hidden by {
        services.lemma_filter_pred(|s: ServiceModel| !s.hidden, i);
    }
    assert forall|i: int| 0 <= i < shown_messages.len() implies !(#[trigger] shown_messages[i]).hidden by {
        messages.lemma_filter_pred(|m: MessageModel| !m.hidden, i);
    }
    lemma_filter_idempotent_services(services);
    lemma_filter_idempotent_messages(messages);
}

/// Leaving out hidden services a second time leaves out nothing more.
proof fn lemma_filter_idempotent_services(services: Seq<ServiceModel>)
    ensures
        spec_shown_services(spec_shown_services(services)) == spec_shown_services(services),
    decreases services.len(),
{
    reveal(Seq::filter);
    if services.len() > 0 {
        let rest = services.drop_last();
        lemma_filter_idempotent_services(rest);
        let shown = spec_shown_services(services);
        if !services.last().hidden {
            assert(shown.drop_last() =~= spec_shown_services(rest));
        } else {
            assert(shown =~= spec_shown_services(rest));
        }
    }
}

/// Leaving out hidden messages a second time leaves out nothing more.
proof fn lemma_filter_idempotent_messages(messages: Seq<MessageModel>)
    ensures
        spec_shown_messages(spec_shown_messages(messages)) == spec_shown_messages(messages),
    decreases messages.len(),
{
    reveal(Seq::filter);
    if messages.len() > 0 {
        let rest = messages.drop_last();
        lemma_filter_idempotent_messages(rest);
        let shown = spec_shown_messages(messages);
        if !messages.last().hidden {
            assert(shown.drop_last() =~= spec_shown_messages(rest));
        } else {
            assert(shown =~= spec_shown_messages(rest));
        }
    }
}

/// Write the bounds and the vector of descriptions of `services`.
fn service_definitions(fizyr_rpc: &str, services: &Vec<ServiceModel>) -> (r: (String, String))
    ensures
        (r.0@, r.1@) == spec_service_definitions(fizyr_rpc@, services@),
{
    let mut p0 = String::new();
    let mut p1 = String::new();
    let mut shown: usize = 0;
    let mut i: usize = 0;
    assert(services@.take(0) =~= Seq::<ServiceModel>::empty());
    while i < services.len()
        invariant
            i <= services@.len(),
            shown <= i,
            shown == spec_shown_service_count(services@.take(i as int)),
            p0@ == spec_service_definition_part(fizyr_rpc@, services@.take(i as int), 0),
            p1@ == spec_service_definition_part(fizyr_rpc@, services@.take(i as int), 1),
        decreases services@.len() - i,
    {
        let (q0, q1) = service_definition_pieces(fizyr_rpc, &services[i]);
        p0.append(q0.as_str());
        p1.append(q1.as_str());
        if !services[i].hidden {
            shown += 1;
        }
        assert(services@.take(i + 1).drop_last() =~= services@.take(i as int));
        i += 1;
    }
    assert(services@.take(services@.len() as int) =~= services@);
    let mut len = String::new();
    push_decimal(&mut len, shown as u64);
    let v = vector_text(len.as_str(), p1.as_str());
    (p0, v)
}

/// The struct that describes an interface: its name, documentation, services and streams.
pub open spec fn spec_interface_struct_code(fizyr_rpc: Seq<char>, interface_name: Seq<char>, doc: Seq<String>, hidden: bool,
    visibility: Seq<char>, services: Seq<ServiceModel>, streams: Seq<MessageModel>) -> Seq<char>
{
    let s = spec_service_definitions(fizyr_rpc, services);
    let t = spec_definitions(fizyr_rpc, "StreamDefinition"@, streams);
    spec_interface_struct_text(spec_escape("Introspection for the "@ + interface_name + " RPC interface."@), visibility,
        spec_escape(interface_name), spec_doc_literal(doc), spec_bool_text(hidden), fizyr_rpc, s.0, t.0, s.1, t.1)
}

/// Generate the struct that describes an interface: its name, documentation, services and streams.
pub fn generate_interface_struct(fizyr_rpc: &str, interface_name: &str, doc: &Vec<String>, hidden: bool,
    visibility: &str, services: &Vec<ServiceModel>, streams: &Vec<MessageModel>) -> (r: String)
    ensures
        r@ == spec_interface_struct_code(fizyr_rpc@, interface_name@, doc@, hidden, visibility@, services@, streams@),
{
    let (services_bounds, service_defs) = service_definitions(fizyr_rpc, services);
    let (streams_bounds, stream_defs) = definitions(fizyr_rpc, "StreamDefinition", streams);
    let interface_doc = escape(surround("Introspection for the ", interface_name, " RPC interface.").as_str());
    let name = escape(interface_name);
    let doc_text = escape(to_doc_string(doc).as_str());
    let hidden_text = bool_text(hidden);
    interface_struct_text(interface_doc.as_str(), visibility, name.as_str(), doc_text.as_str(), hidden_text.as_str(), fizyr_rpc,
        services_bounds.as_str(), streams_bounds.as_str(), service_defs.as_str(), stream_defs.as_str())
}

/// The client functions that send the stream messages of an interface, in order.
pub open spec fn spec_stream_send_fns(fizyr_rpc: Seq<char>, streams: Seq<MessageModel>) -> Seq<char>
    decreases streams.len(),
{
    if streams.len() == 0 {
        Seq::<char>::empty()
    } else {
        let m = streams.last();
        let arg = if m.body_is_unit { Seq::<char>::empty() } else { "body: &"@ + m.body_type@ };
        let val = if m.body_is_unit { "&()"@ } else { "body"@ };
        spec_stream_send_fns(fizyr_rpc, streams.drop_last())
            + spec_stream_send_fn_text(spec_escape(m.name@), m.name@, arg, fizyr_rpc, m.body_type@, val, spec_signed_decimal(m.service_id as int))
    }
}

/// The code of the stream messages of an interface: the enum of stream messages (when there are
/// any) and the client functions that send them.
pub open spec fn spec_streams_code(fizyr_rpc: Seq<char>, interface_name: Seq<char>, streams: Seq<MessageModel>) -> (Seq<char>, Seq<char>) {
    let items = if streams.len() > 0 {
        spec_message_enum_code(fizyr_rpc, streams, "StreamMessage"@, "A stream message for the "@ + interface_name + " interface."@)
    } else {
        Seq::<char>::empty()
    };
    (items, spec_stream_send_fns(fizyr_rpc, streams))
}

/// Generate the code of the stream messages of an interface: the enum of stream messages
/// (when there are any) and the client functions that send them.
pub fn generate_streams(fizyr_rpc: &str, interface_name: &str, streams: &Vec<MessageModel>) -> (r: (String, String))
    ensures
        (r.0@, r.1@) == spec_streams_code(fizyr_rpc@, interface_name@, streams@),
{
    let items = if streams.len() > 0 {
        let doc = surround("A stream message for the ", interface_name, " interface.");
        generate_message_enum(fizyr_rpc, streams, "StreamMessage", doc.as_str())
    } else {
        String::new()
    };
    let mut fns = String::new();
    let mut i: usize = 0;
    assert(streams@.take(0) =~= Seq::<MessageModel>::empty());
    while i < streams.len()
        invariant
            i <= streams@.len(),
            fns@ == spec_stream_send_fns(fizyr_rpc@, streams@.take(i as int)),
        decreases streams@.len() - i,
    {
        let m = &streams[i];
        let mut arg = String::new();
        if !m.body_is_unit {
            arg.append("body: &");
            arg.append(m.body_type.as_str());
        }
        let val = if m.body_is_unit { String::from_str("&()") } else { String::from_str("body") };
        let mut sid = String::new();
        push_signed_decimal(&mut sid, m.service_id as i64);
        let name = escape(m.name.as_str());
        let f = stream_send_fn_text(name.as_str(), m.name.as_str(), arg.as_str(), fizyr_rpc, m.body_type.as_str(), val.as_str(), sid.as_str());
        fns.append(f.as_str());
        assert(streams@.take(i + 1).drop_last() =~= streams@.take(i as int));
        i += 1;
    }
    assert(streams@.take(streams@.len() as int) =~= streams@);
    (items, fns)
}

/// An interface definition.
#[derive(Debug)]
pub struct InterfaceModel {
    /// The name of the interface.
    pub name: String,

    /// The lines of documentation of the interface.
    pub doc: Vec<String>,

    /// The interface is left out of generated documentation.
    pub hidden: bool,

    /// The visibility of the interface, as written.
    pub visibility: String,

    /// The services of the interface.
    pub services: Vec<ServiceModel>,

    /// The stream messages of the interface.
    pub streams: Vec<MessageModel>,
}

/// All code for an interface: the struct that describes it, the support types of its services
/// and stream messages, the client and the server.
pub open spec fn spec_interface_code(fizyr_rpc: Seq<char>, i: InterfaceModel) -> Seq<char> {
    let services = (spec_services_part(fizyr_rpc, i.services@, i.visibility@, 0),
        spec_services_part(fizyr_rpc, i.services@, i.visibility@, 1));
    let streams = spec_streams_code(fizyr_rpc, i.name@, i.streams@);
    spec_interface_struct_code(fizyr_rpc, i.name@, i.doc@, i.hidden, i.visibility@, i.services@, i.streams@)
        + services.0 + streams.0
        + spec_client_code(fizyr_rpc, i.name@, i.visibility@, services.1 + streams.1)
        + spec_server_code(fizyr_rpc, i.name@, i.visibility@, i.services@, i.streams@)
}

/// Generate all code for an interface: the struct that describes it, the support types of its
/// services and stream messages, the client and the server.
///
/// `fizyr_rpc` is the path of this crate in the generated code.
pub fn generate_interface(fizyr_rpc: &str, i: &InterfaceModel) -> (r: String)
    ensures
        r@ == spec_interface_code(fizyr_rpc@, *i),
{
    let mut out = generate_interface_struct(fizyr_rpc, i.name.as_str(), &i.doc, i.hidden, i.visibility.as_str(), &i.services, &i.streams);
    let (service_items, service_client) = generate_services(fizyr_rpc, &i.services, i.visibility.as_str());
    let (stream_items, stream_client) = generate_streams(fizyr_rpc, i.name.as_str(), &i.streams);
    out.append(service_items.as_str());
    out.append(stream_items.as_str());
    let mut extra_impl = service_client;
    extra_impl.append(stream_client.as_str());
    let client = generate_client(fizyr_rpc, i.name.as_str(), i.visibility.as_str(), extra_impl.as_str());
    out.append(client.as_str());
    let server = generate_server(fizyr_rpc, i.name.as_str(), i.visibility.as_str(), &i.services, &i.streams);
    out.append(server.as_str());
    out
}


/// `piece` occurs in `text`, starting at position `k`.
pub open spec fn spec_occurs_at(text: Seq<char>, piece: Seq<char>, k: int) -> bool {
    &&& 0 <= k
    &&& k + piece.len() <= text.len()
    &&& text.subrange(k, k + piece.len()) == piece
}

/// `piece` occurs somewhere in `text`.
pub open spec fn spec_contains_text(text: Seq<char>, piece: Seq<char>) -> bool {
    exists|k: int| spec_occurs_at(text, piece, k)
}

/// The part of a generated client call after the request is encoded: it sends the request
/// with service ID `sid`, waits for the response, and gives the remote error when the
/// response has the error service ID, or else the decoded response body.
pub open spec fn spec_call_and_answer(fizyr_rpc: Seq<char>, sid: Seq<char>) -> Seq<char> {
    "::Error::encode_failed)?;\n\tlet mut request = self.peer.send_request("@ + sid
        + ", request_body).await?;\n\n\tlet response = request.recv_response().await?;\n\tif response.header.service_id == "@
        + fizyr_rpc + "::service_id::ERROR {\n\t\tuse "@ + fizyr_rpc
        + "::Body;\n\t\tlet message = response.body\n\t\t\t.into_error()\n\t\t\t.map_err(|e| "@ + fizyr_rpc
        + "::Error::decode_failed(::std::boxed::Box::new(e)))?;\n\t\t::core::result::Result::Err("@ + fizyr_rpc
        + "::Error::remote_error(message))\n\t} else {\n\t\tlet decoded = F::decode_body(response.body).map_err("@ + fizyr_rpc
        + "::Error::decode_failed)?;\n\t\t::core::result::Result::Ok(decoded)\n\t}\n}\n"@
}

/// The client function of a service without updates sends the request with the service's own
/// ID, and answers with the remote error exactly when the response carries the error service ID
/// (`service_id::ERROR`), and with the decoded response body otherwise.
pub proof fn lemma_direct_call_meaning(fizyr_rpc: Seq<char>, s: ServiceModel, visibility: Seq<char>)
    requires
        s.request_updates@.len() == 0,
        s.response_updates@.len() == 0,
    ensures
        spec_contains_text(spec_service_code(fizyr_rpc, s, visibility).1,
            spec_call_and_answer(fizyr_rpc, spec_signed_decimal(s.service_id as int))),
{
    reveal(spec_service_code);
    reveal(spec_direct_call_text);
    let request_param = if s.request_is_unit { Seq::<char>::empty() } else { "request: &"@ + s.request_type@ };
    let request_body = if s.request_is_unit { "F::encode_body(&())"@ } else { "F::encode_body(request)"@ };
    let sid = spec_signed_decimal(s.service_id as int);
    let doc = spec_doc_attrs(s.doc@);
    let f = fizyr_rpc;
    let name = s.name@;
    let response_type = s.response_type@;
    let request_type = s.request_type@;
    let text = spec_service_code(fizyr_rpc, s, visibility).1;
    let prefix = doc + "#[allow(clippy::ptr_arg)]\npub async fn "@ + name + "(&self, "@ + request_param + ") -> ::core::result::Result<"@ + response_type + ", "@ + f + "::Error>\nwhere\n\tF: "@ + f + "::util::format::EncodeBody<"@ + request_type + ">,\n\tF: "@ + f + "::util::format::DecodeBody<"@ + response_type + ">,\n{\n\tlet request_body = "@ + request_body + ".map_err("@ + f;
    let piece = spec_call_and_answer(f, sid);
    assert(text =~= prefix + piece);
    assert(text.subrange(prefix.len() as int, (prefix.len() + piece.len()) as int) =~= piece);
    assert(spec_occurs_at(text, piece, prefix.len() as int));
}


/// Text that occurs in `t` also occurs in `t` with text around it.
pub proof fn lemma_contains_within(a: Seq<char>, t: Seq<char>, b: Seq<char>, piece: Seq<char>)
    requires
        spec_contains_text(t, piece),
    ensures
        spec_contains_text(a + t + b, piece),
{
    let k = choose|k: int| spec_occurs_at(t, piece, k);
    let whole = a + t + b;
    assert(whole.subrange(a.len() + k, a.len() + k + piece.len()) =~= t.subrange(k, k + piece.len()));
    assert(spec_occurs_at(whole, piece, a.len() + k));
}

/// The part of the client function of a stream message from its name on: the function
/// `send_<name>` encodes the body and sends it as a stream message with service ID `sid`.
pub open spec fn spec_stream_send_piece(name: Seq<char>, body_arg: Seq<char>, fizyr_rpc: Seq<char>, body_type: Seq<char>, body_val: Seq<char>, sid: Seq<char>) -> Seq<char> {
    name + "(&self, "@ + body_arg + ") -> ::core::result::Result<(), "@ + fizyr_rpc
        + "::Error>\nwhere\n\tF: "@ + fizyr_rpc + "::format::EncodeBody<"@ + body_type
        + ">,\n{\n\tlet encoded = F::encode_body("@ + body_val + ").map_err("@ + fizyr_rpc
        + "::Error::encode_failed)?;\n\tself.peer.send_stream("@
        + sid
        + ", encoded).await?;\n\t::core::result::Result::Ok(())\n}\n"@
}

/// The parameter of the client function of a stream message: none for a unit body.
pub open spec fn spec_stream_body_arg(m: MessageModel) -> Seq<char> {
    if m.body_is_unit { Seq::<char>::empty() } else { "body: &"@ + m.body_type@ }
}

/// The body that the client function of a stream message encodes.
pub open spec fn spec_stream_body_val(m: MessageModel) -> Seq<char> {
    if m.body_is_unit { "&()"@ } else { "body"@ }
}

/// The client function of one stream message holds the piece that sends it with `sid`.
proof fn lemma_stream_send_fn_piece(name_escaped: Seq<char>, name: Seq<char>, body_arg: Seq<char>, fizyr_rpc: Seq<char>, body_type: Seq<char>, body_val: Seq<char>, sid: Seq<char>)
    ensures
        spec_contains_text(spec_stream_send_fn_text(name_escaped, name, body_arg, fizyr_rpc, body_type, body_val, sid),
            spec_stream_send_piece(name, body_arg, fizyr_rpc, body_type, body_val, sid)),
{
    reveal(spec_stream_send_fn_text);
    let text = spec_stream_send_fn_text(name_escaped, name, body_arg, fizyr_rpc, body_type, body_val, sid);
    let prefix = "#[doc = \"Send a `"@ + name_escaped + "` stream message to the remote peer.\"]\n#[allow(clippy::ptr_arg)]\npub async fn send_"@;
    let piece = spec_stream_send_piece(name, body_arg, fizyr_rpc, body_type, body_val, sid);
    assert(text =~= prefix + piece);
    assert(text.subrange(prefix.len() as int, (prefix.len() + piece.len()) as int) =~= piece);
    assert(spec_occurs_at(text, piece, prefix.len() as int));
}

/// The client functions of stream messages hold, for each stream message, the function
/// named after it that sends it with its own service ID.
proof fn lemma_stream_send_fns_pieces(fizyr_rpc: Seq<char>, streams: Seq<MessageModel>)
    ensures
        forall|i: int| 0 <= i < streams.len() ==> spec_contains_text(spec_stream_send_fns(fizyr_rpc, streams),
            #[trigger] spec_stream_send_piece(streams[i].name@, spec_stream_body_arg(streams[i]), fizyr_rpc,
                streams[i].body_type@, spec_stream_body_val(streams[i]), spec_signed_decimal(streams[i].service_id as int))),
    decreases streams.len(),
{
    if streams.len() > 0 {
        let rest = streams.drop_last();
        lemma_stream_send_fns_pieces(fizyr_rpc, rest);
        let m = streams.last();
        let last_text = spec_stream_send_fn_text(spec_escape(m.name@), m.name@, spec_stream_body_arg(m), fizyr_rpc,
            m.body_type@, spec_stream_body_val(m), spec_signed_decimal(m.service_id as int));
        let before = spec_stream_send_fns(fizyr_rpc, rest);
        assert(spec_stream_send_fns(fizyr_rpc, streams) == before + last_text);
        assert forall|i: int| 0 <= i < streams.len() implies spec_contains_text(spec_stream_send_fns(fizyr_rpc, streams),
            #[trigger] spec_stream_send_piece(streams[i].name@, spec_stream_body_arg(streams[i]), fizyr_rpc,
                streams[i].body_type@, spec_stream_body_val(streams[i]), spec_signed_decimal(streams[i].service_id as int))) by {
            let piece = spec_stream_send_piece(streams[i].name@, spec_stream_body_arg(streams[i]), fizyr_rpc,
                streams[i].body_type@, spec_stream_body_val(streams[i]), spec_signed_decimal(streams[i].service_id as int));
            if i < streams.len() - 1 {
                assert(rest[i] == streams[i]);
                assert(spec_contains_text(before, piece));
                lemma_contains_within(Seq::empty(), before, last_text, piece);
                assert(Seq::<char>::empty() + before + last_text =~= before + last_text);
            } else {
                lemma_stream_send_fn_piece(spec_escape(m.name@), m.name@, spec_stream_body_arg(m), fizyr_rpc,
                    m.body_type@, spec_stream_body_val(m), spec_signed_decimal(m.service_id as int));
                lemma_contains_within(before, last_text, Seq::empty(), piece);
                assert(before + last_text + Seq::<char>::empty() =~= before + last_text);
            }
        }
    }
}

/// Every stream message of an interface gets a client function `send_<name>` that sends its
/// body as a stream message with that message's own service ID.
pub proof fn lemma_stream_send_meaning(fizyr_rpc: Seq<char>, interface_name: Seq<char>, streams: Seq<MessageModel>, i: int)
    requires
        0 <= i < streams.len(),
    ensures
        spec_contains_text(spec_streams_code(fizyr_rpc, interface_name, streams).1,
            spec_stream_send_piece(streams[i].name@, spec_stream_body_arg(streams[i]), fizyr_rpc,
                streams[i].body_type@, spec_stream_body_val(streams[i]), spec_signed_decimal(streams[i].service_id as int))),
{
    lemma_stream_send_fns_pieces(fizyr_rpc, streams);
}

/// The part of the description of a service from its service ID on: its service ID, its
/// request and response body types, and the descriptions of its request updates and of its
/// response updates, each in its own field.
pub open spec fn spec_service_fields_piece(sid: Seq<char>, fizyr_rpc: Seq<char>, request_type: Seq<char>, response_type: Seq<char>, request_updates: Seq<char>, response_updates: Seq<char>) -> Seq<char> {
    sid + ",\n\trequest_body: <F as "@ + fizyr_rpc + "::introspection::FormatTypeInfo<"@ + request_type
        + ">>::type_info(),\n\tresponse_body: <F as "@ + fizyr_rpc + "::introspection::FormatTypeInfo<"@ + response_type
        + ">>::type_info(),\n\trequest_updates: "@
        + request_updates
        + ",\n\tresponse_updates: "@
        + response_updates
        + ",\n});\n"@
}

/// The fields piece of the description of service `s`, with the descriptions of its own updates.
pub open spec fn spec_service_fields(fizyr_rpc: Seq<char>, s: ServiceModel) -> Seq<char> {
    spec_service_fields_piece(spec_signed_decimal(s.service_id as int), fizyr_rpc, s.request_type@, s.response_type@,
        spec_definitions(fizyr_rpc, "UpdateDefinition"@, s.request_updates@).1,
        spec_definitions(fizyr_rpc, "UpdateDefinition"@, s.response_updates@).1)
}

/// The description of a service that is not hidden holds its fields piece.
proof fn lemma_service_definition_fields(fizyr_rpc: Seq<char>, s: ServiceModel)
    requires
        !s.hidden,
    ensures
        spec_contains_text(spec_service_definition_piece(fizyr_rpc, s, 1), spec_service_fields(fizyr_rpc, s)),
{
    reveal(spec_service_definition_text);
    let req = spec_definitions(fizyr_rpc, "UpdateDefinition"@, s.request_updates@).1;
    let resp = spec_definitions(fizyr_rpc, "UpdateDefinition"@, s.response_updates@).1;
    let text = spec_service_definition_piece(fizyr_rpc, s, 1);
    let prefix = "vector.push("@ + fizyr_rpc + "::introspection::ServiceDefinition {\n\tname: \""@ + spec_escape(s.name@)
        + "\".to_string(),\n\tdoc: \""@ + spec_doc_literal(s.doc@) + "\".to_string(),\n\thidden: "@ + spec_bool_text(s.hidden)
        + ",\n\tservice_id: "@;
    let piece = spec_service_fields(fizyr_rpc, s);
    assert(text =~= prefix + piece);
    assert(text.subrange(prefix.len() as int, (prefix.len() + piece.len()) as int) =~= piece);
    assert(spec_occurs_at(text, piece, prefix.len() as int));
}

/// The descriptions of services hold the fields piece of each service that is not hidden.
proof fn lemma_service_part_fields(fizyr_rpc: Seq<char>, services: Seq<ServiceModel>)
    ensures
        forall|i: int| 0 <= i < services.len() && !services[i].hidden ==>
            spec_contains_text(spec_service_definition_part(fizyr_rpc, services, 1), #[trigger] spec_service_fields(fizyr_rpc, services[i])),
    decreases services.len(),
{
    if services.len() > 0 {
        let rest = services.drop_last();
        lemma_service_part_fields(fizyr_rpc, rest);
        let last_text = spec_service_definition_piece(fizyr_rpc, services.last(), 1);
        let before = spec_service_definition_part(fizyr_rpc, rest, 1);
        assert forall|i: int| 0 <= i < services.len() && !services[i].hidden implies
            spec_contains_text(spec_service_definition_part(fizyr_rpc, services, 1), #[trigger] spec_service_fields(fizyr_rpc, services[i])) by {
            let piece = spec_service_fields(fizyr_rpc, services[i]);
            if i < services.len() - 1 {
                assert(rest[i] == services[i]);
                lemma_contains_within(Seq::empty(), before, last_text, piece);
                assert(Seq::<char>::empty() + before + last_text =~= before + last_text);
            } else {
                lemma_service_definition_fields(fizyr_rpc, services.last());
                lemma_contains_within(before, last_text, Seq::empty(), piece);
                assert(before + last_text + Seq::<char>::empty() =~= before + last_text);
            }
        }
    }
}

/// In the description of an interface, each service that is not hidden is described with its
/// own service ID and body types, and with the descriptions of its request updates in the field
/// `request_updates` and of its response updates in the field `response_updates`.
pub proof fn lemma_service_description_meaning(fizyr_rpc: Seq<char>, interface_name: Seq<char>, doc: Seq<String>, hidden: bool,
    visibility: Seq<char>, services: Seq<ServiceModel>, streams: Seq<MessageModel>, i: int)
    requires
        0 <= i < services.len(),
        !services[i].hidden,
    ensures
        spec_contains_text(spec_interface_struct_code(fizyr_rpc, interface_name, doc, hidden, visibility, services, streams),
            spec_service_fields(fizyr_rpc, services[i])),
{
    reveal(spec_vector_text);
    reveal(spec_interface_struct_text);
    lemma_service_part_fields(fizyr_rpc, services);
    let piece = spec_service_fields(fizyr_rpc, services[i]);
    let part = spec_service_definition_part(fizyr_rpc, services, 1);
    let len = spec_decimal(spec_shown_service_count(services));
    let defs = spec_service_definitions(fizyr_rpc, services);
    let vhead = "{\n\tlet mut vector = ::std::vec::Vec::with_capacity("@ + len + ");\n"@;
    let vtail = "\tvector\n}"@;
    lemma_contains_within(vhead, part, vtail, piece);
    assert(defs.1 == vhead + part + vtail);
    let t = spec_definitions(fizyr_rpc, "StreamDefinition"@, streams);
    let interface_doc = spec_escape("Introspection for the "@ + interface_name + " RPC interface."@);
    let name_escaped = spec_escape(interface_name);
    let doc_escaped = spec_doc_literal(doc);
    let text = spec_interface_struct_code(fizyr_rpc, interface_name, doc, hidden, visibility, services, streams);
    let head = "#[doc = \""@ + interface_doc + "\"]\n#[derive(Debug)]\n"@ + visibility + " struct Interface {\n\t_priv: (),\n}\n\nimpl Interface {\n\t/// Get the name of the interface.\n\tpub const fn name() -> &'static str {\n\t\t\""@ + name_escaped + "\"\n\t}\n\n\t/// Get the documentation of the interface.\n\t///\n\t/// This string may contain rustdoc compatible markup.\n\tpub const fn doc() -> &'static str {\n\t\t\""@ + doc_escaped + "\"\n\t}\n\n\t/// Get the full interface definition.\n\t///\n\t/// The type information for message bodies depends on serialization format used.\n\tpub fn definition<F>() -> "@ + fizyr_rpc + "::introspection::InterfaceDefinition<F::TypeInfo>\n\twhere\n\t\tF: "@ + fizyr_rpc + "::introspection::IntrospectableFormat,\n"@ + defs.0 + t.0 + "\t{\n\t\t"@ + fizyr_rpc + "::introspection::InterfaceDefinition {\n\t\t\tname: \""@ + name_escaped + "\".to_string(),\n\t\t\tdoc: \""@ + doc_escaped + "\".to_string(),\n\t\t\thidden: "@ + spec_bool_text(hidden) + ",\n\t\t\tservices: Self::services::<F>(),\n\t\t\tstreams: Self::streams::<F>(),\n\t\t}\n\t}\n\n\t/// Get the list of services in the interface.\n\t///\n\t/// The type information for message bodies depends on serialization format used.\n\tpub fn services<F>() -> ::std::vec::Vec<"@ + fizyr_rpc + "::introspection::ServiceDefinition<F::TypeInfo>>\n\twhere\n\t\tF: "@ + fizyr_rpc + "::introspection::IntrospectableFormat,\n"@ + defs.0 + "\t{\n\t\t"@;
    let tail = "\n\t}\n\n\t/// Get the list of streams in the interface.\n\t///\n\t/// The type information for message bodies depends on serialization format used.\n\tpub fn streams<F>() -> ::std::vec::Vec<"@ + fizyr_rpc + "::introspection::StreamDefinition<F::TypeInfo>>\n\twhere\n\t\tF: "@ + fizyr_rpc + "::introspection::IntrospectableFormat,\n"@ + t.0 + "\t{\n\t\t"@ + t.1 + "\n\t}\n}\n"@;
    assert(text =~= head + defs.1 + tail);
    lemma_contains_within(head, defs.1, tail, piece);
}


/// The part of the function that receives the response of a sent request from the receive on:
/// it gives the remote error when the response has the error service ID, and else the decoded body.
pub open spec fn spec_recv_response_piece(fizyr_rpc: Seq<char>) -> Seq<char> {
    ">,\n{\n\tlet response = self.request.recv_response().await?;\n\tif response.header.service_id == "@
        + fizyr_rpc + "::service_id::ERROR {\n\t\tuse "@ + fizyr_rpc
        + "::Body;\n\t\tlet message = response.body\n\t\t\t.into_error()\n\t\t\t.map_err(|e| "@ + fizyr_rpc
        + "::Error::decode_failed(::std::boxed::Box::new(e)))?;\n\t\t::core::result::Result::Err("@ + fizyr_rpc
        + "::Error::remote_error(message))\n\t} else {\n\t\tlet decoded = F::decode_body(response.body).map_err("@ + fizyr_rpc
        + "::Error::decode_failed)?;\n\t\t::core::result::Result::Ok(decoded)\n\t}\n}\n"@
}

/// The function that receives the response of a sent request answers with the remote error
/// exactly when the response carries the error service ID, and with the decoded body otherwise.
pub proof fn lemma_recv_response_meaning(doc_recv_update: Seq<char>, response_type: Seq<char>, fizyr_rpc: Seq<char>)
    ensures
        spec_contains_text(spec_recv_response_fn_text(doc_recv_update, response_type, fizyr_rpc), spec_recv_response_piece(fizyr_rpc)),
{
    reveal(spec_recv_response_fn_text);
    let text = spec_recv_response_fn_text(doc_recv_update, response_type, fizyr_rpc);
    let prefix = "/// Receive the final response.\n///\n/// If an update message is received instead of the final response an error is returned.\n/// The update message will remain in the message queue and must be read before the response can be received.\n///\n"@ + doc_recv_update + "pub async fn recv_response(&mut self) -> ::core::result::Result<"@ + response_type + ", "@ + fizyr_rpc + "::Error>\nwhere\n\tF: "@ + fizyr_rpc + "::util::format::DecodeBody<"@ + response_type;
    let piece = spec_recv_response_piece(fizyr_rpc);
    assert(text =~= prefix + piece);
    assert(text.subrange(prefix.len() as int, (prefix.len() + piece.len()) as int) =~= piece);
    assert(spec_occurs_at(text, piece, prefix.len() as int));
}

/// The part of the function that sends an update from its name on: `send_<name>_update`
/// encodes the body and sends it as an update with service ID `sid`.
pub open spec fn spec_send_update_piece(name: Seq<char>, body_arg: Seq<char>, body_type: Seq<char>, body_val: Seq<char>, sid: Seq<char>, fizyr_rpc: Seq<char>) -> Seq<char> {
    name + "_update(&self, "@ + body_arg + ") -> ::core::result::Result<(), "@ + fizyr_rpc
        + "::Error>\nwhere\n\tF: "@ + fizyr_rpc + "::util::format::EncodeBody<"@ + body_type
        + ">,\n{\n\tlet body = F::encode_body("@ + body_val + ").map_err("@ + fizyr_rpc
        + "::Error::encode_failed)?;\n\tself.request.send_update("@
        + sid
        + ", body).await?;\n\t::core::result::Result::Ok(())\n}\n"@
}

/// The function that sends an update is named after the update and sends it with service ID `sid`.
pub proof fn lemma_send_update_meaning(name: Seq<char>, body_arg: Seq<char>, body_type: Seq<char>, body_val: Seq<char>, sid: Seq<char>, fizyr_rpc: Seq<char>)
    ensures
        spec_contains_text(spec_send_update_fn_text(name, body_arg, body_type, body_val, sid, fizyr_rpc),
            spec_send_update_piece(name, body_arg, body_type, body_val, sid, fizyr_rpc)),
{
    reveal(spec_send_update_fn_text);
    let text = spec_send_update_fn_text(name, body_arg, body_type, body_val, sid, fizyr_rpc);
    let prefix = "#[doc = \"Send a `"@ + name + "` update to the remote peer.\"]\n#[allow(clippy::ptr_arg)]\npub async fn send_"@;
    let piece = spec_send_update_piece(name, body_arg, body_type, body_val, sid, fizyr_rpc);
    assert(text =~= prefix + piece);
    assert(text.subrange(prefix.len() as int, (prefix.len() + piece.len()) as int) =~= piece);
    assert(spec_occurs_at(text, piece, prefix.len() as int));
}

/// The part of the functions that send the response to a received request from the response
/// type on: the response is encoded and sent with service ID `sid`.
pub open spec fn spec_send_response_piece(response_type: Seq<char>, fizyr_rpc: Seq<char>, sid: Seq<char>) -> Seq<char> {
    response_type + ") -> ::core::result::Result<(), "@ + fizyr_rpc + "::Error>\nwhere\n\tF: "@ + fizyr_rpc
        + "::util::format::EncodeBody<"@ + response_type + ">,\n{\n\tlet encoded = F::encode_body(response).map_err("@ + fizyr_rpc
        + "::Error::encode_failed)?;\n\tlet response = self.request.send_response("@ + sid
        + ", encoded).await?;\n\t::core::result::Result::Ok(())\n}\n\n/// Send the final response.\npub async fn send_error_response(&self, error: &str) -> ::core::result::Result<(), "@
        + fizyr_rpc + "::Error> {\n\t::core::result::Result::Ok(self.request.send_error_response(error).await?)\n}\n"@
}

/// The response to a received request is sent with service ID `sid`.
pub proof fn lemma_send_response_meaning(response_type: Seq<char>, fizyr_rpc: Seq<char>, sid: Seq<char>)
    ensures
        spec_contains_text(spec_send_response_fns_text(response_type, fizyr_rpc, sid), spec_send_response_piece(response_type, fizyr_rpc, sid)),
{
    reveal(spec_send_response_fns_text);
    let text = spec_send_response_fns_text(response_type, fizyr_rpc, sid);
    let prefix = "/// Send the final response.\n#[allow(clippy::ptr_arg)]\npub async fn send_response(&self, response: &"@;
    let piece = spec_send_response_piece(response_type, fizyr_rpc, sid);
    assert(text =~= prefix + piece);
    assert(text.subrange(prefix.len() as int, (prefix.len() + piece.len()) as int) =~= piece);
    assert(spec_occurs_at(text, piece, prefix.len() as int));
}

/// The part of the client function of a service with updates after the request is encoded:
/// it sends the request with service ID `sid` and returns a handle to the request.
pub open spec fn spec_call_with_handle(fizyr_rpc: Seq<char>, sid: Seq<char>, name: Seq<char>) -> Seq<char> {
    "::Error::encode_failed)?;\n\tlet mut request = self.peer.send_request("@ + sid
        + ", request_body).await?;\n\t::core::result::Result::Ok("@ + name + "::SentRequestHandle { request })\n}\n"@
}

/// The client function of a service with updates sends the request with the service's own ID
/// and hands out a handle to the request.
pub proof fn lemma_handle_call_meaning(fizyr_rpc: Seq<char>, s: ServiceModel, visibility: Seq<char>)
    requires
        s.request_updates@.len() > 0 || s.response_updates@.len() > 0,
    ensures
        spec_contains_text(spec_service_code(fizyr_rpc, s, visibility).1,
            spec_call_with_handle(fizyr_rpc, spec_signed_decimal(s.service_id as int), s.name@)),
{
    reveal(spec_service_code);
    reveal(spec_handle_call_text);
    let request_param = if s.request_is_unit { Seq::<char>::empty() } else { "request: &"@ + s.request_type@ };
    let request_body = if s.request_is_unit { "F::encode_body(&())"@ } else { "F::encode_body(request)"@ };
    let sid = spec_signed_decimal(s.service_id as int);
    let doc = spec_doc_attrs(s.doc@);
    let f = fizyr_rpc;
    let name = s.name@;
    let text = spec_service_code(fizyr_rpc, s, visibility).1;
    let prefix = doc + "#[allow(clippy::ptr_arg)]\npub async fn "@ + name + "(&self, "@ + request_param + ") -> ::core::result::Result<"@ + name + "::SentRequestHandle<F>, "@ + f + "::Error>\nwhere\n\tF: "@ + f + "::util::format::EncodeBody<"@ + s.request_type@ + ">,\n\tF: "@ + f + "::util::format::DecodeBody<"@ + s.response_type@ + ">,\n{\n\tlet request_body = "@ + request_body + ".map_err("@ + f;
    let piece = spec_call_with_handle(f, sid, name);
    assert(text =~= prefix + piece);
    assert(text.subrange(prefix.len() as int, (prefix.len() + piece.len()) as int) =~= piece);
    assert(spec_occurs_at(text, piece, prefix.len() as int));
}


/// The send functions of updates hold, for each update, the function named after it that
/// sends it with its own service ID.
proof fn lemma_update_part_send_pieces(fizyr_rpc: Seq<char>, kind: Seq<char>, updates: Seq<MessageModel>)
    ensures
        forall|i: int| 0 <= i < updates.len() ==> spec_contains_text(spec_update_part(fizyr_rpc, kind, updates, 0),
            #[trigger] spec_send_update_piece(updates[i].name@, spec_update_arg(updates[i]), updates[i].body_type@,
                spec_update_val(updates[i]), spec_signed_decimal(updates[i].service_id as int), fizyr_rpc)),
    decreases updates.len(),
{
    if updates.len() > 0 {
        let rest = updates.drop_last();
        lemma_update_part_send_pieces(fizyr_rpc, kind, rest);
        let m = updates.last();
        let last_text = spec_update_piece(fizyr_rpc, kind, m, 0);
        let before = spec_update_part(fizyr_rpc, kind, rest, 0);
        assert forall|i: int| 0 <= i < updates.len() implies spec_contains_text(spec_update_part(fizyr_rpc, kind, updates, 0),
            #[trigger] spec_send_update_piece(updates[i].name@, spec_update_arg(updates[i]), updates[i].body_type@,
                spec_update_val(updates[i]), spec_signed_decimal(updates[i].service_id as int), fizyr_rpc)) by {
            let piece = spec_send_update_piece(updates[i].name@, spec_update_arg(updates[i]), updates[i].body_type@,
                spec_update_val(updates[i]), spec_signed_decimal(updates[i].service_id as int), fizyr_rpc);
            if i < updates.len() - 1 {
                assert(rest[i] == updates[i]);
                lemma_contains_within(Seq::empty(), before, last_text, piece);
                assert(Seq::<char>::empty() + before + last_text =~= before + last_text);
            } else {
                lemma_send_update_meaning(m.name@, spec_update_arg(m), m.body_type@, spec_update_val(m),
                    spec_signed_decimal(m.service_id as int), fizyr_rpc);
                lemma_contains_within(before, last_text, Seq::empty(), piece);
                assert(before + last_text + Seq::<char>::empty() =~= before + last_text);
            }
        }
    }
}

/// Every update of a request gets a function `send_<name>_update` that sends it with that
/// update's own service ID.
pub proof fn lemma_send_update_fns_meaning(fizyr_rpc: Seq<char>, updates: Seq<MessageModel>, i: int)
    requires
        0 <= i < updates.len(),
    ensures
        spec_contains_text(spec_send_update_fns(fizyr_rpc, updates),
            spec_send_update_piece(updates[i].name@, spec_update_arg(updates[i]), updates[i].body_type@,
                spec_update_val(updates[i]), spec_signed_decimal(updates[i].service_id as int), fizyr_rpc)),
{
    lemma_update_part_send_pieces(fizyr_rpc, Seq::<char>::empty(), updates);
}

} // verus!
