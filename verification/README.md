# fizyr-rpc

The Fizyr RPC protocol: a request/response protocol with bi-directional updates
while a request is open, and stream messages outside of requests.

The protocol logic is written in Verus and proved against its contracts:

- `src/message.rs`: messages, message types and the twelve byte header, with its
  encoding in little, big or native byte order (`src/transport/endian.rs`, `src/wire.rs`).
- `src/transport/stream.rs`: the length-prefixed framing of messages on byte streams.
  The read half takes in whatever a read returned and hands out complete messages;
  the write half says which bytes are left to write.
- `src/transport/unix.rs`: messages as seqpacket datagrams with attached file descriptors.
- `src/request_tracker.rs`: the bookkeeping of open requests: allocation of request IDs,
  routing of updates and responses to the numbered channel of their request (with a ghost log
  of every message forwarded), and the errors for unknown or duplicate requests.
- `src/peer.rs`: the decisions of a peer's read/write loop.
- `src/request.rs`: the decisions of request handles: what each command from the channel of
  a request gives, and the message a sent request keeps when it waits for an update and gets
  the response, or the other way round.
- `src/error.rs`: the errors of the library and their descriptions.
- `src/interface.rs`, `src/attributes.rs` and `src/definition.rs`: naming of generated interface
  items, classifying and checking the attributes, and turning a parsed interface definition into
  the model that code is generated from, with all its errors.
- `src/codegen.rs`: the Rust code generated for an interface (description struct, service
  support types, update enums, client and server), as text with an exact specification.
  Hidden services, updates and streams are left out of the description.

`app/` runs the protocol on tokio sockets: the transports' socket I/O, the peer's
read/write loop as tasks, the handles to peers and requests, listeners, the JSON format,
and the front end of the `interface!` macro, which reads the macro input with `syn` into the
library's plain definition and turns the generated code back into tokens.

`tests/` runs the library on concrete values.
