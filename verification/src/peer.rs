//! Decisions of the read/write loop of a peer.
//!
//! The loop itself awaits commands and socket I/O; what it does with them
//! is decided here.

use vstd::prelude::*;
use crate::message::{Message, MessageHeader, MessageType};
use crate::request_tracker::{RequestTracker, UnhandledMessage};
use crate::service_id;
use crate::text::{push_signed_decimal, spec_signed_decimal};
use crate::transport::TransportError;

verus! {

/// Loop control flow command.
///
/// Allows other methods to make decisions on loop control flow.
#[derive(Debug, Clone, Copy, PartialEq, Eq, Structural)]
pub enum LoopFlow {
    /// Keep the loop running.
    Continue,

    /// Stop the loop.
    Stop,
}

/// An incoming message (or read error) passed from the read loop to the command loop.
#[derive(Debug)]
pub struct ProcessIncomingMessage<Body> {
    /// The message that was read, or the error that reading gave.
    pub message: Result<Message<Body>, TransportError>,
}

/// Which handles of a peer are still alive.
///
/// The command loop of a peer stops once the read handle and all write handles are gone.
#[derive(Debug)]
pub struct HandleCount {
    /// Flag to indicate if the peer read handle has already been stopped.
    read_handle_dropped: bool,

    /// Number of open write handles.
    write_handles: usize,
}

impl HandleCount {
    /// Whether the read handle was dropped.
    pub closed spec fn spec_read_handle_dropped(&self) -> bool {
        self.read_handle_dropped
    }

    /// The number of open write handles.
    pub closed spec fn spec_write_handles(&self) -> nat {
        self.write_handles as nat
    }

    /// The handles of a new peer: one read handle and one write handle.
    pub fn new() -> (r: Self)
        ensures
            !r.spec_read_handle_dropped(),
            r.spec_write_handles() == 1,
    {
        Self { read_handle_dropped: false, write_handles: 1 }
    }

    /// The number of open write handles.
    pub fn write_handles(&self) -> (r: usize)
        ensures
            r == self.spec_write_handles(),
    {
        self.write_handles
    }

    /// Stop the command loop if both halves of the peer handle are dropped.
    pub fn should_stop(&self) -> (r: bool)
        ensures
            r == (self.spec_read_handle_dropped() && self.spec_write_handles() == 0),
    {
        self.read_handle_dropped && self.write_handles == 0
    }

    /// The read handle was dropped.
    pub fn unregister_read_handle(&mut self)
        ensures
            final(self).spec_read_handle_dropped(),
            final(self).spec_write_handles() == old(self).spec_write_handles(),
    {
        self.read_handle_dropped = true;
    }

    /// A write handle was created.
    ///
    /// There cannot be more write handles than there are addresses.
    pub fn register_write_handle(&mut self)
        requires
            old(self).spec_write_handles() < usize::MAX,
        ensures
            final(self).spec_read_handle_dropped() == old(self).spec_read_handle_dropped(),
            final(self).spec_write_handles() == old(self).spec_write_handles() + 1,
    {
        self.write_handles = self.write_handles + 1;
    }

    /// A write handle was dropped.
    pub fn unregister_write_handle(&mut self)
        requires
            old(self).spec_write_handles() > 0,
        ensures
            final(self).spec_read_handle_dropped() == old(self).spec_read_handle_dropped(),
            final(self).spec_write_handles() == old(self).spec_write_handles() - 1,
    {
        self.write_handles = self.write_handles - 1;
    }
}

/// What the loop does after writing a message failed:
/// a fatal error leaves the transport unusable and stops the loop, any other error does not.
pub fn flow_after_write_error(error: &TransportError) -> (r: LoopFlow)
    ensures
        r == (if error.spec_is_fatal() { LoopFlow::Stop } else { LoopFlow::Continue }),
{
    if error.is_fatal() {
        LoopFlow::Stop
    } else {
        LoopFlow::Continue
    }
}

/// Settle a sent request once its request message was written and its handle was offered
/// to the requester.
///
/// `write_error` is the error that writing the request gave, if any, and `requester_gone`
/// tells whether the requester was gone when its handle was offered. In either case nobody
/// will use the request, so it is removed from the tracker. The loop stops after a fatal
/// write error only.
pub fn settle_sent_request<Body>(
    tracker: &mut RequestTracker<Body>,
    request_id: u32,
    write_error: Option<&TransportError>,
    requester_gone: bool,
) -> (r: LoopFlow)
    ensures
        r == (match write_error {
            Some(e) => if e.spec_is_fatal() { LoopFlow::Stop } else { LoopFlow::Continue },
            None => LoopFlow::Continue,
        }),
        final(tracker).spec_received() == old(tracker).spec_received(),
        final(tracker).spec_received_channels() == old(tracker).spec_received_channels(),
        final(tracker).spec_next_id() == old(tracker).spec_next_id(),
        final(tracker).spec_next_channel() == old(tracker).spec_next_channel(),
        final(tracker).spec_forwarded() == old(tracker).spec_forwarded(),
        write_error is Some || requester_gone ==> {
            &&& final(tracker).spec_sent() == old(tracker).spec_sent().remove(request_id)
            &&& final(tracker).spec_sent_channels() == old(tracker).spec_sent_channels().remove(request_id)
        },
        write_error is None && !requester_gone ==> {
            &&& final(tracker).spec_sent() == old(tracker).spec_sent()
            &&& final(tracker).spec_sent_channels() == old(tracker).spec_sent_channels()
        },
{
    if write_error.is_some() || requester_gone {
        let _ = tracker.remove_sent_request(request_id);
    }
    match write_error {
        Some(e) => flow_after_write_error(e),
        None => LoopFlow::Continue,
    }
}

/// What the loop does after writing the answer to an undelivered request:
/// it stops when the answer could not be written.
pub fn flow_after_answer(written: &Result<(), TransportError>) -> (r: LoopFlow)
    ensures
        r == (if written is Ok { LoopFlow::Continue } else { LoopFlow::Stop }),
{
    match written {
        Ok(()) => LoopFlow::Continue,
        Err(_) => LoopFlow::Stop,
    }
}

/// Update the request tracker for a message that is about to be sent.
///
/// Sending a response finishes the received request that it answers, so that request
/// is removed from the tracker; other messages leave the tracker unchanged.
pub fn track_outgoing_message<Body>(tracker: &mut RequestTracker<Body>, header: &MessageHeader)
    ensures
        final(tracker).spec_sent() == old(tracker).spec_sent(),
        final(tracker).spec_sent_channels() == old(tracker).spec_sent_channels(),
        final(tracker).spec_next_id() == old(tracker).spec_next_id(),
        final(tracker).spec_next_channel() == old(tracker).spec_next_channel(),
        final(tracker).spec_forwarded() == old(tracker).spec_forwarded(),
        final(tracker).spec_received_channels() == if header.message_type is Response {
            old(tracker).spec_received_channels().remove(header.request_id)
        } else {
            old(tracker).spec_received_channels()
        },
        final(tracker).spec_received() == if header.message_type is Response {
            old(tracker).spec_received().remove(header.request_id)
        } else {
            old(tracker).spec_received()
        },
{
    if header.message_type.is_response() {
        let _ = tracker.remove_received_request(header.request_id);
    }
}

/// The text of the error response to a request for `service_id` that nobody will handle.
pub open spec fn spec_unexpected_request_text(service_id: i32) -> Seq<char> {
    "unexpected request for service "@ + spec_signed_decimal(service_id as int)
}

/// Describe a request for `service_id` that arrived after the peer read handle was dropped.
pub fn unexpected_request_text(service_id: i32) -> (r: String)
    ensures
        r@ == spec_unexpected_request_text(service_id),
{
    let mut text = String::from_str("unexpected request for service ");
    push_signed_decimal(&mut text, service_id as i64);
    text
}

/// The answer to an incoming message that could not be delivered because the
/// peer read handle was dropped.
///
/// A request is answered with an error response, so that the remote peer does not wait
/// for it forever; a stream message needs no answer and is dropped.
pub fn response_to_undelivered<Body: crate::message::Body>(message: &UnhandledMessage<Body>) -> (r: Option<Message<Body>>)
    ensures
        match message {
            UnhandledMessage::ReceivedRequest(request, _) => r matches Some(response)
                && response.header == MessageHeader::spec_new(MessageType::Response, request.header.request_id, service_id::ERROR)
                && exists|text: &str| text@ == spec_unexpected_request_text(request.header.service_id)
                    && call_ensures(Body::from_error, (text,), response.body),
            UnhandledMessage::Stream(_) => r is None,
        },
{
    match message {
        UnhandledMessage::ReceivedRequest(request, _) => {
            let text = unexpected_request_text(request.header.service_id);
            Some(Message::error_response(request.header.request_id, text.as_str()))
        },
        UnhandledMessage::Stream(_) => None,
    }
}

} // verus!
