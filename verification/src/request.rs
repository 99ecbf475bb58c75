//! The decisions of the handles of open requests.
//!
//! A handle reads the commands that the request tracker sends on the channel of its request.
//! The handle of a sent request can wait for an update or for the response; a message of the
//! other kind that arrives meanwhile is kept for the next call.

use vstd::prelude::*;
use crate::error::{expect_message_type, Error, InnerError, UnexpectedMessageType};
use crate::message::{Message, MessageType};
use crate::request_tracker::RequestHandleCommand;

verus! {

/// What the handle of a sent request does with a command from the channel of its request:
/// the message it hands out, if any, and whether it closes the channel afterwards.
///
/// A response is the last message of a request, so the channel is closed after it;
/// a close command closes the channel without a message.
pub open spec fn spec_sent_request_command<Body>(command: RequestHandleCommand<Body>) -> (Option<Message<Body>>, bool) {
    match command {
        RequestHandleCommand::Close => (None, true),
        RequestHandleCommand::Message(m) => (Some(m), m.header.message_type == MessageType::Response),
    }
}

/// Decide what the handle of a sent request does with a command from its channel:
/// the message it hands out, if any, and whether it closes the channel afterwards.
pub fn sent_request_command<Body>(command: RequestHandleCommand<Body>) -> (r: (Option<Message<Body>>, bool))
    ensures
        r == spec_sent_request_command(command),
{
    match command {
        RequestHandleCommand::Close => (None, true),
        RequestHandleCommand::Message(message) => {
            let close = message.header.message_type == MessageType::Response;
            (Some(message), close)
        },
    }
}

/// What the handle of a received request does with a command from the channel of its request:
/// the message it hands out, if any, and whether it closes the channel afterwards.
pub open spec fn spec_received_request_command<Body>(command: RequestHandleCommand<Body>) -> (Option<Message<Body>>, bool) {
    match command {
        RequestHandleCommand::Close => (None, true),
        RequestHandleCommand::Message(m) => (Some(m), false),
    }
}

/// Decide what the handle of a received request does with a command from its channel:
/// the message it hands out, if any, and whether it closes the channel afterwards.
pub fn received_request_command<Body>(command: RequestHandleCommand<Body>) -> (r: (Option<Message<Body>>, bool))
    ensures
        r == spec_received_request_command(command),
{
    match command {
        RequestHandleCommand::Close => (None, true),
        RequestHandleCommand::Message(message) => (Some(message), false),
    }
}

/// What waiting for an update does with the next message `m` of a sent request, while `kept`
/// is the message kept from before: the update handed out, if any, and the message kept afterwards.
///
/// An update is handed out; any other message is kept for the next call.
pub open spec fn spec_sort_update<Body>(kept: Option<Message<Body>>, m: Message<Body>) -> (Option<Message<Body>>, Option<Message<Body>>) {
    if m.header.message_type == MessageType::ResponderUpdate {
        (Some(m), kept)
    } else {
        (None, Some(m))
    }
}

/// What waiting for the response does with the next message `m` of a sent request, while `kept`
/// is the message kept from before: the response or the error, and the message kept afterwards.
///
/// A response is handed out; any other message gives an unexpected message type error and is
/// kept for the next call.
pub open spec fn spec_sort_response<Body>(kept: Option<Message<Body>>, m: Message<Body>) -> (Result<Message<Body>, InnerError>, Option<Message<Body>>) {
    if m.header.message_type == MessageType::Response {
        (Ok(m), kept)
    } else {
        (Err(InnerError::UnexpectedMessageType(UnexpectedMessageType {
            value: m.header.message_type,
            expected: MessageType::Response,
        })), Some(m))
    }
}

/// The message of a sent request that was received but not handed out yet.
#[derive(Debug)]
pub struct PeekBuffer<Body> {
    kept: Option<Message<Body>>,
}

impl<Body> PeekBuffer<Body> {
    /// The message that is kept, if any.
    pub closed spec fn spec_kept(&self) -> Option<Message<Body>> {
        self.kept
    }

    /// Create an empty buffer.
    pub fn new() -> (r: Self)
        ensures
            r.spec_kept() is None,
    {
        PeekBuffer { kept: None }
    }

    /// Take the kept message out of the buffer; the next message of the request is this one,
    /// and only when there is none is the next message read from the channel.
    pub fn take(&mut self) -> (r: Option<Message<Body>>)
        ensures
            r == old(self).spec_kept(),
            final(self).spec_kept() is None,
    {
        self.kept.take()
    }

    /// Sort the next message of the request while waiting for an update:
    /// an update is returned, any other message is kept and `None` is returned.
    pub fn sort_update(&mut self, message: Message<Body>) -> (r: Option<Message<Body>>)
        ensures
            (r, final(self).spec_kept()) == spec_sort_update(old(self).spec_kept(), message),
    {
        if message.header.message_type == MessageType::ResponderUpdate {
            Some(message)
        } else {
            self.kept = Some(message);
            None
        }
    }

    /// Sort the next message of the request while waiting for the response:
    /// a response is returned, any other message gives an unexpected message type error
    /// and is kept.
    pub fn sort_response(&mut self, message: Message<Body>) -> (r: Result<Message<Body>, Error>)
        ensures
            ({
                let (expected, kept) = spec_sort_response(old(self).spec_kept(), message);
                &&& final(self).spec_kept() == kept
                &&& match expected {
                    Ok(m) => r == Ok::<Message<Body>, Error>(m),
                    Err(e) => r matches Err(err) && err@ == e,
                }
            }),
    {
        match expect_message_type(message.header.message_type, MessageType::Response) {
            Ok(()) => Ok(message),
            Err(e) => {
                self.kept = Some(message);
                Err(e)
            },
        }
    }
}

/// No message is lost or handed out twice: a message that waiting for an update does not hand
/// out is the next message of the request, and waiting for the response then hands it out when
/// it is the response; likewise an update that waiting for the response does not hand out is
/// handed out by the next wait for an update.
pub proof fn lemma_kept_message_comes_next<Body>(kept: Option<Message<Body>>, m: Message<Body>)
    ensures
        spec_sort_update(kept, m).0 is None ==> {
            &&& spec_sort_update(kept, m).1 == Some(m)
            &&& m.header.message_type == MessageType::Response ==> spec_sort_response(None, m).0 == Ok::<Message<Body>, InnerError>(m)
        },
        spec_sort_response(kept, m).0 is Err ==> {
            &&& spec_sort_response(kept, m).1 == Some(m)
            &&& m.header.message_type == MessageType::ResponderUpdate ==> spec_sort_update(None, m).0 == Some(m)
        },
{
}

} // verus!
