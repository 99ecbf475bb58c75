//! Bookkeeping of the open requests of a peer.
//!
//! Every open request has a channel over which the messages that arrive for it
//! are passed on to the handle of the request.

use vstd::prelude::*;
use std::collections::BTreeMap;
use tokio::sync::mpsc::{UnboundedReceiver, UnboundedSender};
use crate::error::{Error, InnerError};
use crate::forward_log::ForwardLog;
use crate::message::{Message, MessageType};

verus! {

broadcast use vstd::laws_cmp::group_laws_cmp;

#[verifier::external_type_specification]
#[verifier::external_body]
#[verifier::reject_recursive_types(T)]
pub struct ExUnboundedSender<T>(tokio::sync::mpsc::UnboundedSender<T>);

#[verifier::external_type_specification]
#[verifier::external_body]
#[verifier::reject_recursive_types(T)]
pub struct ExUnboundedReceiver<T>(tokio::sync::mpsc::UnboundedReceiver<T>);

/// Creates a channel with `tokio::sync::mpsc::unbounded_channel`.
#[verifier::external_body]
fn new_channel<T>() -> (UnboundedSender<T>, UnboundedReceiver<T>) {
    tokio::sync::mpsc::unbounded_channel()
}

/// Checks with `UnboundedSender::is_closed` whether the receiving end of a channel
/// was closed or dropped. That depends on the receiving side, so nothing is stated of the answer.
#[verifier::external_body]
fn channel_is_closed<T>(tx: &UnboundedSender<T>) -> bool {
    tx.is_closed()
}


/// A command for the handle of an open request.
#[derive(Debug)]
pub enum RequestHandleCommand<Body> {
    /// The request was closed.
    Close,

    /// A message arrived for the request.
    Message(Message<Body>),
}

/// The receiving end of the channel of an open request.
///
/// The tracker numbers the channels it makes; `channel` is the number of this one, and the
/// messages that the tracker forwards for the request are sent on the channel with that number.
#[derive(Debug)]
#[verifier::reject_recursive_types(Body)]
pub struct RequestReceiver<Body> {
    /// The number of the channel.
    pub channel: u64,

    /// The receiving end of the channel.
    pub receiver: UnboundedReceiver<RequestHandleCommand<Body>>,
}

/// The channel number that follows `c`, counting on past the largest number from zero.
pub open spec fn spec_next_channel(c: u64) -> u64 {
    if c == u64::MAX { 0 } else { (c + 1) as u64 }
}

/// A newly registered sent request: its request ID, the service ID of its request message,
/// and the channel on which the messages for it arrive.
#[derive(Debug)]
#[verifier::reject_recursive_types(Body)]
pub struct SentRequest<Body> {
    /// The request ID of the request.
    pub request_id: u32,

    /// The service ID of the request message.
    pub service_id: i32,

    /// The channel on which the messages for the request arrive.
    pub receiver: RequestReceiver<Body>,
}

/// A message that was not fully processed by the request tracker.
///
/// When you pass a message to `RequestTracker::process_incoming_message`,
/// not all messages are fully handled internally by a request tracker.
///
/// Specifically, request and stream messages still need to be processed by the caller.
#[derive(Debug)]
#[verifier::reject_recursive_types(Body)]
pub enum UnhandledMessage<Body> {
    /// A request that is now registered, with the channel on which its further messages arrive.
    ReceivedRequest(Message<Body>, RequestReceiver<Body>),

    /// A stream message.
    Stream(Message<Body>),
}

/// The request ID that follows `k` steps after `id`, counting on past the largest ID from zero.
pub open spec fn spec_wrapping_add(id: u32, k: nat) -> u32 {
    ((id + k) % 4294967296) as u32
}

/// The first of the `limit` request IDs from `start` on that is not in `used`,
/// given as the number of steps from `start`.
pub open spec fn spec_first_free(used: Set<u32>, start: u32, limit: nat) -> Option<nat>
    decreases limit,
{
    if limit == 0 {
        None
    } else {
        match spec_first_free(used, start, (limit - 1) as nat) {
            Some(k) => Some(k),
            None => if used.contains(spec_wrapping_add(start, (limit - 1) as nat)) {
                None
            } else {
                Some((limit - 1) as nat)
            },
        }
    }
}

/// What the first free ID is: the chosen ID is the first of the `limit` IDs from `start` on
/// that is not in use, every ID tried before it is in use, and when there is none, all of
/// the `limit` IDs are in use.
pub proof fn lemma_first_free_meaning(used: Set<u32>, start: u32, limit: nat)
    ensures
        match spec_first_free(used, start, limit) {
            Some(k) => {
                &&& k < limit
                &&& !used.contains(spec_wrapping_add(start, k))
                &&& forall|j: nat| j < k ==> used.contains(#[trigger] spec_wrapping_add(start, j))
            },
            None => forall|j: nat| j < limit ==> used.contains(#[trigger] spec_wrapping_add(start, j)),
        },
    decreases limit,
{
    if limit > 0 {
        lemma_first_free_meaning(used, start, (limit - 1) as nat);
    }
}

/// Once a free ID is found among the first IDs, trying more IDs finds the same one.
proof fn lemma_first_free_stable(used: Set<u32>, start: u32, k: nat, limit: nat)
    requires
        spec_first_free(used, start, k + 1) == Some(k),
        limit >= k + 1,
    ensures
        spec_first_free(used, start, limit) == Some(k),
    decreases limit,
{
    if limit > k + 1 {
        lemma_first_free_stable(used, start, k, (limit - 1) as nat);
    }
}

/// Request IDs are ordered as the map of open requests expects.
proof fn lemma_request_ids_are_ordered()
    ensures
        vstd::laws_cmp::obeys_cmp::<u32>(),
{
}

/// How many IDs are tried before giving up on allocating a request ID.
pub const ALLOCATION_ATTEMPTS: u32 = 100;

/// The sending end of the channel of an open request, with the channel's number.
type RequestSender<Body> = (u64, UnboundedSender<RequestHandleCommand<Body>>);

/// Sends a command on the channel of an open request with `UnboundedSender::send`, which fails
/// only when the receiving end was closed or dropped; returns whether the command was sent.
/// That depends on the receiving side, so nothing is stated of the answer.
///
/// `log` is the ghost record of the commands handed to channels; it has no content at run time.
/// The command handed to `send` is recorded in it with the number of the channel.
#[verifier::external_body]
fn channel_send<Body>(log: &mut ForwardLog<Body>, sender: &RequestSender<Body>, value: RequestHandleCommand<Body>) -> (r: bool)
    ensures
        final(log).spec_entries() == old(log).spec_entries().push((sender.0, value)),
{
    match sender.1.send(value) {
        Ok(()) => true,
        Err(_) => false,
    }
}

/// Tracker that manages open requests.
///
/// You normally do not need to work with a request tracker directly.
/// It is used by the different peer structs internally.
#[verifier::reject_recursive_types(Body)]
pub struct RequestTracker<Body> {
    /// The next ID to use for sending a request.
    next_sent_request_id: u32,

    /// The number of the next channel that is made.
    next_channel: u64,

    /// Map of channels for incoming messages for sent requests.
    sent_requests: BTreeMap<u32, RequestSender<Body>>,

    /// Map of channels for incoming messages for received requests.
    received_requests: BTreeMap<u32, RequestSender<Body>>,

    /// Every message handed to a channel so far, with the number of that channel, in order.
    forwarded: ForwardLog<Body>,
}

impl<Body> RequestTracker<Body> {
    /// The ID that the next allocation tries first.
    pub closed spec fn spec_next_id(&self) -> u32 {
        self.next_sent_request_id
    }

    /// The number that the next channel gets.
    pub closed spec fn spec_next_channel(&self) -> u64 {
        self.next_channel
    }

    /// The IDs of the open sent requests.
    pub closed spec fn spec_sent(&self) -> Set<u32> {
        self.sent_requests@.dom()
    }

    /// The IDs of the open received requests.
    pub closed spec fn spec_received(&self) -> Set<u32> {
        self.received_requests@.dom()
    }

    /// The channel number of each open sent request.
    pub closed spec fn spec_sent_channels(&self) -> Map<u32, u64> {
        self.sent_requests@.map_values(|v: RequestSender<Body>| v.0)
    }

    /// The channel number of each open received request.
    pub closed spec fn spec_received_channels(&self) -> Map<u32, u64> {
        self.received_requests@.map_values(|v: RequestSender<Body>| v.0)
    }

    /// Every message handed to the channel of a request so far, with the channel's number, in order.
    pub closed spec fn spec_forwarded(&self) -> Seq<(u64, RequestHandleCommand<Body>)> {
        self.forwarded.spec_entries()
    }

    /// Create a new request tracker without open requests.
    pub fn new() -> (r: Self)
        ensures
            r.spec_next_id() == 0,
            r.spec_next_channel() == 0,
            r.spec_sent_channels() == Map::<u32, u64>::empty(),
            r.spec_received_channels() == Map::<u32, u64>::empty(),
            r.spec_sent() == Set::<u32>::empty(),
            r.spec_received() == Set::<u32>::empty(),
            r.spec_forwarded() == Seq::<(u64, RequestHandleCommand<Body>)>::empty(),
    {
        let r = Self {
            next_sent_request_id: 0,
            next_channel: 0,
            sent_requests: BTreeMap::new(),
            received_requests: BTreeMap::new(),
            forwarded: ForwardLog::new(),
        };
        assert(r.spec_sent_channels() =~= Map::<u32, u64>::empty());
        assert(r.spec_received_channels() =~= Map::<u32, u64>::empty());
        r
    }

    /// Make a new channel with the next channel number.
    fn make_channel(&mut self) -> (r: (RequestSender<Body>, RequestReceiver<Body>))
        ensures
            r.0.0 == old(self).next_channel,
            r.1.channel == old(self).next_channel,
            final(self).next_channel == spec_next_channel(old(self).next_channel),
            final(self).next_sent_request_id == old(self).next_sent_request_id,
            final(self).sent_requests@ == old(self).sent_requests@,
            final(self).received_requests@ == old(self).received_requests@,
            final(self).forwarded == old(self).forwarded,
    {
        let channel = self.next_channel;
        self.next_channel = if channel == u64::MAX { 0 } else { channel + 1 };
        let (tx, rx) = new_channel();
        ((channel, tx), RequestReceiver { channel, receiver: rx })
    }

    /// Allocate a request ID and register a new sent request.
    ///
    /// The IDs from the next ID on are tried in turn, wrapping around after the largest ID,
    /// and the first that is not in use is taken. After [`ALLOCATION_ATTEMPTS`] IDs in use,
    /// the allocation fails. The next ID moves past every ID that was tried.
    ///
    /// Returns the request ID, the service ID and the channel on which the messages for the
    /// request arrive.
    pub fn allocate_sent_request(&mut self, service_id: i32) -> (r: Result<SentRequest<Body>, Error>)
        ensures
            final(self).spec_received_channels() == old(self).spec_received_channels(),
            final(self).spec_received() == old(self).spec_received(),
            final(self).spec_forwarded() == old(self).spec_forwarded(),
            match spec_first_free(old(self).spec_sent(), old(self).spec_next_id(), ALLOCATION_ATTEMPTS as nat) {
                Some(k) => {
                    let id = spec_wrapping_add(old(self).spec_next_id(), k);
                    &&& r matches Ok(sent) && sent.request_id == id && sent.service_id == service_id
                        && sent.receiver.channel == old(self).spec_next_channel()
                    &&& !old(self).spec_sent().contains(id)
                    &&& final(self).spec_sent() == old(self).spec_sent().insert(id)
                    &&& final(self).spec_sent_channels() == old(self).spec_sent_channels().insert(id, old(self).spec_next_channel())
                    &&& final(self).spec_next_channel() == spec_next_channel(old(self).spec_next_channel())
                    &&& final(self).spec_next_id() == spec_wrapping_add(old(self).spec_next_id(), k + 1)
                },
                None => {
                    &&& r matches Err(e) && e@ == InnerError::NoFreeRequestIdFound
                    &&& final(self).spec_sent() == old(self).spec_sent()
                    &&& final(self).spec_sent_channels() == old(self).spec_sent_channels()
                    &&& final(self).spec_next_channel() == old(self).spec_next_channel()
                    &&& final(self).spec_next_id() == spec_wrapping_add(old(self).spec_next_id(), ALLOCATION_ATTEMPTS as nat)
                },
            },
    {
        let ghost start = self.next_sent_request_id;
        let ghost used = self.sent_requests@.dom();
        let mut attempt: u32 = 0;
        while attempt < ALLOCATION_ATTEMPTS
            invariant
                attempt <= ALLOCATION_ATTEMPTS,
                used == old(self).sent_requests@.dom(),
                start == old(self).next_sent_request_id,
                self.sent_requests@ == old(self).sent_requests@,
                self.received_requests@ == old(self).received_requests@,
                self.next_channel == old(self).next_channel,
                self.forwarded == old(self).forwarded,
                self.next_sent_request_id == spec_wrapping_add(start, attempt as nat),
                spec_first_free(used, start, attempt as nat) is None,
            decreases ALLOCATION_ATTEMPTS - attempt,
        {
            proof {
                lemma_request_ids_are_ordered();
            }
            let request_id = self.next_sent_request_id;
            self.next_sent_request_id = if request_id == u32::MAX { 0 } else { request_id + 1 };
            assert(self.next_sent_request_id == spec_wrapping_add(start, (attempt + 1) as nat)) by {
                assert(((start + attempt) % 4294967296 + 1) % 4294967296 == (start + attempt + 1) % 4294967296)
                    by (nonlinear_arith);
            }
            if !self.sent_requests.contains_key(&request_id) {
                proof {
                    lemma_request_ids_are_ordered();
                    assert(!used.contains(request_id));
                    assert(spec_first_free(used, start, (attempt + 1) as nat) == Some(attempt as nat));
                    lemma_first_free_stable(used, start, attempt as nat, ALLOCATION_ATTEMPTS as nat);
                }
                let (sender, receiver) = self.make_channel();
                self.sent_requests.insert(request_id, sender);
                assert(self.sent_requests@.dom() == used.insert(request_id));
                assert(self.spec_sent_channels() =~= old(self).spec_sent_channels().insert(request_id, old(self).next_channel));
                return Ok(SentRequest { request_id, service_id, receiver });
            }
            attempt += 1;
        }
        Err(Error::new(InnerError::NoFreeRequestIdFound))
    }

    /// Remove a sent request from the tracker.
    ///
    /// This should be called when a request is finished to make the ID available again.
    /// Note that sent requests are also removed internally when they receive a response,
    /// or when they would receive a message but the request handle was dropped.
    pub fn remove_sent_request(&mut self, request_id: u32) -> (r: Result<(), Error>)
        ensures
            r is Ok <==> old(self).spec_sent().contains(request_id),
            r matches Err(e) ==> e@ == (InnerError::UnknownRequestId { request_id }),
            final(self).spec_sent() == old(self).spec_sent().remove(request_id),
            final(self).spec_sent_channels() == old(self).spec_sent_channels().remove(request_id),
            final(self).spec_received() == old(self).spec_received(),
            final(self).spec_received_channels() == old(self).spec_received_channels(),
            final(self).spec_next_id() == old(self).spec_next_id(),
            final(self).spec_next_channel() == old(self).spec_next_channel(),
            final(self).spec_forwarded() == old(self).spec_forwarded(),
    {
        proof { lemma_request_ids_are_ordered(); }
        let r = match self.sent_requests.remove(&request_id) {
            Some(_) => Ok(()),
            None => Err(Error::new(InnerError::UnknownRequestId { request_id })),
        };
        assert(self.spec_sent_channels() =~= old(self).spec_sent_channels().remove(request_id));
        r
    }

    /// Register a new received request.
    ///
    /// Returns an error if the request ID is still in use by an open received request.
    /// An ID whose request handle was dropped is no longer in use and is taken over.
    /// Whether it was dropped is asked of the channel of the existing request; what follows
    /// from each answer is stated by [`Self::finish_register_received_request`].
    ///
    /// Returns the channel on which the further messages for the request arrive.
    pub fn register_received_request(&mut self, request_id: u32) -> (r: Result<RequestReceiver<Body>, Error>)
        ensures
            !old(self).spec_received().contains(request_id) ==> r is Ok,
            r matches Ok(rx) ==> {
                &&& rx.channel == old(self).spec_next_channel()
                &&& final(self).spec_received() == old(self).spec_received().insert(request_id)
                &&& final(self).spec_received_channels() == old(self).spec_received_channels().insert(request_id, old(self).spec_next_channel())
                &&& final(self).spec_next_channel() == spec_next_channel(old(self).spec_next_channel())
            },
            r matches Err(e) ==> {
                &&& e@ == (InnerError::DuplicateRequestId { request_id })
                &&& old(self).spec_received().contains(request_id)
                &&& final(self).spec_received() == old(self).spec_received()
                &&& final(self).spec_received_channels() == old(self).spec_received_channels()
                &&& final(self).spec_next_channel() == old(self).spec_next_channel()
            },
            final(self).spec_sent() == old(self).spec_sent(),
            final(self).spec_sent_channels() == old(self).spec_sent_channels(),
            final(self).spec_next_id() == old(self).spec_next_id(),
            final(self).spec_forwarded() == old(self).spec_forwarded(),
    {
        proof { lemma_request_ids_are_ordered(); }
        let existing_closed = match self.received_requests.get(&request_id) {
            Some(existing) => Some(channel_is_closed(&existing.1)),
            None => None,
        };
        self.finish_register_received_request(request_id, existing_closed)
    }

    /// Register a new received request, given whether the channel of the received request
    /// that already has the ID was closed (`None` when no received request has the ID).
    ///
    /// If the existing channel is open, the request ID is still in use and the registration
    /// fails. If it is closed, the request handle was dropped and the ID is taken over.
    pub fn finish_register_received_request(&mut self, request_id: u32, existing_closed: Option<bool>) -> (r: Result<RequestReceiver<Body>, Error>)
        requires
            existing_closed is Some <==> old(self).spec_received().contains(request_id),
        ensures
            r is Err <==> existing_closed == Some(false),
            r matches Ok(rx) ==> {
                &&& rx.channel == old(self).spec_next_channel()
                &&& final(self).spec_received() == old(self).spec_received().insert(request_id)
                &&& final(self).spec_received_channels() == old(self).spec_received_channels().insert(request_id, old(self).spec_next_channel())
                &&& final(self).spec_next_channel() == spec_next_channel(old(self).spec_next_channel())
            },
            r matches Err(e) ==> {
                &&& e@ == (InnerError::DuplicateRequestId { request_id })
                &&& final(self).spec_received() == old(self).spec_received()
                &&& final(self).spec_received_channels() == old(self).spec_received_channels()
                &&& final(self).spec_next_channel() == old(self).spec_next_channel()
            },
            final(self).spec_sent() == old(self).spec_sent(),
            final(self).spec_sent_channels() == old(self).spec_sent_channels(),
            final(self).spec_next_id() == old(self).spec_next_id(),
            final(self).spec_forwarded() == old(self).spec_forwarded(),
    {
        proof { lemma_request_ids_are_ordered(); }
        if existing_closed == Some(false) {
            return Err(Error::new(InnerError::DuplicateRequestId { request_id }));
        }
        let (sender, receiver) = self.make_channel();
        self.received_requests.insert(request_id, sender);
        assert(self.spec_received_channels() =~= old(self).spec_received_channels().insert(request_id, old(self).next_channel));
        Ok(receiver)
    }

    /// Finish handling an update for an open request, given whether it was delivered to the
    /// channel of the request: a requester update belongs to a received request, a responder
    /// update to a sent request.
    ///
    /// A delivered update is fully handled. If it was not delivered, the request handle was
    /// dropped: the request is removed and an unknown request ID is reported.
    pub fn finish_update(&mut self, request_id: u32, kind: MessageType, delivered: bool) -> (r: Result<Option<UnhandledMessage<Body>>, Error>)
        requires
            kind is RequesterUpdate ==> old(self).spec_received().contains(request_id),
            kind is ResponderUpdate ==> old(self).spec_sent().contains(request_id),
            kind is RequesterUpdate || kind is ResponderUpdate,
        ensures
            final(self).spec_next_id() == old(self).spec_next_id(),
            final(self).spec_next_channel() == old(self).spec_next_channel(),
            final(self).spec_forwarded() == old(self).spec_forwarded(),
            delivered ==> {
                &&& r matches Ok(None)
                &&& final(self).spec_sent() == old(self).spec_sent()
                &&& final(self).spec_sent_channels() == old(self).spec_sent_channels()
                &&& final(self).spec_received() == old(self).spec_received()
                &&& final(self).spec_received_channels() == old(self).spec_received_channels()
            },
            !delivered ==> {
                &&& r matches Err(e) && e@ == (InnerError::UnknownRequestId { request_id })
                &&& kind is RequesterUpdate ==> {
                    &&& final(self).spec_received() == old(self).spec_received().remove(request_id)
                    &&& final(self).spec_received_channels() == old(self).spec_received_channels().remove(request_id)
                    &&& final(self).spec_sent() == old(self).spec_sent()
                    &&& final(self).spec_sent_channels() == old(self).spec_sent_channels()
                }
                &&& kind is ResponderUpdate ==> {
                    &&& final(self).spec_sent() == old(self).spec_sent().remove(request_id)
                    &&& final(self).spec_sent_channels() == old(self).spec_sent_channels().remove(request_id)
                    &&& final(self).spec_received() == old(self).spec_received()
                    &&& final(self).spec_received_channels() == old(self).spec_received_channels()
                }
            },
    {
        proof { lemma_request_ids_are_ordered(); }
        if delivered {
            return Ok(None);
        }
        match kind {
            MessageType::RequesterUpdate => {
                // The received request was dropped, so clear the entry.
                self.received_requests.remove(&request_id);
                assert(self.spec_received_channels() =~= old(self).spec_received_channels().remove(request_id));
            },
            _ => {
                // The sent request was dropped, so clear the entry.
                self.sent_requests.remove(&request_id);
                assert(self.spec_sent_channels() =~= old(self).spec_sent_channels().remove(request_id));
            },
        }
        Err(Error::new(InnerError::UnknownRequestId { request_id }))
    }

    /// Remove a received request from the tracker.
    ///
    /// This should be called when a request is finished to make the ID available again.
    /// Note that received requests are also removed internally when they would receive a message but the request handle was dropped.
    pub fn remove_received_request(&mut self, request_id: u32) -> (r: Result<(), Error>)
        ensures
            r is Ok <==> old(self).spec_received().contains(request_id),
            r matches Err(e) ==> e@ == (InnerError::UnknownRequestId { request_id }),
            final(self).spec_received() == old(self).spec_received().remove(request_id),
            final(self).spec_received_channels() == old(self).spec_received_channels().remove(request_id),
            final(self).spec_sent() == old(self).spec_sent(),
            final(self).spec_sent_channels() == old(self).spec_sent_channels(),
            final(self).spec_next_id() == old(self).spec_next_id(),
            final(self).spec_next_channel() == old(self).spec_next_channel(),
            final(self).spec_forwarded() == old(self).spec_forwarded(),
    {
        proof { lemma_request_ids_are_ordered(); }
        let r = match self.received_requests.remove(&request_id) {
            Some(_) => Ok(()),
            None => Err(Error::new(InnerError::UnknownRequestId { request_id })),
        };
        assert(self.spec_received_channels() =~= old(self).spec_received_channels().remove(request_id));
        r
    }

    /// Process an incoming message.
    ///
    /// This will pass the message on to an open request if any matches:
    /// a response and a responder update go to the channel of the sent request with their ID,
    /// a requester update goes to the channel of the received request with its ID.
    ///
    /// Returns an error
    ///  * if an incoming request message uses an already claimed request ID
    ///  * if an incoming update or response message does not match an open request
    ///  * if an update could not be delivered because the request handle was dropped;
    ///    what follows from delivering or not is stated by [`Self::finish_update`]
    pub fn process_incoming_message(&mut self, message: Message<Body>) -> (r: Result<Option<UnhandledMessage<Body>>, Error>)
        ensures
            final(self).spec_next_id() == old(self).spec_next_id(),
            ({
                let id = message.header.request_id;
                let sent = old(self).spec_sent();
                let received = old(self).spec_received();
                let sent_channels = old(self).spec_sent_channels();
                let received_channels = old(self).spec_received_channels();
                let forwarded = old(self).spec_forwarded();
                let next_channel = old(self).spec_next_channel();
                match message.header.message_type {
                    MessageType::Request => {
                        &&& final(self).spec_sent_channels() == sent_channels
                        &&& final(self).spec_sent() == sent
                        &&& final(self).spec_forwarded() == forwarded
                        &&& !received.contains(id) ==> r is Ok
                        &&& r is Ok ==> {
                            &&& r matches Ok(Some(UnhandledMessage::ReceivedRequest(m, rx))) && m == message && rx.channel == next_channel
                            &&& final(self).spec_received() == received.insert(id)
                            &&& final(self).spec_received_channels() == received_channels.insert(id, next_channel)
                            &&& final(self).spec_next_channel() == spec_next_channel(next_channel)
                        }
                        &&& r matches Err(e) ==> {
                            &&& e@ == (InnerError::DuplicateRequestId { request_id: id })
                            &&& received.contains(id)
                            &&& final(self).spec_received() == received
                            &&& final(self).spec_received_channels() == received_channels
                            &&& final(self).spec_next_channel() == next_channel
                        }
                    },
                    MessageType::Response => {
                        &&& final(self).spec_received() == received
                        &&& final(self).spec_received_channels() == received_channels
                        &&& final(self).spec_sent() == sent.remove(id)
                        &&& final(self).spec_sent_channels() == sent_channels.remove(id)
                        &&& final(self).spec_next_channel() == next_channel
                        &&& r is Ok <==> sent.contains(id)
                        &&& r is Ok ==> (r matches Ok(None))
                        &&& r is Ok ==> final(self).spec_forwarded()
                            == forwarded.push((sent_channels[id], RequestHandleCommand::Message(message)))
                        &&& r matches Err(e) ==> e@ == (InnerError::UnknownRequestId { request_id: id })
                            && final(self).spec_forwarded() == forwarded
                    },
                    MessageType::RequesterUpdate => {
                        &&& final(self).spec_sent() == sent
                        &&& final(self).spec_sent_channels() == sent_channels
                        &&& final(self).spec_next_channel() == next_channel
                        &&& !received.contains(id) ==> r is Err && final(self).spec_received() == received
                            && final(self).spec_forwarded() == forwarded
                        &&& received.contains(id) ==> final(self).spec_forwarded()
                            == forwarded.push((received_channels[id], RequestHandleCommand::Message(message)))
                        &&& r is Ok ==> {
                            &&& (r matches Ok(None))
                            &&& received.contains(id)
                            &&& final(self).spec_received() == received
                            &&& final(self).spec_received_channels() == received_channels
                        }
                        &&& r matches Err(e) ==> {
                            &&& e@ == (InnerError::UnknownRequestId { request_id: id })
                            &&& final(self).spec_received() == received.remove(id)
                            &&& final(self).spec_received_channels() == received_channels.remove(id)
                        }
                    },
                    MessageType::ResponderUpdate => {
                        &&& final(self).spec_received() == received
                        &&& final(self).spec_received_channels() == received_channels
                        &&& final(self).spec_next_channel() == next_channel
                        &&& !sent.contains(id) ==> r is Err && final(self).spec_sent() == sent
                            && final(self).spec_forwarded() == forwarded
                        &&& sent.contains(id) ==> final(self).spec_forwarded()
                            == forwarded.push((sent_channels[id], RequestHandleCommand::Message(message)))
                        &&& r is Ok ==> {
                            &&& (r matches Ok(None))
                            &&& sent.contains(id)
                            &&& final(self).spec_sent() == sent
                            &&& final(self).spec_sent_channels() == sent_channels
                        }
                        &&& r matches Err(e) ==> {
                            &&& e@ == (InnerError::UnknownRequestId { request_id: id })
                            &&& final(self).spec_sent() == sent.remove(id)
                            &&& final(self).spec_sent_channels() == sent_channels.remove(id)
                        }
                    },
                    MessageType::Stream => {
                        &&& final(self).spec_sent() == sent
                        &&& final(self).spec_received() == received
                        &&& final(self).spec_sent_channels() == sent_channels
                        &&& final(self).spec_received_channels() == received_channels
                        &&& final(self).spec_next_channel() == next_channel
                        &&& final(self).spec_forwarded() == forwarded
                        &&& r matches Ok(Some(UnhandledMessage::Stream(m))) && m == message
                    },
                }
            }),
    {
        proof { lemma_request_ids_are_ordered(); }
        let request_id = message.header.request_id;
        match message.header.message_type {
            MessageType::Request => {
                let incoming_rx = self.register_received_request(request_id)?;
                Ok(Some(UnhandledMessage::ReceivedRequest(message, incoming_rx)))
            },
            MessageType::Response => {
                // Forward the message to the sent request, then remove the entry.
                match self.sent_requests.remove(&request_id) {
                    Some(sender) => {
                        let _ = channel_send(&mut self.forwarded, &sender, RequestHandleCommand::Message(message));
                        assert(self.spec_sent_channels() =~= old(self).spec_sent_channels().remove(request_id));
                        Ok(None)
                    },
                    None => {
                        assert(self.spec_sent_channels() =~= old(self).spec_sent_channels().remove(request_id));
                        Err(Error::new(InnerError::UnknownRequestId { request_id }))
                    },
                }
            },
            MessageType::RequesterUpdate => {
                let delivered = match self.received_requests.get(&request_id) {
                    Some(sender) => {
                        channel_send(&mut self.forwarded, sender, RequestHandleCommand::Message(message))
                    },
                    None => return Err(Error::new(InnerError::UnknownRequestId { request_id })),
                };
                self.finish_update(request_id, MessageType::RequesterUpdate, delivered)
            },
            MessageType::ResponderUpdate => {
                let delivered = match self.sent_requests.get(&request_id) {
                    Some(sender) => {
                        channel_send(&mut self.forwarded, sender, RequestHandleCommand::Message(message))
                    },
                    None => return Err(Error::new(InnerError::UnknownRequestId { request_id })),
                };
                self.finish_update(request_id, MessageType::ResponderUpdate, delivered)
            },
            MessageType::Stream => Ok(Some(UnhandledMessage::Stream(message))),
        }
    }
}

} // verus!
