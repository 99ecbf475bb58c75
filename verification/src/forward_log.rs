//! The record of the commands handed to the channels of open requests.

use vstd::prelude::*;
use crate::request_tracker::RequestHandleCommand;

verus! {

/// The commands handed to the channels of open requests so far, each with the number of its
/// channel, in order.
///
/// The record exists for proofs only and has no content at run time. It starts empty, and only
/// handing a command to a channel adds to it.
#[verifier::reject_recursive_types(Body)]
pub struct ForwardLog<Body> {
    entries: Ghost<Seq<(u64, RequestHandleCommand<Body>)>>,
}

impl<Body> ForwardLog<Body> {
    /// The commands handed to channels so far, with the numbers of their channels, in order.
    pub closed spec fn spec_entries(&self) -> Seq<(u64, RequestHandleCommand<Body>)> {
        self.entries@
    }

    /// An empty record.
    pub fn new() -> (r: Self)
        ensures
            r.spec_entries() == Seq::<(u64, RequestHandleCommand<Body>)>::empty(),
    {
        ForwardLog { entries: Ghost(Seq::empty()) }
    }
}

} // verus!
