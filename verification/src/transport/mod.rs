//! Message transports: the byte order of headers, the framing of messages on
//! byte streams and datagrams, and the errors of the transport layer.
//!
//! The socket I/O itself is driven by the caller; the types here decide what
//! is read and written and what the bytes mean.

pub mod endian;
pub mod stream;
pub mod unix;

pub use endian::Endian;
pub use stream::{StreamBody, StreamConfig, StreamReadHalf, StreamTransport, StreamWriteHalf, UnixStreamInfo};
pub use unix::{UnixBody, UnixConfig, UnixReadHalf, UnixSeqpacketInfo, UnixTransport, UnixWriteHalf};


use vstd::prelude::*;
use crate::error::{Error, InnerError};

verus! {

/// An error from the transport layer.
///
/// This is a regular [`crate::Error`],
/// but also indicates if it is fatal for the transport or not.
#[derive(Debug)]
pub struct TransportError {
    /// The actual error that occured.
    inner: Error,

    /// If true, the error was fatal and the transport is no longer usable.
    is_fatal: bool,
}

impl TransportError {
    /// The error that this transport error carries.
    pub closed spec fn spec_inner(&self) -> InnerError {
        self.inner@
    }

    /// Whether the error is fatal for the transport.
    pub closed spec fn spec_is_fatal(&self) -> bool {
        self.is_fatal
    }

    /// Create a new fatal transport error from an inner error.
    ///
    /// After a transport returns a fatal error, the transport should not be used anymore.
    pub fn new_fatal(inner: Error) -> (r: Self)
        ensures
            r.spec_inner() == inner@,
            r.spec_is_fatal(),
    {
        Self { inner, is_fatal: true }
    }

    /// Create a new non-fatal transport error from an inner error.
    ///
    /// A transport may still be used after returning a non-fatal error.
    pub fn new_non_fatal(inner: Error) -> (r: Self)
        ensures
            r.spec_inner() == inner@,
            !r.spec_is_fatal(),
    {
        Self { inner, is_fatal: false }
    }

    /// Get the inner error.
    pub fn inner(&self) -> (r: &Error)
        ensures
            r@ == self.spec_inner(),
    {
        &self.inner
    }

    /// Consume `self` to get the inner error.
    pub fn into_inner(self) -> (r: Error)
        ensures
            r@ == self.spec_inner(),
    {
        self.inner
    }

    /// Describe the inner error in words.
    pub fn describe(&self) -> (r: String)
        ensures
            crate::error::spec_describe_inner(self.spec_inner()) matches Some(text) ==> r@ == text,
    {
        self.inner.describe()
    }

    /// Check if the error is fatal for the transport.
    ///
    /// If the error is fatal,
    /// the transport that generated it is no longer usable.
    pub fn is_fatal(&self) -> (r: bool)
        ensures
            r == self.spec_is_fatal(),
    {
        self.is_fatal
    }
}

} // verus!
