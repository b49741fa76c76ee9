//! The client shell around an inner request-sending service.  The
//! transport impls that drive it over HTTP live outside the verified
//! library; here the shell only carries the inner service.

use vstd::prelude::*;

verus! {

/// A registry client wrapping an inner service that can send requests.
pub struct HttpPearClient<TyInner> {
    pub inner: TyInner,
}

impl<TyInner> HttpPearClient<TyInner> {
    /// Wrap an inner service.
    pub fn new(inner: TyInner) -> (r: Self)
        ensures
            r.inner == inner,
    {
        Self { inner }
    }
}

/// What can go wrong while a query travels to the registry and its answer
/// travels back.
#[derive(Clone, Debug, PartialEq, Eq, PartialOrd, Ord, Hash)]
pub enum HttpPearClientError {
    /// The inner service was not ready.
    PollReady(String),
    /// The request could not be sent.
    Send(String),
    /// The response body could not be received.
    Receive(String),
    /// The response body could not be decoded; carries the body.
    ResponseFormat(String, Vec<u8>),
    /// The operation is forbidden for the provided auth.
    Forbidden,
    /// The resource already exists.
    Conflict,
    /// The resource was not found.
    NotFound,
    /// Any other failure.
    Other(String),
}

} // verus!
