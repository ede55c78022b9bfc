use vstd::prelude::*;

verus! {

/// The ways in which a call through a client can fail.
///
/// Every failure is handed back to the caller; none is retried or swallowed.
#[derive(Debug)]
pub enum Error {
    /// An endpoint that requires authentication was called with no session.
    /// No request was sent.
    AuthenticationRequired,
    /// The typed request could not be turned into a transport-level request.
    RequestConstruction(String),
    /// The resolved URL (homeserver, path, query and token) did not parse.
    UrlConstruction,
    /// The transport failed to deliver the request or to receive the response.
    Transport(String),
    /// The response could not be turned into the endpoint's typed response.
    ResponseDecoding(String),
}

} // verus!
