//! Session-aware request dispatch for a client of the Matrix client-server API.
//!
//! The library holds the shared authentication session of a client handle,
//! turns transport-level requests into fully resolved URLs (injecting the
//! access token where an endpoint requires authentication), records the
//! session returned by login and registration, and threads the cursor of the
//! sync long-poll from one response into the next request.
//!
//! Sending requests and decoding responses is left to the transport that
//! drives this library.

pub mod client;
pub mod error;
pub mod resolve;
pub mod session;
pub mod sync;

pub use crate::client::Client;
pub use crate::error::Error;
pub use crate::session::{AuthResponse, Session, SessionStore};
