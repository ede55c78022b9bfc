use std::sync::Arc;
use vstd::prelude::*;

use crate::error::Error;
use crate::resolve::{
    opt_view, origin_of, parse_origin, resolution_ok, resolve_url, HttpRequest,
    Metadata,
};
use crate::session::{session_of, AuthResponse, Session, SessionStore};
use crate::sync::{Filter, SyncStream};

verus! {

/// The state that every clone of a client shares.
struct ClientData {
    /// The origin (scheme, host and port) of the homeserver.
    homeserver: String,
    /// The session of the client, if it is logged in.
    session: SessionStore,
}

/// A handle to a client of one homeserver.
///
/// Clones are cheap and share one session store: a session set or cleared
/// through one clone is seen through every other.
pub struct Client {
    data: Arc<ClientData>,
}

impl Clone for Client {
    fn clone(&self) -> (r: Self)
        ensures
            r.homeserver_origin() == self.homeserver_origin(),
    {
        Client { data: self.data.clone() }
    }
}

/// The way a login request authenticates.
#[derive(Debug, Clone, Copy, PartialEq, Eq)]
pub enum LoginType {
    /// With a user name and a password.
    Password,
}

/// A request to the login endpoint.
#[derive(Debug)]
pub struct LoginRequest {
    /// How the user authenticates.
    pub login_type: LoginType,
    /// The user to log in.
    pub user: String,
    /// The user's password.
    pub password: String,
    /// The device to log in on; the server assigns one where this is `None`.
    pub device_id: Option<String>,
}

/// The kind of account to register.
#[derive(Debug, Clone, Copy, PartialEq, Eq)]
pub enum RegistrationKind {
    /// A guest account.
    Guest,
    /// A full user account.
    User,
}

/// A request to the registration endpoint.
#[derive(Debug)]
pub struct RegisterRequest {
    /// The kind of account.
    pub kind: RegistrationKind,
    /// The local part of the new user's identifier; the server picks one where
    /// this is `None`.
    pub username: Option<String>,
    /// The new account's password.
    pub password: Option<String>,
    /// The device to register; the server assigns one where this is `None`.
    pub device_id: Option<String>,
    /// A display name for the new device.
    pub initial_device_display_name: Option<String>,
    /// Whether to bind the e-mail address used for authentication.
    pub bind_email: Option<bool>,
}

impl Client {
    /// The origin of the homeserver this client talks to.
    pub closed spec fn homeserver_origin(&self) -> Seq<char> {
        self.data.homeserver@
    }

    /// Creates a client of the homeserver at `homeserver_url`, holding
    /// `session` where one is restored from an earlier run.
    ///
    /// Fails with `UrlConstruction` where the text is no URL.
    pub fn new(homeserver_url: &str, session: Option<Session>) -> (r: Result<Client, Error>)
        ensures
            match origin_of(homeserver_url@) {
                Some(o) => r matches Ok(c) && c.homeserver_origin() == o,
                None => r matches Err(Error::UrlConstruction),
            },
    {
        match parse_origin(homeserver_url) {
            Some(homeserver) => {
                let data = ClientData { homeserver, session: SessionStore::new(session) };
                Ok(Client { data: Arc::new(data) })
            },
            None => Err(Error::UrlConstruction),
        }
    }

    /// The origin of the homeserver this client talks to.
    pub fn homeserver(&self) -> (r: &str)
        ensures
            r@ == self.homeserver_origin(),
    {
        self.data.homeserver.as_str()
    }

    /// The session store shared by every clone of this client.
    pub fn session_store(&self) -> (r: &SessionStore) {
        &self.data.session
    }

    /// A copy of the current session, if any, for example to persist it.
    pub fn session(&self) -> (r: Option<Session>) {
        self.data.session.get()
    }

    /// Resolves the URL of a request to an endpoint with the given metadata.
    ///
    /// An endpoint without authentication gets the origin, path and query of
    /// the request, whatever the session store holds. An endpoint with
    /// authentication reads the store once: where it is empty this fails with
    /// `AuthenticationRequired` before anything is sent, and otherwise the
    /// token of the session read is appended to the query.
    pub fn resolve(&self, request: &HttpRequest, metadata: Metadata) -> (r: Result<String, Error>)
        ensures
            !metadata.requires_authentication ==> resolution_ok(
                r,
                self.homeserver_origin(),
                request.path@,
                opt_view(request.query),
                false,
                None,
            ),
            metadata.requires_authentication ==> exists|s: Option<Session>|
                resolution_ok(
                    r,
                    self.homeserver_origin(),
                    request.path@,
                    opt_view(request.query),
                    true,
                    s,
                ),
    {
        if metadata.requires_authentication {
            let session = self.data.session.get();
            let r = resolve_url(self.data.homeserver.as_str(), request, metadata, &session);
            proof {
                assert(resolution_ok(
                    r,
                    self.homeserver_origin(),
                    request.path@,
                    opt_view(request.query),
                    true,
                    session,
                ));
            }
            r
        } else {
            resolve_url(self.data.homeserver.as_str(), request, metadata, &None)
        }
    }

    /// The request that logs in with a user name and password.
    pub fn log_in_request(user: String, password: String, device_id: Option<String>) -> (r:
        LoginRequest)
        ensures
            r.login_type == LoginType::Password,
            r.user == user,
            r.password == password,
            r.device_id == device_id,
    {
        LoginRequest { login_type: LoginType::Password, user, password, device_id }
    }

    /// The request that registers a guest account.
    pub fn register_guest_request() -> (r: RegisterRequest)
        ensures
            r.kind == RegistrationKind::Guest,
            r.username is None,
            r.password is None,
            r.device_id is None,
            r.initial_device_display_name is None,
            r.bind_email is None,
    {
        RegisterRequest {
            kind: RegistrationKind::Guest,
            username: None,
            password: None,
            device_id: None,
            initial_device_display_name: None,
            bind_email: None,
        }
    }

    /// The request that registers a user account; the server picks the user
    /// name where `username` is `None`.
    pub fn register_user_request(username: Option<String>, password: String) -> (r:
        RegisterRequest)
        ensures
            r.kind == RegistrationKind::User,
            r.username == username,
            r.password == Some(password),
            r.device_id is None,
            r.initial_device_display_name is None,
            r.bind_email is None,
    {
        RegisterRequest {
            kind: RegistrationKind::User,
            username,
            password: Some(password),
            device_id: None,
            initial_device_display_name: None,
            bind_email: None,
        }
    }

    /// Completes a login or registration call: on success the session made of
    /// the response's token, device and user is stored, for every clone, and
    /// returned; on failure the store is left alone and the error is returned
    /// unchanged.
    pub fn complete_authentication(&self, outcome: Result<AuthResponse, Error>) -> (r: Result<
        Session,
        Error,
    >)
        ensures
            match outcome {
                Ok(response) => r == Ok::<Session, Error>(session_of(response)),
                Err(e) => r == Err::<Session, Error>(e),
            },
    {
        self.data.session.record(outcome)
    }

    /// The sequence of sync requests of one poll stream: from `since`, or from
    /// the full initial state where it is `None`, leaving the user offline
    /// unless `set_presence` is true.
    pub fn sync(&self, filter: Option<Filter>, since: Option<String>, set_presence: bool) -> (r:
        SyncStream)
        ensures
            r@ == (
                filter,
                match since {
                    Some(c) => Some(c@),
                    None => None,
                },
                set_presence,
            ),
    {
        SyncStream::new(filter, since, set_presence)
    }
}

} // verus!
