use vstd::prelude::*;
use vstd::rwlock::RwLock;

use crate::error::Error;

verus! {

/// The credential and identity that the server hands out on login or
/// registration.
///
/// A session is only ever built from a successful authentication response and
/// is replaced as a whole, never field by field.
#[derive(Debug)]
pub struct Session {
    /// The access token that authenticates requests.
    pub access_token: String,
    /// The identifier of the device this session belongs to.
    pub device_id: String,
    /// The fully qualified identifier of the logged-in user.
    pub user_id: String,
}

impl Clone for Session {
    fn clone(&self) -> (r: Self)
        ensures
            r == *self,
    {
        Session {
            access_token: self.access_token.clone(),
            device_id: self.device_id.clone(),
            user_id: self.user_id.clone(),
        }
    }
}

impl Session {
    /// Whether two sessions hold the same token, device and user.
    pub open spec fn same_as(self, other: Session) -> bool {
        &&& self.access_token@ == other.access_token@
        &&& self.device_id@ == other.device_id@
        &&& self.user_id@ == other.user_id@
    }
}

/// The fields of a successful login or registration response that make up a
/// session.
#[derive(Debug)]
pub struct AuthResponse {
    /// The access token issued by the server.
    pub access_token: String,
    /// The device the server assigned or confirmed.
    pub device_id: String,
    /// The user the server logged in or registered.
    pub user_id: String,
}

/// The session that a successful authentication response establishes.
pub open spec fn session_of(response: AuthResponse) -> Session {
    Session {
        access_token: response.access_token,
        device_id: response.device_id,
        user_id: response.user_id,
    }
}

/// Builds the session carried by an authentication response.
pub fn session_from_response(response: AuthResponse) -> (s: Session)
    ensures
        s == session_of(response),
{
    Session {
        access_token: response.access_token,
        device_id: response.device_id,
        user_id: response.user_id,
    }
}

/// Records the outcome of a login or registration call in a session slot.
///
/// On success the slot holds the new session, which is also returned; on
/// failure the slot is left as it was and the error is handed back unchanged.
pub fn record_outcome(slot: &mut Option<Session>, outcome: Result<AuthResponse, Error>) -> (r:
    Result<Session, Error>)
    ensures
        match outcome {
            Ok(response) => {
                &&& r == Ok::<Session, Error>(session_of(response))
                &&& *final(slot) == Some(session_of(response))
            },
            Err(e) => {
                &&& r == Err::<Session, Error>(e)
                &&& *final(slot) == *old(slot)
            },
        },
{
    match outcome {
        Ok(response) => {
            let session = session_from_response(response);
            *slot = Some(session.clone());
            Ok(session)
        },
        Err(e) => Err(e),
    }
}

/// Reads a session slot: a copy of what it holds.
pub fn read_slot(slot: &Option<Session>) -> (r: Option<Session>)
    ensures
        r == *slot,
{
    match slot {
        Some(session) => Some(session.clone()),
        None => None,
    }
}

/// Reading a session slot twice, with no write in between, gives equal
/// sessions: a read neither consumes nor alters what the slot holds.
pub proof fn lemma_read_idempotent(slot: Option<Session>, first: Option<Session>, second: Option<Session>)
    requires
        first == slot,
        second == slot,
    ensures
        first == second,
        first is Some ==> first->Some_0.same_as(second->Some_0),
{
}

/// The predicate of the session lock: every optional session may be stored.
pub open spec fn any_session(v: Option<Session>) -> bool {
    true
}

/// The one mutable slot that every clone of a client shares.
///
/// All access goes through a single lock. Each operation takes the lock for
/// one read or one write and releases it before returning, so the lock is never
/// held across network I/O.
pub struct SessionStore {
    lock: RwLock<Option<Session>, spec_fn(Option<Session>) -> bool>,
}

impl SessionStore {
    /// Every optional session may be stored under the lock.
    #[verifier::type_invariant]
    spec fn accepts_any(&self) -> bool {
        forall|v: Option<Session>| #[trigger] self.lock.inv(v)
    }

    /// Creates a store that holds `session`.
    pub fn new(session: Option<Session>) -> (s: Self) {
        let pred = Ghost(|v: Option<Session>| any_session(v));
        let lock = RwLock::new(session, pred);
        SessionStore { lock }
    }

    /// A copy of the session held right now, if any.
    ///
    /// Other clones of the client may write between two calls, so no more is
    /// promised of the result than that it was held at one moment.
    pub fn get(&self) -> (r: Option<Session>) {
        let handle = self.lock.acquire_read();
        let r = read_slot(handle.borrow());
        handle.release_read();
        r
    }

    /// Replaces whatever is held with `session`, atomically.
    pub fn set(&self, session: Session) {
        proof {
            use_type_invariant(self);
        }
        let (_previous, handle) = self.lock.acquire_write();
        handle.release_write(Some(session));
    }

    /// Empties the store, atomically.
    pub fn clear(&self) {
        proof {
            use_type_invariant(self);
        }
        let (_previous, handle) = self.lock.acquire_write();
        handle.release_write(None);
    }

    /// Records the outcome of a login or registration call in one write.
    ///
    /// On success the new session is stored and returned; on failure the store
    /// is not written and the error comes back unchanged.
    pub fn record(&self, outcome: Result<AuthResponse, Error>) -> (r: Result<Session, Error>)
        ensures
            match outcome {
                Ok(response) => r == Ok::<Session, Error>(session_of(response)),
                Err(e) => r == Err::<Session, Error>(e),
            },
    {
        proof {
            use_type_invariant(self);
        }
        match outcome {
            Ok(response) => {
                let (mut slot, handle) = self.lock.acquire_write();
                let r = record_outcome(&mut slot, Ok(response));
                handle.release_write(slot);
                r
            },
            Err(e) => Err(e),
        }
    }
}

} // verus!
