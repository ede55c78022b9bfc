use vstd::prelude::*;

verus! {

/// The filter applied to sync responses.
#[derive(Debug)]
pub enum Filter {
    /// The identifier of a filter stored on the server.
    FilterId(String),
    /// A filter definition, as serialized JSON.
    FilterDefinition(String),
}

impl Clone for Filter {
    fn clone(&self) -> (r: Self)
        ensures
            r == *self,
    {
        match self {
            Filter::FilterId(id) => Filter::FilterId(id.clone()),
            Filter::FilterDefinition(definition) => Filter::FilterDefinition(definition.clone()),
        }
    }
}

/// A presence directive attached to a sync request.
#[derive(Debug, Clone, Copy, PartialEq, Eq)]
pub enum SetPresence {
    /// Do not mark the user as online while syncing.
    Offline,
}

/// One request to the sync endpoint.
#[derive(Debug)]
pub struct SyncRequest {
    /// The filter to apply, if any.
    pub filter: Option<Filter>,
    /// The cursor to continue from; `None` asks for the full initial state.
    pub since: Option<String>,
    /// Whether to include the full state; always left to the server's default.
    pub full_state: Option<bool>,
    /// The presence directive, if any.
    pub set_presence: Option<SetPresence>,
    /// How long the server may wait, in milliseconds; always left to the
    /// server's default.
    pub timeout: Option<u64>,
}

/// The presence directive that a presence-publishing flag calls for.
pub open spec fn presence_directive(publish_presence: bool) -> Option<SetPresence> {
    if publish_presence {
        None
    } else {
        Some(SetPresence::Offline)
    }
}

/// The abstract state of a sync sequence: its filter, its last known cursor
/// and whether it publishes presence.
pub type SyncState = (Option<Filter>, Option<Seq<char>>, bool);

/// Whether `r` is the request that a sync sequence in state `s` issues.
pub open spec fn issues(s: SyncState, r: SyncRequest) -> bool {
    &&& r.filter == s.0
    &&& match r.since {
        Some(c) => s.1 == Some(c@),
        None => s.1 is None,
    }
    &&& r.full_state is None
    &&& r.set_presence == presence_directive(s.2)
    &&& r.timeout is None
}

/// The state a sync sequence reaches after receiving a response whose
/// forwarding cursor is `next_batch`.
pub open spec fn advanced(s: SyncState, next_batch: Seq<char>) -> SyncState {
    (s.0, Some(next_batch), s.2)
}

/// The state a sync sequence reaches after receiving responses with the given
/// forwarding cursors, in order.
pub open spec fn advanced_by(s: SyncState, batches: Seq<Seq<char>>) -> SyncState
    decreases batches.len(),
{
    if batches.len() == 0 {
        s
    } else {
        advanced(advanced_by(s, batches.drop_last()), batches.last())
    }
}

/// The sequence of sync requests of one poll stream.
///
/// Its single piece of changing state is the last known cursor: each request
/// continues from the cursor of the previous response, or from the starting
/// cursor for the first request.
#[derive(Debug)]
pub struct SyncStream {
    filter: Option<Filter>,
    since: Option<String>,
    publish_presence: bool,
}

impl View for SyncStream {
    type V = SyncState;

    closed spec fn view(&self) -> SyncState {
        (
            self.filter,
            match self.since {
                Some(c) => Some(c@),
                None => None,
            },
            self.publish_presence,
        )
    }
}

impl SyncStream {
    /// Starts a sync sequence with an optional filter and starting cursor.
    ///
    /// Where `publish_presence` is false every request asks the server to
    /// leave the user offline; otherwise no directive is sent.
    pub fn new(filter: Option<Filter>, since: Option<String>, publish_presence: bool) -> (s: Self)
        ensures
            s@ == (
                filter,
                match since {
                    Some(c) => Some(c@),
                    None => None,
                },
                publish_presence,
            ),
    {
        SyncStream { filter, since, publish_presence }
    }

    /// The request to issue next.
    pub fn next_request(&self) -> (r: SyncRequest)
        ensures
            issues(self@, r),
    {
        let filter = match &self.filter {
            Some(f) => Some(f.clone()),
            None => None,
        };
        let since = match &self.since {
            Some(c) => Some(c.clone()),
            None => None,
        };
        let set_presence = if self.publish_presence {
            None
        } else {
            Some(SetPresence::Offline)
        };
        SyncRequest { filter, since, full_state: None, set_presence, timeout: None }
    }

    /// Takes in the forwarding cursor of the response just received.
    pub fn advance(&mut self, next_batch: String)
        ensures
            final(self)@ == advanced(old(self)@, next_batch@),
    {
        self.since = Some(next_batch);
    }
}

/// Cursor threading: after responses with forwarding cursors `batches`, the
/// sequence's next request continues from the last of them (from the starting
/// cursor where there were none), with the same filter, and carries the
/// offline directive exactly when presence publishing is off.
pub proof fn lemma_cursor_threading(s: SyncState, batches: Seq<Seq<char>>, r: SyncRequest)
    requires
        issues(advanced_by(s, batches), r),
    ensures
        batches.len() == 0 ==> match r.since {
            Some(c) => s.1 == Some(c@),
            None => s.1 is None,
        },
        batches.len() > 0 ==> (r.since matches Some(c) && c@ == batches.last()),
        r.filter == s.0,
        r.set_presence == presence_directive(s.2),
        (r.set_presence == Some(SetPresence::Offline)) == !s.2,
{
    lemma_state_after(s, batches);
}

/// After any responses, the filter and the presence flag are those the
/// sequence started with, and the cursor is the last one received.
pub proof fn lemma_state_after(s: SyncState, batches: Seq<Seq<char>>)
    ensures
        advanced_by(s, batches).0 == s.0,
        advanced_by(s, batches).2 == s.2,
        advanced_by(s, batches).1 == if batches.len() == 0 {
            s.1
        } else {
            Some(batches.last())
        },
    decreases batches.len(),
{
    if batches.len() > 0 {
        lemma_state_after(s, batches.drop_last());
    }
}

/// Order of the cursors: the request issued after the first `k` of the
/// responses continues from the `k`-th response's cursor, so once the sequence
/// has advanced past a response it never goes back to an earlier cursor.
pub proof fn lemma_cursor_order(s: SyncState, batches: Seq<Seq<char>>, k: int)
    requires
        0 < k <= batches.len(),
    ensures
        advanced_by(s, batches.take(k)).1 == Some(batches[k - 1]),
{
    lemma_state_after(s, batches.take(k));
}

} // verus!
