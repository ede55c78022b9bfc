use ruma_client::client::{LoginType, RegistrationKind};
use ruma_client::resolve::{resolve_url, HttpRequest, Metadata};
use ruma_client::session::{read_slot, record_outcome};
use ruma_client::sync::{Filter, SetPresence, SyncStream};
use ruma_client::{AuthResponse, Client, Error, Session, SessionStore};

fn session(token: &str) -> Session {
    Session {
        access_token: token.to_string(),
        device_id: "DEVICE".to_string(),
        user_id: "@alice:example.com".to_string(),
    }
}

fn response(token: &str) -> AuthResponse {
    AuthResponse {
        access_token: token.to_string(),
        device_id: "NEWDEVICE".to_string(),
        user_id: "@bob:example.com".to_string(),
    }
}

fn get_request(path: &str, query: Option<&str>) -> HttpRequest {
    HttpRequest {
        method: "GET".to_string(),
        path: path.to_string(),
        query: query.map(|q| q.to_string()),
        body: Vec::new(),
    }
}

const AUTH: Metadata = Metadata { requires_authentication: true };
const OPEN: Metadata = Metadata { requires_authentication: false };

fn same(a: &Session, b: &Session) -> bool {
    a.access_token == b.access_token && a.device_id == b.device_id && a.user_id == b.user_id
}

#[test]
fn authenticated_call_without_session_fails() {
    let req = get_request("/_matrix/client/r0/sync", None);
    let r = resolve_url("https://example.com", &req, AUTH, &None);
    assert!(matches!(r, Err(Error::AuthenticationRequired)));
}

#[test]
fn client_without_session_refuses_authenticated_call() {
    let client = Client::new("https://example.com", None).unwrap();
    let req = get_request("/_matrix/client/r0/account/whoami", None);
    assert!(matches!(client.resolve(&req, AUTH), Err(Error::AuthenticationRequired)));
}

#[test]
fn authenticated_call_appends_token() {
    let req = get_request("/_matrix/client/r0/sync", None);
    let r = resolve_url("https://example.com", &req, AUTH, &Some(session("abc123"))).unwrap();
    assert_eq!(r, "https://example.com/_matrix/client/r0/sync?access_token=abc123");
}

#[test]
fn authenticated_call_keeps_existing_query() {
    let req = get_request("/_matrix/client/r0/sync", Some("since=s72&timeout=30"));
    let r = resolve_url("https://example.com", &req, AUTH, &Some(session("abc"))).unwrap();
    assert_eq!(r, "https://example.com/_matrix/client/r0/sync?since=s72&timeout=30&access_token=abc");
}

#[test]
fn authenticated_call_with_empty_query() {
    let req = get_request("/p", Some(""));
    let r = resolve_url("http://localhost:8008", &req, AUTH, &Some(session("t"))).unwrap();
    assert_eq!(r, "http://localhost:8008/p?access_token=t");
}

#[test]
fn token_is_form_encoded() {
    let req = get_request("/p", None);
    let r = resolve_url("https://example.com", &req, AUTH, &Some(session("a b/c=d"))).unwrap();
    assert_eq!(r, "https://example.com/p?access_token=a+b%2Fc%3Dd");
}

#[test]
fn client_injects_stored_token() {
    let client = Client::new("https://example.com", Some(session("stored"))).unwrap();
    let req = get_request("/_matrix/client/r0/account/whoami", None);
    let r = client.resolve(&req, AUTH).unwrap();
    assert_eq!(r, "https://example.com/_matrix/client/r0/account/whoami?access_token=stored");
    let after = client.session().unwrap();
    assert!(same(&after, &session("stored")));
}

#[test]
fn unauthenticated_call_never_gets_token() {
    let req = get_request("/_matrix/client/r0/login", Some("x=1"));
    let with = resolve_url("https://example.com", &req, OPEN, &Some(session("secret"))).unwrap();
    let without = resolve_url("https://example.com", &req, OPEN, &None).unwrap();
    assert_eq!(with, "https://example.com/_matrix/client/r0/login?x=1");
    assert_eq!(with, without);
    assert!(!with.contains("access_token"));
}

#[test]
fn client_unauthenticated_call_ignores_session() {
    let client = Client::new("https://example.com", Some(session("secret"))).unwrap();
    let req = get_request("/_matrix/client/r0/register", None);
    let r = client.resolve(&req, OPEN).unwrap();
    assert_eq!(r, "https://example.com/_matrix/client/r0/register");
}

#[test]
fn malformed_url_is_rejected() {
    let req = get_request("/a b", None);
    let r = resolve_url("https://example.com", &req, OPEN, &None);
    assert!(matches!(r, Err(Error::UrlConstruction)));
}

#[test]
fn client_new_keeps_origin_only() {
    let client = Client::new("https://example.com:8448/some/path?q=1", None).unwrap();
    assert_eq!(client.homeserver(), "https://example.com:8448");
    let plain = Client::new("http://localhost", None).unwrap();
    assert_eq!(plain.homeserver(), "http://localhost");
}

#[test]
fn client_new_rejects_non_url() {
    assert!(matches!(Client::new("not a url", None), Err(Error::UrlConstruction)));
}

#[test]
fn record_success_sets_session() {
    let mut slot: Option<Session> = None;
    let r = record_outcome(&mut slot, Ok(response("tok"))).unwrap();
    assert_eq!(r.access_token, "tok");
    assert_eq!(r.device_id, "NEWDEVICE");
    assert_eq!(r.user_id, "@bob:example.com");
    assert!(same(slot.as_ref().unwrap(), &r));
}

#[test]
fn record_failure_leaves_slot() {
    let mut slot = Some(session("old"));
    let r = record_outcome(&mut slot, Err(Error::Transport("connection refused".to_string())));
    assert!(matches!(r, Err(Error::Transport(ref m)) if m == "connection refused"));
    assert!(same(slot.as_ref().unwrap(), &session("old")));
}

#[test]
fn login_stores_session_for_client() {
    let client = Client::new("https://example.com", None).unwrap();
    let s = client.complete_authentication(Ok(response("fresh"))).unwrap();
    assert_eq!(s.access_token, "fresh");
    let stored = client.session().unwrap();
    assert_eq!(stored.access_token, "fresh");
    assert_eq!(stored.device_id, "NEWDEVICE");
    assert_eq!(stored.user_id, "@bob:example.com");
}

#[test]
fn failed_login_keeps_previous_session() {
    let client = Client::new("https://example.com", Some(session("old"))).unwrap();
    let r = client.complete_authentication(Err(Error::ResponseDecoding("403".to_string())));
    assert!(matches!(r, Err(Error::ResponseDecoding(_))));
    assert!(same(&client.session().unwrap(), &session("old")));
    let empty = Client::new("https://example.com", None).unwrap();
    let r = empty.complete_authentication(Err(Error::AuthenticationRequired));
    assert!(matches!(r, Err(Error::AuthenticationRequired)));
    assert!(empty.session().is_none());
}

#[test]
fn clones_share_session_store() {
    let a = Client::new("https://example.com", None).unwrap();
    let b = a.clone();
    assert!(b.session().is_none());
    a.session_store().set(session("shared"));
    assert_eq!(b.session().unwrap().access_token, "shared");
    b.complete_authentication(Ok(response("second"))).unwrap();
    assert_eq!(a.session().unwrap().access_token, "second");
    b.session_store().clear();
    assert!(a.session().is_none());
}

#[test]
fn repeated_get_returns_equal_sessions() {
    let store = SessionStore::new(Some(session("same")));
    let first = store.get().unwrap();
    let second = store.get().unwrap();
    assert!(same(&first, &second));
    let slot = Some(session("x"));
    assert!(same(&read_slot(&slot).unwrap(), &read_slot(&slot).unwrap()));
}

#[test]
fn store_set_and_clear() {
    let store = SessionStore::new(None);
    assert!(store.get().is_none());
    store.set(session("one"));
    assert_eq!(store.get().unwrap().access_token, "one");
    store.set(session("two"));
    assert_eq!(store.get().unwrap().access_token, "two");
    store.clear();
    assert!(store.get().is_none());
}

#[test]
fn sync_threads_cursor() {
    let client = Client::new("https://example.com", Some(session("t"))).unwrap();
    let mut stream = client.sync(None, None, true);
    let mut seen = Vec::new();
    for next_batch in ["t1", "t2", "t3"] {
        let req = stream.next_request();
        seen.push(req.since.clone());
        stream.advance(next_batch.to_string());
    }
    assert_eq!(seen, vec![None, Some("t1".to_string()), Some("t2".to_string())]);
    assert_eq!(stream.next_request().since, Some("t3".to_string()));
}

#[test]
fn sync_starts_from_given_cursor() {
    let mut stream = SyncStream::new(Some(Filter::FilterId("f1".to_string())), Some("s0".to_string()), true);
    let first = stream.next_request();
    assert_eq!(first.since, Some("s0".to_string()));
    assert!(matches!(first.filter, Some(Filter::FilterId(ref id)) if id == "f1"));
    assert_eq!(first.full_state, None);
    assert_eq!(first.timeout, None);
    stream.advance("s1".to_string());
    let second = stream.next_request();
    assert_eq!(second.since, Some("s1".to_string()));
    assert!(matches!(second.filter, Some(Filter::FilterId(ref id)) if id == "f1"));
}

#[test]
fn sync_presence_directive() {
    let mut offline = SyncStream::new(None, None, false);
    let mut online = SyncStream::new(None, None, true);
    for next_batch in ["a", "b", "c"] {
        assert_eq!(offline.next_request().set_presence, Some(SetPresence::Offline));
        assert_eq!(online.next_request().set_presence, None);
        offline.advance(next_batch.to_string());
        online.advance(next_batch.to_string());
    }
}

#[test]
fn convenience_requests() {
    let login = Client::log_in_request("@alice:example.com".to_string(), "secret".to_string(), None);
    assert_eq!(login.login_type, LoginType::Password);
    assert_eq!(login.user, "@alice:example.com");
    assert_eq!(login.password, "secret");
    assert_eq!(login.device_id, None);
    let guest = Client::register_guest_request();
    assert_eq!(guest.kind, RegistrationKind::Guest);
    assert_eq!(guest.password, None);
    let user = Client::register_user_request(Some("carol".to_string()), "pw".to_string());
    assert_eq!(user.kind, RegistrationKind::User);
    assert_eq!(user.username, Some("carol".to_string()));
    assert_eq!(user.password, Some("pw".to_string()));
}
