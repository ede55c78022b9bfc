use vstd::prelude::*;
use vstd::string::StringExecFns;

use crate::error::Error;
use crate::session::Session;

verus! {

/// What `application/x-www-form-urlencoded` serialization makes of a text.
pub uninterp spec fn form_encoded(s: Seq<char>) -> Seq<char>;

/// Whether a text parses as an HTTP request URI.
pub uninterp spec fn uri_accepts(s: Seq<char>) -> bool;

/// The ASCII serialization of the origin (scheme, host and port) of a URL, or
/// `None` where the text is no URL.
pub uninterp spec fn origin_of(s: Seq<char>) -> Option<Seq<char>>;

/// The characters that form serialization leaves as they are.
pub open spec fn is_unreserved(c: char) -> bool {
    ||| c == '*'
    ||| c == '-'
    ||| c == '.'
    ||| c == '_'
    ||| ('0' <= c && c <= '9')
    ||| ('A' <= c && c <= 'Z')
    ||| ('a' <= c && c <= 'z')
}

/// Relies on `url::form_urlencoded::byte_serialize`: it percent-encodes the
/// UTF-8 bytes of a text, and copies bytes of the unreserved set unchanged.
#[verifier::external_body]
fn form_encode(s: &str) -> (r: String)
    ensures
        r@ == form_encoded(s@),
        (forall|i: int| 0 <= i < s@.len() ==> is_unreserved(#[trigger] s@[i])) ==> r@ == s@,
{
    url::form_urlencoded::byte_serialize(s.as_bytes()).collect()
}

/// Relies on `hyper::Uri`'s `FromStr`: whether the text is a valid request URI.
#[verifier::external_body]
fn parses_as_uri(s: &str) -> (r: bool)
    ensures
        r == uri_accepts(s@),
{
    s.parse::<hyper::Uri>().is_ok()
}

/// Relies on `url::Url::parse` and `url::Origin::ascii_serialization`: the
/// origin of the URL that the text holds.
#[verifier::external_body]
pub(crate) fn parse_origin(s: &str) -> (r: Option<String>)
    ensures
        match r {
            Some(o) => origin_of(s@) == Some(o@),
            None => origin_of(s@) is None,
        },
{
    url::Url::parse(s).ok().map(|u| u.origin().ascii_serialization())
}

/// The text held by an optional string.
pub open spec fn opt_view(s: Option<String>) -> Option<Seq<char>> {
    match s {
        Some(t) => Some(t@),
        None => None,
    }
}

/// The name of the query parameter that carries the access token.
pub open spec fn token_key() -> Seq<char> {
    seq!['a', 'c', 'c', 'e', 's', 's', '_', 't', 'o', 'k', 'e', 'n']
}

/// The query pair that carries an access token.
pub open spec fn token_pair(token: Seq<char>) -> Seq<char> {
    token_key() + seq!['='] + form_encoded(token)
}

/// A query with one more pair appended, separated by `&` where the query
/// already holds something.
pub open spec fn appended_query(query: Option<Seq<char>>, pair: Seq<char>) -> Seq<char> {
    match query {
        Some(q) => if q.len() > 0 {
            q + seq!['&'] + pair
        } else {
            pair
        },
        None => pair,
    }
}

/// The query of a resolved URL: the request's own query, with the token pair
/// appended where a token is injected.
pub open spec fn resolved_query(query: Option<Seq<char>>, token: Option<Seq<char>>) -> Option<
    Seq<char>,
> {
    match token {
        Some(t) => Some(appended_query(query, token_pair(t))),
        None => query,
    }
}

/// The origin followed by the path and, where there is one, `?` and the query.
pub open spec fn compose_url(origin: Seq<char>, path: Seq<char>, query: Option<Seq<char>>) -> Seq<
    char,
> {
    match query {
        Some(q) => origin + path + seq!['?'] + q,
        None => origin + path,
    }
}

/// The fully resolved URL of a request.
pub open spec fn resolved_url(
    origin: Seq<char>,
    path: Seq<char>,
    query: Option<Seq<char>>,
    token: Option<Seq<char>>,
) -> Seq<char> {
    compose_url(origin, path, resolved_query(query, token))
}

/// The access token to inject: that of the session where the endpoint requires
/// authentication, none otherwise.
pub open spec fn injected_token(requires_authentication: bool, session: Option<Session>) -> Option<
    Seq<char>,
> {
    if requires_authentication && session is Some {
        Some(session->Some_0.access_token@)
    } else {
        None
    }
}

/// What resolving a request gives: the error or the URL.
pub open spec fn resolution_ok(
    r: Result<String, Error>,
    origin: Seq<char>,
    path: Seq<char>,
    query: Option<Seq<char>>,
    requires_authentication: bool,
    session: Option<Session>,
) -> bool {
    if requires_authentication && session is None {
        r matches Err(Error::AuthenticationRequired)
    } else {
        let url = resolved_url(origin, path, query, injected_token(requires_authentication, session));
        if uri_accepts(url) {
            r matches Ok(u) && u@ == url
        } else {
            r matches Err(Error::UrlConstruction)
        }
    }
}

/// The parts of a transport-level request that an endpoint produced from a
/// typed request: method, path and query (both already percent-encoded), and
/// body.
#[derive(Debug)]
pub struct HttpRequest {
    /// The HTTP method, such as `GET` or `POST`.
    pub method: String,
    /// The path, starting with `/`.
    pub path: String,
    /// The query, without the leading `?`.
    pub query: Option<String>,
    /// The body.
    pub body: Vec<u8>,
}

/// Static facts about an endpoint that dispatch needs.
#[derive(Debug, Clone, Copy, PartialEq, Eq)]
pub struct Metadata {
    /// Whether the endpoint must be called with an access token.
    pub requires_authentication: bool,
}

/// Appends the token pair to a query.
fn append_token(query: &Option<String>, token: &str) -> (r: String)
    ensures
        r@ == appended_query(opt_view(*query), token_pair(token@)),
{
    let key = form_encode("access_token");
    proof {
        reveal_strlit("access_token");
        assert forall|i: int| 0 <= i < "access_token"@.len() implies is_unreserved(
            #[trigger] "access_token"@[i],
        ) by {}
        assert(key@ =~= token_key());
    }
    let value = form_encode(token);
    let mut r = String::new();
    match query {
        Some(q) => {
            if !q.as_str().is_empty() {
                r.append(q.as_str());
                r.append("&");
            }
        },
        None => {},
    }
    r.append(key.as_str());
    r.append("=");
    r.append(value.as_str());
    proof {
        reveal_strlit("&");
        reveal_strlit("=");
        assert("&"@ =~= seq!['&']);
        assert("="@ =~= seq!['=']);
        match query {
            Some(q) => {
                if q@.len() > 0 {
                    assert(r@ =~= q@ + seq!['&'] + token_pair(token@));
                } else {
                    assert(r@ =~= token_pair(token@));
                }
            },
            None => {
                assert(r@ =~= token_pair(token@));
            },
        }
    }
    r
}

/// Resolves the URL of a request against a homeserver origin.
///
/// Where the endpoint requires authentication and no session is given, this
/// fails with `AuthenticationRequired` before anything else happens. Otherwise
/// the URL is the origin, the request's path and its query, with
/// `access_token=<token>` appended where the endpoint requires authentication;
/// a result that does not parse as a request URI is a `UrlConstruction` error.
pub fn resolve_url(
    origin: &str,
    request: &HttpRequest,
    metadata: Metadata,
    session: &Option<Session>,
) -> (r: Result<String, Error>)
    ensures
        resolution_ok(
            r,
            origin@,
            request.path@,
            opt_view(request.query),
            metadata.requires_authentication,
            *session,
        ),
{
    let query: Option<String> = if metadata.requires_authentication {
        match session {
            Some(s) => Some(append_token(&request.query, s.access_token.as_str())),
            None => {
                return Err(Error::AuthenticationRequired);
            },
        }
    } else {
        match &request.query {
            Some(q) => Some(q.clone()),
            None => None,
        }
    };
    let mut url = String::from_str(origin);
    url.append(request.path.as_str());
    match &query {
        Some(q) => {
            url.append("?");
            url.append(q.as_str());
        },
        None => {},
    }
    proof {
        reveal_strlit("?");
        let q_spec = opt_view(request.query);
        let expected = resolved_url(
            origin@,
            request.path@,
            q_spec,
            injected_token(metadata.requires_authentication, *session),
        );
        match query {
            Some(q) => {
                assert(url@ =~= origin@ + request.path@ + seq!['?'] + q@);
            },
            None => {
                assert(url@ =~= origin@ + request.path@);
            },
        }
        assert(url@ =~= expected);
    }
    if parses_as_uri(url.as_str()) {
        Ok(url)
    } else {
        Err(Error::UrlConstruction)
    }
}

/// With a session at hand, a call to an endpoint that requires authentication
/// never fails for want of one, and where its URL resolves, the URL's query
/// ends with `access_token=` and the session's token, form-encoded, appended
/// after whatever query the request had.
pub proof fn lemma_token_injected(
    r: Result<String, Error>,
    origin: Seq<char>,
    path: Seq<char>,
    query: Option<Seq<char>>,
    session: Session,
)
    requires
        resolution_ok(r, origin, path, query, true, Some(session)),
    ensures
        !(r matches Err(Error::AuthenticationRequired)),
        r matches Ok(u) ==> {
            let pair = token_pair(session.access_token@);
            &&& u@ == compose_url(origin, path, Some(appended_query(query, pair)))
            &&& u@.len() >= pair.len()
            &&& u@.subrange(u@.len() - pair.len(), u@.len() as int) == pair
        },
{
    let pair = token_pair(session.access_token@);
    let q = appended_query(query, pair);
    let url = compose_url(origin, path, Some(q));
    assert(url == origin + path + seq!['?'] + q);
    match query {
        Some(q0) => {
            if q0.len() > 0 {
                assert(url =~= (origin + path + seq!['?'] + q0 + seq!['&']) + pair);
            } else {
                assert(url =~= (origin + path + seq!['?']) + pair);
            }
        },
        None => {
            assert(url =~= (origin + path + seq!['?']) + pair);
        },
    }
    assert(url.subrange(url.len() - pair.len(), url.len() as int) =~= pair);
}

/// A call to an endpoint that does not require authentication resolves to the
/// origin, the path and the request's own query, with no token added, whatever
/// the session store holds.
pub proof fn lemma_no_token_without_authentication(
    r: Result<String, Error>,
    origin: Seq<char>,
    path: Seq<char>,
    query: Option<Seq<char>>,
    session: Option<Session>,
)
    requires
        resolution_ok(r, origin, path, query, false, session),
    ensures
        injected_token(false, session) is None,
        resolution_ok(r, origin, path, query, false, None),
        r matches Ok(u) ==> u@ == compose_url(origin, path, query),
{
}

} // verus!
