//! Addresses of the viewer's live stream connection.
use vstd::prelude::*;
use vstd::string::*;
use crate::text::{replace_all, replace_all_str};

verus! {

/// The stream address for an API address: `http://` becomes `ws://`, `https://` becomes
/// `wss://` (every occurrence, in that order), then `/api/v1/stream` is appended.
pub open spec fn spec_stream_url(api_url: Seq<char>) -> Seq<char> {
    replace_all(replace_all(api_url, "http://"@, "ws://"@), "https://"@, "wss://"@)
        + "/api/v1/stream"@
}

/// Client of the live stream.
#[derive(Debug, Clone)]
pub struct WebSocketClient {
    pub url: String,
    pub auth_token: Option<String>,
}

impl WebSocketClient {
    /// A client for the stream of the API at `api_url`.
    pub fn new(api_url: &str, auth_token: Option<String>) -> (c: WebSocketClient)
        ensures
            c.url@ == spec_stream_url(api_url@),
            c.auth_token == auth_token,
    {
        proof {
            reveal_strlit("http://");
            reveal_strlit("https://");
        }
        let http = replace_all_str(api_url, "http://", "ws://");
        let ws_url = replace_all_str(http.as_str(), "https://", "wss://");
        let mut url = ws_url;
        url.append("/api/v1/stream");
        WebSocketClient { url, auth_token }
    }

    /// The address to connect to: the stream address, with `?token={token}` when a token
    /// is configured.
    pub fn connect_url(&self) -> (u: String)
        ensures
            u@ == (match self.auth_token {
                Some(t) => self.url@ + "?token="@ + t@,
                None => self.url@,
            }),
    {
        let mut u = self.url.clone();
        match &self.auth_token {
            Some(t) => {
                u.append("?token=");
                u.append(t.as_str());
            },
            None => {},
        }
        u
    }
}

/// Why a stream address gives no connection headers.
#[derive(Debug, Clone, Copy, PartialEq, Eq, Structural)]
pub enum UriProblem {
    /// The address is no URI.
    Invalid,
    /// The URI has no authority (host and port).
    MissingHost,
    /// The URI has no scheme.
    MissingScheme,
}

impl UriProblem {
    /// The error text the viewer reports for the problem.
    pub fn message(&self) -> (s: &'static str)
        ensures
            s@ == (match self {
                UriProblem::Invalid => "Failed to parse WebSocket URL"@,
                UriProblem::MissingHost => "WebSocket URL missing host"@,
                UriProblem::MissingScheme => "WebSocket URL missing scheme"@,
            }),
    {
        match self {
            UriProblem::Invalid => "Failed to parse WebSocket URL",
            UriProblem::MissingHost => "WebSocket URL missing host",
            UriProblem::MissingScheme => "WebSocket URL missing scheme",
        }
    }
}

/// The authority and the scheme of an address as the `http` crate's URI parser reads
/// them, or why it gives none.
pub uninterp spec fn uri_parts(url: Seq<char>) -> Result<(Seq<char>, Seq<char>), UriProblem>;

/// Parses `url` with `http::Uri`'s `FromStr` (through `tokio-tungstenite`'s re-export) and
/// takes the URI's authority (`Uri::authority`, as text) and scheme (`Uri::scheme_str`).
/// Claimed: the outcome is the named result `uri_parts` of the address; a parse error is
/// `Invalid`, a URI without authority `MissingHost`, one without scheme `MissingScheme`,
/// checked in that order. What the parser accepts is left unsaid.
#[verifier::external_body]
fn parse_uri_parts(url: &str) -> (r: Result<(String, String), UriProblem>)
    ensures
        match r {
            Ok((h, s)) => uri_parts(url@) == Ok::<(Seq<char>, Seq<char>), UriProblem>((h@, s@)),
            Err(p) => uri_parts(url@) == Err::<(Seq<char>, Seq<char>), UriProblem>(p),
        },
{
    match url.parse::<tokio_tungstenite::tungstenite::http::Uri>() {
        Err(_) => Err(UriProblem::Invalid),
        Ok(uri) => match uri.authority() {
            None => Err(UriProblem::MissingHost),
            Some(authority) => match uri.scheme_str() {
                None => Err(UriProblem::MissingScheme),
                Some(scheme) => Ok((authority.as_str().to_string(), scheme.to_string())),
            },
        },
    }
}

/// The `Host` and `Origin` headers of a connection to `url`: the URI's authority, and
/// `{https|http}://{authority}` after its scheme (`https` for `wss`), or why the address
/// gives none.
pub fn connection_headers(url: &str) -> (r: Result<(String, String), UriProblem>)
    ensures
        match uri_parts(url@) {
            Ok((h, s)) => r matches Ok((host, o)) && host@ == h && o@ == (if s == "wss"@ {
                "https"@
            } else {
                "http"@
            }) + "://"@ + h,
            Err(p) => r == Err::<(String, String), UriProblem>(p),
        },
{
    headers_from_parts(parse_uri_parts(url))
}

/// The `Host` and `Origin` headers from an address's authority and scheme (`Ok((host,
/// scheme))`): the authority, and `{https|http}://{authority}`; a problem is passed on.
pub fn headers_from_parts(parts: Result<(String, String), UriProblem>) -> (r: Result<
    (String, String),
    UriProblem,
>)
    ensures
        match parts {
            Ok((h, s)) => r matches Ok((host, o)) && host@ == h@ && o@ == (if s@ == "wss"@ {
                "https"@
            } else {
                "http"@
            }) + "://"@ + h@,
            Err(p) => r == Err::<(String, String), UriProblem>(p),
        },
{
    match parts {
        Err(p) => Err(p),
        Ok((host, scheme)) => {
            let o = origin(scheme.as_str(), host.as_str());
            Ok((host, o))
        },
    }
}

/// The scheme of the `Origin` header for a stream scheme: `https` for `wss`, `http`
/// otherwise.
pub fn origin_scheme(scheme: &str) -> (s: &'static str)
    ensures
        s@ == (if scheme@ == "wss"@ {
            "https"@
        } else {
            "http"@
        }),
{
    let given = String::from_str(scheme);
    let wss = String::from_str("wss");
    if given == wss {
        "https"
    } else {
        "http"
    }
}

/// The `Origin` header value `{scheme}://{host}`.
pub fn origin(scheme: &str, host: &str) -> (o: String)
    ensures
        o@ == (if scheme@ == "wss"@ {
            "https"@
        } else {
            "http"@
        }) + "://"@ + host@,
{
    let mut o = String::from_str(origin_scheme(scheme));
    o.append("://");
    o.append(host);
    o
}

} // verus!
