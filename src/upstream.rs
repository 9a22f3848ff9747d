//! The requests sent to the upstream, and what its answers become.
use vstd::prelude::*;

verus! {

/// The upstream host; every request goes to a path under it.
pub const BASE_URL: &'static str = "https://ifsc.results.info";

/// Path of the priming request that signals a browser session.
pub const SIGNAL_PATH: &'static str = "/appsignal";

/// Path of the priming request that opens the application's entry point.
pub const ENTRY_PATH: &'static str = "/entrypoint";

/// Prefix under which the caller's path is appended.
pub const API_PREFIX: &'static str = "/api/";

/// Header that carries the session token.
pub const TOKEN_HEADER: &'static str = "X-Csrf-Token";

/// Content type assumed where the upstream's answer names none.
pub const DEFAULT_CONTENT_TYPE: &'static str = "application/json";

/// One request header.
pub struct Header {
    pub name: String,
    pub value: String,
}

impl View for Header {
    type V = (Seq<char>, Seq<char>);

    open spec fn view(&self) -> (Seq<char>, Seq<char>) {
        (self.name@, self.value@)
    }
}

/// A retrieval request to send upstream.
pub struct UpstreamRequest {
    pub url: String,
    pub headers: Vec<Header>,
}

/// What an upstream request is: its address and its headers, in order.
pub struct RequestView {
    pub url: Seq<char>,
    pub headers: Seq<(Seq<char>, Seq<char>)>,
}

impl View for UpstreamRequest {
    type V = RequestView;

    open spec fn view(&self) -> RequestView {
        RequestView { url: self.url@, headers: self.headers@.map_values(|h: Header| h@) }
    }
}

/// An answer from the upstream, as far as the relay reads it.
pub struct UpstreamReply {
    pub status: u16,
    pub content_type: Option<String>,
    pub body: String,
}

pub struct ReplyView {
    pub status: u16,
    pub content_type: Option<Seq<char>>,
    pub body: Seq<char>,
}

impl View for UpstreamReply {
    type V = ReplyView;

    open spec fn view(&self) -> ReplyView {
        ReplyView {
            status: self.status,
            content_type: match self.content_type {
                Some(c) => Some(c@),
                None => None,
            },
            body: self.body@,
        }
    }
}

/// The response handed back to the caller.
#[derive(Debug)]
pub struct RelayResponse {
    pub status: u16,
    pub content_type: String,
    pub body: String,
}

pub struct ResponseView {
    pub status: u16,
    pub content_type: Seq<char>,
    pub body: Seq<char>,
}

impl View for RelayResponse {
    type V = ResponseView;

    open spec fn view(&self) -> ResponseView {
        ResponseView { status: self.status, content_type: self.content_type@, body: self.body@ }
    }
}

/// The headers of every request made inside the session: the token, a JSON
/// accept type, the upstream's own page as referer, and the markers of a
/// same-origin fetch.
pub open spec fn session_headers(token: Seq<char>) -> Seq<(Seq<char>, Seq<char>)> {
    seq![
        (TOKEN_HEADER@, token),
        ("Accept"@, "application/json"@),
        ("Referer"@, "https://ifsc.results.info/"@),
        ("Sec-Fetch-Site"@, "same-origin"@),
        ("Sec-Fetch-Mode"@, "cors"@),
    ]
}

/// The request for the landing page: the bare upstream address, no headers.
pub open spec fn landing_spec() -> RequestView {
    RequestView { url: BASE_URL@, headers: Seq::empty() }
}

/// The first priming request.
pub open spec fn signal_spec(token: Seq<char>) -> RequestView {
    RequestView { url: BASE_URL@ + SIGNAL_PATH@, headers: session_headers(token) }
}

/// The second priming request.
pub open spec fn entry_spec(token: Seq<char>) -> RequestView {
    RequestView { url: BASE_URL@ + ENTRY_PATH@, headers: session_headers(token) }
}

/// The caller's own request: the path is appended as it came, unchanged.
pub open spec fn api_spec(token: Seq<char>, path: Seq<char>) -> RequestView {
    RequestView { url: BASE_URL@ + API_PREFIX@ + path, headers: session_headers(token) }
}

/// What the caller gets from the upstream's answer: status and body as they
/// came, the content type as named or else the default.
pub open spec fn response_of(r: ReplyView) -> ResponseView {
    ResponseView {
        status: r.status,
        content_type: match r.content_type {
            Some(c) => c,
            None => DEFAULT_CONTENT_TYPE@,
        },
        body: r.body,
    }
}

fn header(name: &str, value: &str) -> (h: Header)
    ensures
        h@ == (name@, value@),
{
    Header { name: name.to_owned(), value: value.to_owned() }
}

/// The session headers carrying `token`.
pub fn session_header_list(token: &str) -> (r: Vec<Header>)
    ensures
        r@.map_values(|h: Header| h@) == session_headers(token@),
{
    let mut r: Vec<Header> = Vec::new();
    r.push(header(TOKEN_HEADER, token));
    r.push(header("Accept", "application/json"));
    r.push(header("Referer", "https://ifsc.results.info/"));
    r.push(header("Sec-Fetch-Site", "same-origin"));
    r.push(header("Sec-Fetch-Mode", "cors"));
    assert(r@.map_values(|h: Header| h@) =~= session_headers(token@));
    r
}

fn join(a: &str, b: &str) -> (r: String)
    ensures
        r@ == a@ + b@,
{
    let mut r = a.to_owned();
    r.append(b);
    r
}

/// The request for the landing page, the page that carries the session token.
pub fn landing_request() -> (r: UpstreamRequest)
    ensures
        r@ == landing_spec(),
{
    let r = UpstreamRequest { url: BASE_URL.to_owned(), headers: Vec::new() };
    assert(r@.headers =~= Seq::empty());
    r
}

/// The first priming request, signalling a browser session.
pub fn signal_request(token: &str) -> (r: UpstreamRequest)
    ensures
        r@ == signal_spec(token@),
{
    UpstreamRequest { url: join(BASE_URL, SIGNAL_PATH), headers: session_header_list(token) }
}

/// The second priming request, opening the application's entry point.
pub fn entry_request(token: &str) -> (r: UpstreamRequest)
    ensures
        r@ == entry_spec(token@),
{
    UpstreamRequest { url: join(BASE_URL, ENTRY_PATH), headers: session_header_list(token) }
}

/// The caller's request for `path` under the upstream's API, inside the
/// session of `token`. The path is appended verbatim: no encoding, no validation.
pub fn api_request(token: &str, path: &str) -> (r: UpstreamRequest)
    ensures
        r@ == api_spec(token@, path@),
{
    let mut url = join(BASE_URL, API_PREFIX);
    url.append(path);
    UpstreamRequest { url, headers: session_header_list(token) }
}

/// The caller's response to the upstream's answer `reply`, whatever its
/// status: status and body pass through, a missing content type becomes
/// `application/json`.
pub fn relay_response(reply: UpstreamReply) -> (r: RelayResponse)
    ensures
        r@ == response_of(reply@),
{
    let content_type = match reply.content_type {
        Some(c) => c,
        None => DEFAULT_CONTENT_TYPE.to_owned(),
    };
    RelayResponse { status: reply.status, content_type, body: reply.body }
}

} // verus!
