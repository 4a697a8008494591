//! Requests as plain data. The library says what is to be sent; sending it is
//! left to the caller, who hands back the status and the body.

use vstd::prelude::*;
use vstd::string::StringExecFns;

verus! {

/// The browser that every request names itself as.
pub const USER_AGENT: &'static str =
    "Mozilla/5.0 (Macintosh; Intel Mac OS X 10_15_7) AppleWebKit/537.36 (KHTML, like Gecko) Chrome/131.0.0.0 Safari/537.36";

/// The method of a request.
#[derive(Clone, Copy, Debug, PartialEq, Eq, Structural)]
pub enum Method {
    Get,
    Post,
}

/// One header line.
#[derive(Clone, Debug, PartialEq, Eq)]
pub struct Header {
    pub name: String,
    pub value: String,
}

/// One header line as a mathematical value.
pub struct HeaderView {
    pub name: Seq<char>,
    pub value: Seq<char>,
}

impl View for Header {
    type V = HeaderView;

    open spec fn view(&self) -> HeaderView {
        HeaderView { name: self.name@, value: self.value@ }
    }
}

/// The views of a list of headers, in order.
pub open spec fn header_views(headers: Seq<Header>) -> Seq<HeaderView> {
    Seq::new(headers.len(), |i: int| headers[i]@)
}

/// The view of an optional string.
pub open spec fn text_view(text: Option<String>) -> Option<Seq<char>> {
    match text {
        Some(t) => Some(t@),
        None => None,
    }
}

/// What the metadata endpoint is asked: a client identity and a video.
#[derive(Clone, Debug, PartialEq, Eq)]
pub struct PlayerQuery {
    pub client_name: String,
    pub client_version: String,
    /// The interface language (`hl`), where the persona names one.
    pub language: Option<String>,
    /// The region (`gl`), where the persona names one.
    pub region: Option<String>,
    pub video_id: String,
}

/// A query as a mathematical value.
pub struct PlayerQueryView {
    pub client_name: Seq<char>,
    pub client_version: Seq<char>,
    pub language: Option<Seq<char>>,
    pub region: Option<Seq<char>>,
    pub video_id: Seq<char>,
}

impl View for PlayerQuery {
    type V = PlayerQueryView;

    open spec fn view(&self) -> PlayerQueryView {
        PlayerQueryView {
            client_name: self.client_name@,
            client_version: self.client_version@,
            language: text_view(self.language),
            region: text_view(self.region),
            video_id: self.video_id@,
        }
    }
}

/// A request to be sent.
#[derive(Clone, Debug, PartialEq, Eq)]
pub struct HttpRequest {
    pub method: Method,
    pub url: String,
    pub headers: Vec<Header>,
    /// The body, for a request to the metadata endpoint.
    pub query: Option<PlayerQuery>,
}

/// A request as a mathematical value.
pub struct HttpRequestView {
    pub method: Method,
    pub url: Seq<char>,
    pub headers: Seq<HeaderView>,
    pub query: Option<PlayerQueryView>,
}

impl View for HttpRequest {
    type V = HttpRequestView;

    open spec fn view(&self) -> HttpRequestView {
        HttpRequestView {
            method: self.method,
            url: self.url@,
            headers: header_views(self.headers@),
            query: match self.query {
                Some(q) => Some(q@),
                None => None,
            },
        }
    }
}

/// Whether a status reports success: 200 to 299.
pub open spec fn succeeded(status: u16) -> bool {
    200 <= status < 300
}

/// Whether a status reports success: 200 to 299.
pub fn is_success(status: u16) -> (b: bool)
    ensures
        b == succeeded(status),
{
    200 <= status && status < 300
}

/// The two headers that every request carries: the browser's name and a
/// preference for English.
pub open spec fn base_headers() -> Seq<HeaderView> {
    seq![
        HeaderView { name: "user-agent"@, value: USER_AGENT@ },
        HeaderView { name: "accept-language"@, value: "en"@ },
    ]
}

impl Header {
    /// The header `name: value`.
    pub fn new(name: &str, value: &str) -> (h: Header)
        ensures
            h@ == (HeaderView { name: name@, value: value@ }),
    {
        Header { name: String::from_str(name), value: String::from_str(value) }
    }
}

/// The two headers that every request carries.
pub fn base_header_list() -> (v: Vec<Header>)
    ensures
        header_views(v@) == base_headers(),
{
    let mut v: Vec<Header> = Vec::new();
    v.push(Header::new("user-agent", USER_AGENT));
    v.push(Header::new("accept-language", "en"));
    assert(header_views(v@) =~= base_headers());
    v
}

/// A `GET` of `url` with the two base headers and no body.
pub open spec fn plain_get(url: Seq<char>) -> HttpRequestView {
    HttpRequestView { method: Method::Get, url, headers: base_headers(), query: None }
}

/// A `GET` of `url` with the two base headers and no body.
pub fn get_request(url: String) -> (r: HttpRequest)
    ensures
        r@ == plain_get(url@),
{
    HttpRequest { method: Method::Get, url, headers: base_header_list(), query: None }
}

} // verus!
