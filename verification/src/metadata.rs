//! The metadata endpoint: the personas that it is asked as, the request of
//! each, and what follows from the status of a response.
//!
//! The endpoint is asked as the primary persona first. Where it answers
//! with a status outside 200..=299, it is asked once more, as the fallback
//! persona; the status of that second response is final.

use vstd::prelude::*;
use vstd::string::StringExecFns;
use crate::error::{ErrorView, Step, TranscriptError};
use crate::http::{
    base_header_list, base_headers, header_views, is_success, succeeded, text_view, Header,
    HeaderView, HttpRequest, HttpRequestView, Method, PlayerQuery, PlayerQueryView,
};
use crate::page::{watch_address, watch_url};

verus! {

/// The two identities under which the metadata endpoint is asked.
#[derive(Clone, Copy, Debug, PartialEq, Eq, Structural)]
pub enum Persona {
    /// The mobile client.
    Primary,
    /// The desktop web client.
    Fallback,
}

/// A persona as data: the client that it names and the headers that it
/// adds to a request.
#[derive(Clone, Debug, PartialEq, Eq)]
pub struct ClientPersona {
    pub name: String,
    pub version: String,
    pub language: Option<String>,
    pub region: Option<String>,
    pub headers: Vec<Header>,
}

/// A persona's data as a mathematical value.
pub struct ClientPersonaView {
    pub name: Seq<char>,
    pub version: Seq<char>,
    pub language: Option<Seq<char>>,
    pub region: Option<Seq<char>>,
    pub headers: Seq<HeaderView>,
}

impl View for ClientPersona {
    type V = ClientPersonaView;

    open spec fn view(&self) -> ClientPersonaView {
        ClientPersonaView {
            name: self.name@,
            version: self.version@,
            language: text_view(self.language),
            region: text_view(self.region),
            headers: header_views(self.headers@),
        }
    }
}

impl Persona {
    /// The persona that is tried after this one, if any is.
    pub open spec fn successor(self) -> Option<Persona> {
        match self {
            Persona::Primary => Some(Persona::Fallback),
            Persona::Fallback => None,
        }
    }

    /// The step at which the request of this persona is sent.
    pub open spec fn step(self) -> Step {
        match self {
            Persona::Primary => Step::MetadataRequest,
            Persona::Fallback => Step::MetadataFallbackRequest,
        }
    }

    /// The data of the persona, for a given video. The primary persona names
    /// the mobile client and adds no header. The fallback persona names the
    /// web client with a language and a region, and adds four headers: the
    /// client's number and version, the origin, and the watch page as the
    /// referer.
    pub open spec fn data(self, video_id: Seq<char>) -> ClientPersonaView {
        match self {
            Persona::Primary => ClientPersonaView {
                name: "ANDROID"@,
                version: "20.10.38"@,
                language: None,
                region: None,
                headers: Seq::empty(),
            },
            Persona::Fallback => ClientPersonaView {
                name: "WEB"@,
                version: "2.20250122.01.00"@,
                language: Some("en"@),
                region: Some("US"@),
                headers: seq![
                    HeaderView { name: "X-Youtube-Client-Name"@, value: "1"@ },
                    HeaderView { name: "X-Youtube-Client-Version"@, value: "2.20250122.01.00"@ },
                    HeaderView { name: "Origin"@, value: "https://www.youtube.com"@ },
                    HeaderView { name: "Referer"@, value: watch_url(video_id) },
                ],
            },
        }
    }

    /// The persona that is tried after this one, if any is.
    pub fn next(self) -> (r: Option<Persona>)
        ensures
            r == self.successor(),
    {
        match self {
            Persona::Primary => Some(Persona::Fallback),
            Persona::Fallback => None,
        }
    }

    /// The step at which the request of this persona is sent.
    pub fn request_step(self) -> (s: Step)
        ensures
            s == self.step(),
    {
        match self {
            Persona::Primary => Step::MetadataRequest,
            Persona::Fallback => Step::MetadataFallbackRequest,
        }
    }

    /// The data of the persona, for a given video.
    pub fn client(self, video_id: &str) -> (c: ClientPersona)
        ensures
            c@ == self.data(video_id@),
    {
        match self {
            Persona::Primary => {
                let c = ClientPersona {
                    name: String::from_str("ANDROID"),
                    version: String::from_str("20.10.38"),
                    language: None,
                    region: None,
                    headers: Vec::new(),
                };
                assert(c@.headers =~= Seq::empty());
                c
            },
            Persona::Fallback => {
                let mut headers: Vec<Header> = Vec::new();
                headers.push(Header::new("X-Youtube-Client-Name", "1"));
                headers.push(Header::new("X-Youtube-Client-Version", "2.20250122.01.00"));
                headers.push(Header::new("Origin", "https://www.youtube.com"));
                let referer = watch_address(video_id);
                headers.push(Header::new("Referer", referer.as_str()));
                let c = ClientPersona {
                    name: String::from_str("WEB"),
                    version: String::from_str("2.20250122.01.00"),
                    language: Some(String::from_str("en")),
                    region: Some(String::from_str("US")),
                    headers,
                };
                assert(c@.headers =~= self.data(video_id@).headers);
                c
            },
        }
    }
}

/// The address of the metadata endpoint for a given API key.
pub open spec fn player_url(api_key: Seq<char>) -> Seq<char> {
    "https://www.youtube.com/youtubei/v1/player?key="@ + api_key
}

/// The metadata request of a persona: a `POST` to the endpoint, with the
/// two base headers, the JSON content type and then the persona's own
/// headers, and with the persona's client and the video as its body.
pub open spec fn metadata_request_of(
    video_id: Seq<char>,
    api_key: Seq<char>,
    persona: ClientPersonaView,
) -> HttpRequestView {
    HttpRequestView {
        method: Method::Post,
        url: player_url(api_key),
        headers: base_headers() + seq![
            HeaderView { name: "content-type"@, value: "application/json"@ },
        ] + persona.headers,
        query: Some(
            PlayerQueryView {
                client_name: persona.name,
                client_version: persona.version,
                language: persona.language,
                region: persona.region,
                video_id,
            },
        ),
    }
}

/// The metadata request of a persona.
pub fn metadata_request(video_id: &str, api_key: &str, persona: ClientPersona) -> (r: HttpRequest)
    ensures
        r@ == metadata_request_of(video_id@, api_key@, persona@),
{
    let ghost extra = persona@.headers;
    let ClientPersona { name, version, language, region, headers: mut own } = persona;
    let mut headers = base_header_list();
    headers.push(Header::new("content-type", "application/json"));
    headers.append(&mut own);
    let r = HttpRequest {
        method: Method::Post,
        url: String::from_str("https://www.youtube.com/youtubei/v1/player?key=").concat(api_key),
        headers,
        query: Some(
            PlayerQuery {
                client_name: name,
                client_version: version,
                language,
                region,
                video_id: String::from_str(video_id),
            },
        ),
    };
    assert(r@.headers =~= base_headers() + seq![
        HeaderView { name: "content-type"@, value: "application/json"@ },
    ] + extra);
    r
}

/// The request with which a persona asks for the metadata of a video.
pub fn persona_request(video_id: &str, api_key: &str, persona: Persona) -> (r: HttpRequest)
    ensures
        r@ == metadata_request_of(video_id@, api_key@, persona.data(video_id@)),
{
    metadata_request(video_id, api_key, persona.client(video_id))
}

/// What follows from the status of a metadata response.
#[derive(Clone, Debug, PartialEq, Eq)]
pub enum MetadataStep {
    /// The response stands: its body is read next.
    ReadBody,
    /// The endpoint is asked again, as the persona named.
    Retry(Persona),
    /// The retrieval ends.
    Fail(TranscriptError),
}

/// What follows, as a mathematical value.
pub enum MetadataStepView {
    ReadBody,
    Retry(Persona),
    Fail(ErrorView),
}

impl View for MetadataStep {
    type V = MetadataStepView;

    open spec fn view(&self) -> MetadataStepView {
        match self {
            MetadataStep::ReadBody => MetadataStepView::ReadBody,
            MetadataStep::Retry(p) => MetadataStepView::Retry(*p),
            MetadataStep::Fail(e) => MetadataStepView::Fail(e@),
        }
    }
}

/// What follows from `status`, which answered the request of `persona`: a
/// success stands; a failure leads to the next persona where there is one,
/// and ends the retrieval with this status where there is none.
pub open spec fn metadata_step(persona: Persona, status: u16) -> MetadataStepView {
    if succeeded(status) {
        MetadataStepView::ReadBody
    } else {
        match persona.successor() {
            Some(next) => MetadataStepView::Retry(next),
            None => MetadataStepView::Fail(ErrorView::MetadataFetchError { status }),
        }
    }
}

/// Decides what follows from `status`, which answered the request of
/// `persona`.
pub fn after_metadata_status(persona: Persona, status: u16) -> (step: MetadataStep)
    ensures
        step@ == metadata_step(persona, status),
{
    if is_success(status) {
        MetadataStep::ReadBody
    } else {
        match persona.next() {
            Some(next) => MetadataStep::Retry(next),
            None => MetadataStep::Fail(TranscriptError::MetadataFetchError { status }),
        }
    }
}

/// A primary request that is refused leads to exactly one more request,
/// that of the fallback persona with its four headers; no status of the
/// fallback's response leads to a third; and where the fallback is refused
/// too, the retrieval ends with the status of the fallback's response.
pub proof fn lemma_one_fallback(
    video_id: Seq<char>,
    api_key: Seq<char>,
    primary_status: u16,
    fallback_status: u16,
)
    requires
        !succeeded(primary_status),
    ensures
        metadata_step(Persona::Primary, primary_status) == MetadataStepView::Retry(
            Persona::Fallback,
        ),
        metadata_request_of(video_id, api_key, Persona::Fallback.data(video_id)).headers
            == base_headers() + seq![
            HeaderView { name: "content-type"@, value: "application/json"@ },
            HeaderView { name: "X-Youtube-Client-Name"@, value: "1"@ },
            HeaderView { name: "X-Youtube-Client-Version"@, value: "2.20250122.01.00"@ },
            HeaderView { name: "Origin"@, value: "https://www.youtube.com"@ },
            HeaderView { name: "Referer"@, value: watch_url(video_id) },
        ],
        !(metadata_step(Persona::Fallback, fallback_status) is Retry),
        !succeeded(fallback_status) ==> metadata_step(Persona::Fallback, fallback_status)
            == MetadataStepView::Fail(ErrorView::MetadataFetchError { status: fallback_status }),
{
    assert(metadata_request_of(video_id, api_key, Persona::Fallback.data(video_id)).headers
        =~= base_headers() + seq![
        HeaderView { name: "content-type"@, value: "application/json"@ },
        HeaderView { name: "X-Youtube-Client-Name"@, value: "1"@ },
        HeaderView { name: "X-Youtube-Client-Version"@, value: "2.20250122.01.00"@ },
        HeaderView { name: "Origin"@, value: "https://www.youtube.com"@ },
        HeaderView { name: "Referer"@, value: watch_url(video_id) },
    ]);
}

} // verus!
