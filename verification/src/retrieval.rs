//! The retrieval as a whole: three stages, each a decision on what came
//! back from the network.
//!
//! The library sends nothing. It hands out the request of a stage, the
//! caller sends it and hands back a [`Reply`], and the stage says what
//! follows: the next request, the transcript, or the failure that ends the
//! retrieval. A status is judged before a body is looked at, so the body of
//! a refused request never matters.

use vstd::prelude::*;
use vstd::string::StringExecFns;
use crate::error::{network_error, ErrorView, Step, TranscriptError};
use crate::http::{plain_get, succeeded, HttpRequest, HttpRequestView};
use crate::json::Json;
use crate::metadata::{
    after_metadata_status, metadata_request_of, metadata_step, persona_request, MetadataStep,
    MetadataStepView, Persona,
};
use crate::page::{check_page_status, page_outcome, page_request, read_page, watch_url};
use crate::segments::{
    check_transcript_status, read_transcript, segment_views, transcript_outcome,
    transcript_request, transcript_status, without_format, SegmentView, TranscriptSegment,
};
use crate::tracks::{choose_track, chosen_track, CaptionTrackView};

verus! {

/// What came back for a request. `B` is the form in which the body is
/// handed over: text, or a JSON document.
#[derive(Debug, PartialEq, Eq)]
pub enum Reply<B> {
    /// The request could not be sent, or no response came. `detail` is the
    /// transport's description of what happened.
    Unsent { detail: String },
    /// A response came. Its body was read, or could not be read, which the
    /// transport describes.
    Answered { status: u16, body: Result<B, String> },
}

/// The metadata stage: the video, the key, and the persona whose request is
/// under way.
#[derive(Clone, Debug, PartialEq, Eq)]
pub struct MetadataStage {
    pub video_id: String,
    pub api_key: String,
    pub persona: Persona,
}

/// The metadata stage as a mathematical value.
pub struct MetadataStageView {
    pub video_id: Seq<char>,
    pub api_key: Seq<char>,
    pub persona: Persona,
}

impl View for MetadataStage {
    type V = MetadataStageView;

    open spec fn view(&self) -> MetadataStageView {
        MetadataStageView {
            video_id: self.video_id@,
            api_key: self.api_key@,
            persona: self.persona,
        }
    }
}

impl MetadataStageView {
    /// The request that is under way in this stage.
    pub open spec fn request(self) -> HttpRequestView {
        metadata_request_of(self.video_id, self.api_key, self.persona.data(self.video_id))
    }
}

/// The transcript stage: the language of the track that is being fetched.
#[derive(Clone, Debug, PartialEq, Eq)]
pub struct TranscriptStage {
    pub lang: String,
}

/// The first request of a retrieval: the watch page of the video.
pub fn begin(video_id: &str) -> (r: HttpRequest)
    ensures
        r@ == plain_get(watch_url(video_id@)),
{
    page_request(video_id)
}

/// The failure, if any, that a reply amounts to before its body is looked
/// at: the transport's own, or a refusing status.
pub open spec fn page_failure(reply: Reply<String>) -> Option<ErrorView> {
    match reply {
        Reply::Unsent { detail } => Some(
            ErrorView::NetworkError { message: Step::PageRequest.prefix() + detail@ },
        ),
        Reply::Answered { status, body } => if !succeeded(status) {
            Some(ErrorView::PageLoadError { status })
        } else {
            match body {
                Err(detail) => Some(
                    ErrorView::NetworkError { message: Step::PageBody.prefix() + detail@ },
                ),
                Ok(_) => None,
            }
        },
    }
}

/// What follows from the reply to the page request: the API key that the
/// metadata stage begins with, or the failure that ends the retrieval.
pub open spec fn page_verdict(reply: Reply<String>) -> Result<Seq<char>, ErrorView> {
    match page_failure(reply) {
        Some(e) => Err(e),
        None => page_outcome(reply->body->Ok_0@),
    }
}

/// Decides what follows from the reply to the page request. Where the page
/// yields a key, the metadata stage begins with the primary persona, and its
/// request is handed out.
pub fn after_page(video_id: &str, reply: Reply<String>) -> (r: Result<
    (MetadataStage, HttpRequest),
    TranscriptError,
>)
    ensures
        match r {
            Ok((stage, request)) => {
                &&& page_verdict(reply) == Ok::<Seq<char>, ErrorView>(stage.api_key@)
                &&& stage.video_id@ == video_id@
                &&& stage.persona == Persona::Primary
                &&& request@ == stage@.request()
            },
            Err(e) => page_verdict(reply) == Err::<Seq<char>, ErrorView>(e@),
        },
{
    match reply {
        Reply::Unsent { detail } => Err(network_error(Step::PageRequest, detail.as_str())),
        Reply::Answered { status, body } => {
            match check_page_status(status) {
                Err(e) => Err(e),
                Ok(_) => match body {
                    Err(detail) => Err(network_error(Step::PageBody, detail.as_str())),
                    Ok(text) => match read_page(text.as_str()) {
                        Err(e) => Err(e),
                        Ok(api_key) => {
                            let request = persona_request(
                                video_id,
                                api_key.as_str(),
                                Persona::Primary,
                            );
                            let stage = MetadataStage {
                                video_id: String::from_str(video_id),
                                api_key,
                                persona: Persona::Primary,
                            };
                            Ok((stage, request))
                        },
                    },
                },
            }
        },
    }
}

/// What follows from a reply in the metadata stage.
#[derive(Clone, Debug, PartialEq, Eq)]
pub enum MetadataOutcome {
    /// The endpoint is asked again: the stage goes on with the next persona.
    Retry(MetadataStage, HttpRequest),
    /// A track was chosen: the transcript stage begins.
    Fetch(TranscriptStage, HttpRequest),
    /// The retrieval ends.
    Fail(TranscriptError),
}

/// What follows from a reply in the metadata stage, as a mathematical
/// value.
pub enum MetadataVerdict {
    Retry(Persona),
    Fetch(CaptionTrackView),
    Fail(ErrorView),
}

/// What follows from a reply to the request of `persona`. A reply that
/// never came ends the retrieval. A refusing status leads to the next
/// persona, or ends the retrieval where there is none. A body that is no
/// document ends it. Else the document decides: a track, or a failure.
pub open spec fn metadata_verdict(persona: Persona, reply: Reply<Json>) -> MetadataVerdict {
    match reply {
        Reply::Unsent { detail } => MetadataVerdict::Fail(
            ErrorView::NetworkError { message: persona.step().prefix() + detail@ },
        ),
        Reply::Answered { status, body } => match metadata_step(persona, status) {
            MetadataStepView::Retry(next) => MetadataVerdict::Retry(next),
            MetadataStepView::Fail(e) => MetadataVerdict::Fail(e),
            MetadataStepView::ReadBody => match body {
                Err(detail) => MetadataVerdict::Fail(
                    ErrorView::NetworkError { message: Step::MetadataBody.prefix() + detail@ },
                ),
                Ok(doc) => match chosen_track(doc) {
                    Ok(track) => MetadataVerdict::Fetch(track),
                    Err(e) => MetadataVerdict::Fail(e),
                },
            },
        },
    }
}

/// Decides what follows from a reply in the metadata stage.
pub fn after_metadata(stage: MetadataStage, reply: Reply<Json>) -> (r: MetadataOutcome)
    ensures
        match r {
            MetadataOutcome::Retry(next, request) => {
                &&& metadata_verdict(stage.persona, reply) == MetadataVerdict::Retry(next.persona)
                &&& next.video_id@ == stage.video_id@
                &&& next.api_key@ == stage.api_key@
                &&& request@ == next@.request()
            },
            MetadataOutcome::Fetch(next, request) => {
                &&& metadata_verdict(stage.persona, reply) is Fetch
                &&& metadata_verdict(stage.persona, reply)->Fetch_0.lang == next.lang@
                &&& request@ == plain_get(
                    without_format(metadata_verdict(stage.persona, reply)->Fetch_0.url),
                )
            },
            MetadataOutcome::Fail(e) => metadata_verdict(stage.persona, reply)
                == MetadataVerdict::Fail(e@),
        },
{
    let MetadataStage { video_id, api_key, persona } = stage;
    match reply {
        Reply::Unsent { detail } => MetadataOutcome::Fail(
            network_error(persona.request_step(), detail.as_str()),
        ),
        Reply::Answered { status, body } => match after_metadata_status(persona, status) {
            MetadataStep::Retry(next) => {
                let request = persona_request(video_id.as_str(), api_key.as_str(), next);
                MetadataOutcome::Retry(MetadataStage { video_id, api_key, persona: next }, request)
            },
            MetadataStep::Fail(e) => MetadataOutcome::Fail(e),
            MetadataStep::ReadBody => match body {
                Err(detail) => MetadataOutcome::Fail(
                    network_error(Step::MetadataBody, detail.as_str()),
                ),
                Ok(doc) => match choose_track(&doc) {
                    Err(e) => MetadataOutcome::Fail(e),
                    Ok(track) => {
                        let request = transcript_request(&track);
                        MetadataOutcome::Fetch(TranscriptStage { lang: track.lang }, request)
                    },
                },
            },
        },
    }
}

/// What follows from the reply to the transcript request: the segments of
/// the transcript, or the failure that ends the retrieval.
pub open spec fn transcript_verdict(lang: Seq<char>, reply: Reply<String>) -> Result<
    Seq<SegmentView>,
    ErrorView,
> {
    match reply {
        Reply::Unsent { detail } => Err(
            ErrorView::NetworkError { message: Step::TranscriptRequest.prefix() + detail@ },
        ),
        Reply::Answered { status, body } => match transcript_status(status) {
            Some(e) => Err(e),
            None => match body {
                Err(detail) => Err(
                    ErrorView::NetworkError { message: Step::TranscriptBody.prefix() + detail@ },
                ),
                Ok(text) => transcript_outcome(text@, lang),
            },
        },
    }
}

/// Decides what follows from the reply to the transcript request, which
/// ends the retrieval either way.
pub fn after_transcript(stage: TranscriptStage, reply: Reply<String>) -> (r: Result<
    Vec<TranscriptSegment>,
    TranscriptError,
>)
    ensures
        match r {
            Ok(segments) => transcript_verdict(stage.lang@, reply) == Ok::<
                Seq<SegmentView>,
                ErrorView,
            >(segment_views(segments@)),
            Err(e) => transcript_verdict(stage.lang@, reply) == Err::<Seq<SegmentView>, ErrorView>(
                e@,
            ),
        },
{
    match reply {
        Reply::Unsent { detail } => Err(network_error(Step::TranscriptRequest, detail.as_str())),
        Reply::Answered { status, body } => match check_transcript_status(status) {
            Err(e) => Err(e),
            Ok(_) => match body {
                Err(detail) => Err(network_error(Step::TranscriptBody, detail.as_str())),
                Ok(text) => read_transcript(text.as_str(), stage.lang.as_str()),
            },
        },
    }
}

/// In the metadata stage the endpoint is asked at most twice. A refused
/// primary persona leads to the fallback persona, whatever else the reply
/// holds; no reply to the fallback persona leads to another request; and a
/// refused fallback persona ends the retrieval with the status of its own
/// reply.
pub proof fn lemma_fallback_is_tried_once(
    first_status: u16,
    first_body: Result<Json, String>,
    second: Reply<Json>,
)
    requires
        !succeeded(first_status),
    ensures
        metadata_verdict(
            Persona::Primary,
            Reply::Answered { status: first_status, body: first_body },
        ) == MetadataVerdict::Retry(Persona::Fallback),
        !(metadata_verdict(Persona::Fallback, second) is Retry),
        match second {
            Reply::Answered { status, body } => !succeeded(status) ==> metadata_verdict(
                Persona::Fallback,
                second,
            ) == MetadataVerdict::Fail(ErrorView::MetadataFetchError { status }),
            Reply::Unsent { detail } => true,
        },
{
}

} // verus!
