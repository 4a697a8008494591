//! Decisions of a transcript retrieval pipeline, verified with Verus.
//!
//! A transcript is retrieved in three stages: the watch page of the video
//! yields an API key, the metadata endpoint yields a caption track, and the
//! track's address yields the transcript. This library holds what is decided
//! along the way, as functions from plain values to plain values: which
//! request is sent next, what a body is read into, and which failure ends
//! the retrieval. Sending a request and receiving its reply is the caller's
//! part; see [`retrieval`].

pub mod entities;
pub mod error;
pub mod field;
pub mod http;
pub mod json;
pub mod lines;
pub mod metadata;
pub mod page;
pub mod retrieval;
pub mod segments;
pub mod text;
pub mod tracks;

pub use entities::decode_xml_entities;
pub use error::{network_error, Step, TranscriptError};
pub use http::{Header, HttpRequest, Method, PlayerQuery};
pub use json::Json;
pub use metadata::Persona;
pub use retrieval::{
    after_metadata, after_page, after_transcript, begin, MetadataOutcome, MetadataStage, Reply,
    TranscriptStage,
};
pub use segments::TranscriptSegment;
pub use tracks::CaptionTrack;
