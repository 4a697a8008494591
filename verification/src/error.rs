//! The failures of a retrieval, one variant for each, and the message that
//! each one is reported with.

use vstd::prelude::*;
use vstd::string::StringExecFns;

verus! {

/// Why a retrieval ended without a transcript.
#[derive(Clone, Debug, PartialEq, Eq)]
pub enum TranscriptError {
    /// The transport failed, or a body could not be read. The message is
    /// reported as it stands.
    NetworkError { message: String },
    /// The watch page was answered with a status outside 200..=299.
    PageLoadError { status: u16 },
    /// The watch page holds a bot challenge.
    CaptchaRequired,
    /// The watch page holds no API key in either of its two forms.
    CredentialNotFound,
    /// The metadata endpoint refused the last persona that was tried.
    MetadataFetchError { status: u16 },
    /// The video is playable but lists no caption track.
    TranscriptsDisabled,
    /// No track list was found and the video is not reported playable.
    TranscriptUnavailable,
    /// The chosen track names no address to fetch it from.
    TrackAddressMissing,
    /// The transcript endpoint answered 429.
    RateLimited,
    /// The transcript endpoint answered with another status outside 200..=299.
    TranscriptFetchError { status: u16 },
    /// The transcript body holds no caption line.
    EmptyTranscript,
}

/// A failure as a mathematical value.
pub enum ErrorView {
    NetworkError { message: Seq<char> },
    PageLoadError { status: u16 },
    CaptchaRequired,
    CredentialNotFound,
    MetadataFetchError { status: u16 },
    TranscriptsDisabled,
    TranscriptUnavailable,
    TrackAddressMissing,
    RateLimited,
    TranscriptFetchError { status: u16 },
    EmptyTranscript,
}

impl View for TranscriptError {
    type V = ErrorView;

    open spec fn view(&self) -> ErrorView {
        match self {
            TranscriptError::NetworkError { message } => ErrorView::NetworkError {
                message: message@,
            },
            TranscriptError::PageLoadError { status } => ErrorView::PageLoadError {
                status: *status,
            },
            TranscriptError::CaptchaRequired => ErrorView::CaptchaRequired,
            TranscriptError::CredentialNotFound => ErrorView::CredentialNotFound,
            TranscriptError::MetadataFetchError { status } => ErrorView::MetadataFetchError {
                status: *status,
            },
            TranscriptError::TranscriptsDisabled => ErrorView::TranscriptsDisabled,
            TranscriptError::TranscriptUnavailable => ErrorView::TranscriptUnavailable,
            TranscriptError::TrackAddressMissing => ErrorView::TrackAddressMissing,
            TranscriptError::RateLimited => ErrorView::RateLimited,
            TranscriptError::TranscriptFetchError { status } => ErrorView::TranscriptFetchError {
                status: *status,
            },
            TranscriptError::EmptyTranscript => ErrorView::EmptyTranscript,
        }
    }
}

/// The character of a decimal digit.
pub open spec fn digit_char(d: int) -> char {
    if d == 0 {
        '0'
    } else if d == 1 {
        '1'
    } else if d == 2 {
        '2'
    } else if d == 3 {
        '3'
    } else if d == 4 {
        '4'
    } else if d == 5 {
        '5'
    } else if d == 6 {
        '6'
    } else if d == 7 {
        '7'
    } else if d == 8 {
        '8'
    } else {
        '9'
    }
}

/// `n` written in decimal digits, without leading zeros.
pub open spec fn decimal(n: nat) -> Seq<char>
    decreases n,
{
    if n < 10 {
        seq![digit_char(n as int)]
    } else {
        decimal(n / 10).push(digit_char((n % 10) as int))
    }
}

impl ErrorView {
    /// The message that the failure is reported with.
    pub open spec fn message(self) -> Seq<char> {
        match self {
            ErrorView::NetworkError { message } => message,
            ErrorView::PageLoadError { status } => "Failed to load video page (HTTP "@ + decimal(
                status as nat,
            ) + "). The video may be unavailable."@,
            ErrorView::CaptchaRequired => "YouTube is requesting a CAPTCHA. Please try again later."@,
            ErrorView::CredentialNotFound => "Could not extract YouTube API key. The video may not have transcripts available."@,
            ErrorView::MetadataFetchError { status } => "Failed to fetch video metadata (HTTP "@
                + decimal(status as nat) + "). The video may be unavailable."@,
            ErrorView::TranscriptsDisabled => "Transcripts are disabled for this video."@,
            ErrorView::TranscriptUnavailable => "No transcript available for this video."@,
            ErrorView::TrackAddressMissing => "No transcript URL found for this video."@,
            ErrorView::RateLimited => "Too many requests. Please try again later."@,
            ErrorView::TranscriptFetchError { status } => "Failed to fetch transcript (HTTP "@
                + decimal(status as nat) + ")."@,
            ErrorView::EmptyTranscript => "Transcript was empty. The video may not have captions available."@,
        }
    }
}

fn digit(d: u16) -> (c: char)
    requires
        d < 10,
    ensures
        c == digit_char(d as int),
{
    if d == 0 {
        '0'
    } else if d == 1 {
        '1'
    } else if d == 2 {
        '2'
    } else if d == 3 {
        '3'
    } else if d == 4 {
        '4'
    } else if d == 5 {
        '5'
    } else if d == 6 {
        '6'
    } else if d == 7 {
        '7'
    } else if d == 8 {
        '8'
    } else {
        '9'
    }
}

/// Appends `n` in decimal digits to `out`.
pub fn push_decimal(out: &mut String, n: u16)
    ensures
        final(out)@ == old(out)@ + decimal(n as nat),
    decreases n,
{
    if n >= 10 {
        push_decimal(out, n / 10);
    }
    out.push(digit(n % 10));
    assert(final(out)@ =~= old(out)@ + decimal(n as nat));
}

/// `head`, then `status` in decimal digits, then `tail`.
fn with_status(head: &str, status: u16, tail: &str) -> (m: String)
    ensures
        m@ == head@ + decimal(status as nat) + tail@,
{
    let mut m = String::from_str(head);
    push_decimal(&mut m, status);
    m.append(tail);
    m
}

/// The steps at which the transport can fail.
#[derive(Clone, Copy, Debug, PartialEq, Eq, Structural)]
pub enum Step {
    /// Setting up the client that sends the requests.
    ClientSetup,
    /// Sending the request for the watch page.
    PageRequest,
    /// Reading the body of the watch page.
    PageBody,
    /// Sending the metadata request of the primary persona.
    MetadataRequest,
    /// Sending the metadata request of the fallback persona.
    MetadataFallbackRequest,
    /// Reading the metadata response as a document.
    MetadataBody,
    /// Sending the request for the transcript.
    TranscriptRequest,
    /// Reading the body of the transcript.
    TranscriptBody,
}

impl Step {
    /// What the message of a failure at this step begins with.
    pub open spec fn prefix(self) -> Seq<char> {
        match self {
            Step::ClientSetup => "Failed to build HTTP client: "@,
            Step::PageRequest => "Failed to load video page: "@,
            Step::PageBody => "Failed to read video page body: "@,
            Step::MetadataRequest => "Failed to fetch video metadata: "@,
            Step::MetadataFallbackRequest => "Failed to fetch video metadata (WEB fallback): "@,
            Step::MetadataBody => "Failed to parse player response: "@,
            Step::TranscriptRequest => "Failed to fetch transcript: "@,
            Step::TranscriptBody => "Failed to read transcript body: "@,
        }
    }
}

/// The failure of the transport at `step`, which the transport describes
/// as `detail`: a `NetworkError` whose message names the step and then
/// gives the description as it is.
pub fn network_error(step: Step, detail: &str) -> (e: TranscriptError)
    ensures
        e@ == (ErrorView::NetworkError { message: step.prefix() + detail@ }),
{
    let head = match step {
        Step::ClientSetup => "Failed to build HTTP client: ",
        Step::PageRequest => "Failed to load video page: ",
        Step::PageBody => "Failed to read video page body: ",
        Step::MetadataRequest => "Failed to fetch video metadata: ",
        Step::MetadataFallbackRequest => "Failed to fetch video metadata (WEB fallback): ",
        Step::MetadataBody => "Failed to parse player response: ",
        Step::TranscriptRequest => "Failed to fetch transcript: ",
        Step::TranscriptBody => "Failed to read transcript body: ",
    };
    TranscriptError::NetworkError { message: String::from_str(head).concat(detail) }
}

impl TranscriptError {
    /// The message that the failure is reported with.
    pub fn message(&self) -> (m: String)
        ensures
            m@ == self@.message(),
    {
        match self {
            TranscriptError::NetworkError { message } => message.clone(),
            TranscriptError::PageLoadError { status } => with_status(
                "Failed to load video page (HTTP ",
                *status,
                "). The video may be unavailable.",
            ),
            TranscriptError::CaptchaRequired => String::from_str(
                "YouTube is requesting a CAPTCHA. Please try again later.",
            ),
            TranscriptError::CredentialNotFound => String::from_str(
                "Could not extract YouTube API key. The video may not have transcripts available.",
            ),
            TranscriptError::MetadataFetchError { status } => with_status(
                "Failed to fetch video metadata (HTTP ",
                *status,
                "). The video may be unavailable.",
            ),
            TranscriptError::TranscriptsDisabled => String::from_str(
                "Transcripts are disabled for this video.",
            ),
            TranscriptError::TranscriptUnavailable => String::from_str(
                "No transcript available for this video.",
            ),
            TranscriptError::TrackAddressMissing => String::from_str(
                "No transcript URL found for this video.",
            ),
            TranscriptError::RateLimited => String::from_str(
                "Too many requests. Please try again later.",
            ),
            TranscriptError::TranscriptFetchError { status } => with_status(
                "Failed to fetch transcript (HTTP ",
                *status,
                ").",
            ),
            TranscriptError::EmptyTranscript => String::from_str(
                "Transcript was empty. The video may not have captions available.",
            ),
        }
    }
}

} // verus!
