//! The watch page: the request for it, and what is read from its body.
//!
//! The body is searched for the API key of the metadata endpoint, which the
//! page holds in one of two forms: as a member of a JSON object,
//! `"INNERTUBE_API_KEY":"..."`, or inside a JSON string, where every quote
//! is preceded by a backslash. The plain form is looked for first.

use vstd::prelude::*;
use vstd::string::StringExecFns;
use crate::error::{ErrorView, TranscriptError};
use crate::field::{captured, Field, FieldView};
use crate::http::{get_request, is_success, plain_get, succeeded, HttpRequest};
use crate::text::{chars_of, contains_text, occurs_in};

verus! {

/// The address of the watch page of a video.
pub open spec fn watch_url(video_id: Seq<char>) -> Seq<char> {
    "https://www.youtube.com/watch?v="@ + video_id
}

/// The address of the watch page of a video.
pub fn watch_address(video_id: &str) -> (url: String)
    ensures
        url@ == watch_url(video_id@),
{
    String::from_str("https://www.youtube.com/watch?v=").concat(video_id)
}

/// The request for the watch page of a video.
pub fn page_request(video_id: &str) -> (r: HttpRequest)
    ensures
        r@ == plain_get(watch_url(video_id@)),
{
    get_request(watch_address(video_id))
}

/// Whether the watch page was delivered: any status outside 200..=299 ends
/// the retrieval with `PageLoadError`.
pub fn check_page_status(status: u16) -> (r: Result<(), TranscriptError>)
    ensures
        match r {
            Ok(_) => succeeded(status),
            Err(e) => !succeeded(status) && e@ == (ErrorView::PageLoadError { status }),
        },
{
    if is_success(status) {
        Ok(())
    } else {
        Err(TranscriptError::PageLoadError { status })
    }
}

/// The text that marks a page as a bot challenge.
pub open spec fn challenge_marker() -> Seq<char> {
    "class=\"g-recaptcha\""@
}

/// The key as a member of a JSON object: `"INNERTUBE_API_KEY":"`, one or
/// more characters other than a quote, and a quote.
pub open spec fn plain_key_field() -> FieldView {
    FieldView { open: "\"INNERTUBE_API_KEY\":\""@, stops: "\""@, close: "\""@, least: 1 }
}

/// The key inside a JSON string: `INNERTUBE_API_KEY\":\"`, one or more
/// characters other than a backslash and a quote, and `\"`.
pub open spec fn escaped_key_field() -> FieldView {
    FieldView {
        open: "INNERTUBE_API_KEY\\\":\\\""@,
        stops: "\\\""@,
        close: "\\\""@,
        least: 1,
    }
}

/// The API key that a page holds: what the leftmost plain form captures,
/// or, where the page holds no plain form, what the leftmost escaped form
/// captures.
pub open spec fn api_key_in(page: Seq<char>) -> Option<Seq<char>> {
    let plain = plain_key_field().first(page, 0);
    if plain is Some {
        captured(page, plain)
    } else {
        captured(page, escaped_key_field().first(page, 0))
    }
}

/// What reading a page body comes to: a challenge ends the retrieval, then
/// a missing key does, else the key is handed on.
pub open spec fn page_outcome(body: Seq<char>) -> Result<Seq<char>, ErrorView> {
    if occurs_in(body, challenge_marker()) {
        Err(ErrorView::CaptchaRequired)
    } else {
        match api_key_in(body) {
            Some(key) => Ok(key),
            None => Err(ErrorView::CredentialNotFound),
        }
    }
}

/// The API key that a page holds, if it holds one.
pub fn find_api_key(page: &Vec<char>) -> (r: Option<String>)
    ensures
        match r {
            Some(key) => api_key_in(page@) == Some(key@),
            None => api_key_in(page@) is None,
        },
{
    let plain = Field::new("\"INNERTUBE_API_KEY\":\"", "\"", "\"", 1);
    match plain.capture_first(page, 0) {
        Some(key) => Some(key),
        None => {
            let escaped = Field::new("INNERTUBE_API_KEY\\\":\\\"", "\\\"", "\\\"", 1);
            escaped.capture_first(page, 0)
        },
    }
}

/// Reads the body of the watch page: `CaptchaRequired` where it holds the
/// challenge marker, else the API key, else `CredentialNotFound`.
pub fn read_page(body: &str) -> (r: Result<String, TranscriptError>)
    ensures
        match r {
            Ok(key) => page_outcome(body@) == Ok::<Seq<char>, ErrorView>(key@),
            Err(e) => page_outcome(body@) == Err::<Seq<char>, ErrorView>(e@),
        },
{
    let page = chars_of(body);
    let marker = chars_of("class=\"g-recaptcha\"");
    if contains_text(&page, &marker) {
        return Err(TranscriptError::CaptchaRequired);
    }
    match find_api_key(&page) {
        Some(key) => Ok(key),
        None => Err(TranscriptError::CredentialNotFound),
    }
}

} // verus!
