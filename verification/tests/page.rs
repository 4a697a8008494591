use video_transcript::error::TranscriptError;
use video_transcript::http::{HttpRequest, Method, USER_AGENT};
use video_transcript::page::{
    check_page_status, find_api_key, page_request, read_page, watch_address,
};
use video_transcript::text::chars_of;

fn key_in(page: &str) -> Option<String> {
    find_api_key(&chars_of(page))
}

#[test]
fn watch_address_appends_the_video() {
    assert_eq!(watch_address("dQw4w9WgXcQ"), "https://www.youtube.com/watch?v=dQw4w9WgXcQ");
    assert_eq!(watch_address(""), "https://www.youtube.com/watch?v=");
}

#[test]
fn page_request_is_a_plain_get() {
    let r: HttpRequest = page_request("abc123");
    assert_eq!(r.method, Method::Get);
    assert_eq!(r.url, "https://www.youtube.com/watch?v=abc123");
    assert_eq!(r.headers.len(), 2);
    assert_eq!(r.headers[0].name, "user-agent");
    assert_eq!(r.headers[0].value, USER_AGENT);
    assert_eq!(r.headers[1].name, "accept-language");
    assert_eq!(r.headers[1].value, "en");
    assert!(r.query.is_none());
}

#[test]
fn page_status_outside_success_is_a_load_error() {
    assert_eq!(check_page_status(200), Ok(()));
    assert_eq!(check_page_status(204), Ok(()));
    assert_eq!(check_page_status(299), Ok(()));
    assert_eq!(check_page_status(199), Err(TranscriptError::PageLoadError { status: 199 }));
    assert_eq!(check_page_status(300), Err(TranscriptError::PageLoadError { status: 300 }));
    assert_eq!(check_page_status(404), Err(TranscriptError::PageLoadError { status: 404 }));
    assert_eq!(
        check_page_status(404).unwrap_err().message(),
        "Failed to load video page (HTTP 404). The video may be unavailable."
    );
}

#[test]
fn plain_key_is_found() {
    let page = "<script>var cfg = {\"INNERTUBE_API_KEY\":\"AIzaSy_plain-1\",\"X\":1};</script>";
    assert_eq!(key_in(page), Some("AIzaSy_plain-1".to_string()));
    assert_eq!(read_page(page), Ok("AIzaSy_plain-1".to_string()));
}

#[test]
fn escaped_key_is_found() {
    let page = "ytcfg.set(\"{\\\"INNERTUBE_API_KEY\\\":\\\"AIza_escaped\\\",\\\"Y\\\":2}\")";
    assert_eq!(key_in(page), Some("AIza_escaped".to_string()));
    assert_eq!(read_page(page), Ok("AIza_escaped".to_string()));
}

#[test]
fn plain_key_wins_over_an_earlier_escaped_one() {
    let page = "\\\"INNERTUBE_API_KEY\\\":\\\"first\\\" and \"INNERTUBE_API_KEY\":\"second\"";
    assert_eq!(key_in(page), Some("second".to_string()));
}

#[test]
fn leftmost_key_of_a_form_is_taken() {
    let page = "\"INNERTUBE_API_KEY\":\"one\" \"INNERTUBE_API_KEY\":\"two\"";
    assert_eq!(key_in(page), Some("one".to_string()));
}

#[test]
fn empty_key_is_no_key() {
    assert_eq!(key_in("\"INNERTUBE_API_KEY\":\"\""), None);
    assert_eq!(key_in("\"INNERTUBE_API_KEY\":\"\" \"INNERTUBE_API_KEY\":\"k\""), Some("k".to_string()));
    assert_eq!(key_in("INNERTUBE_API_KEY\\\":\\\"\\\""), None);
}

#[test]
fn unfinished_key_is_no_key() {
    assert_eq!(key_in("\"INNERTUBE_API_KEY\":\"abc"), None);
    assert_eq!(key_in("INNERTUBE_API_KEY\\\":\\\"abc"), None);
    assert_eq!(key_in("INNERTUBE_API_KEY\\\":\\\"abc\""), None);
    assert_eq!(key_in("INNERTUBE_API_KEY\\\":\\\"abc\\n"), None);
    assert_eq!(key_in(""), None);
}

#[test]
fn page_without_key_is_credential_not_found() {
    let r = read_page("<html><body>nothing here</body></html>");
    assert_eq!(r, Err(TranscriptError::CredentialNotFound));
    assert_eq!(
        r.unwrap_err().message(),
        "Could not extract YouTube API key. The video may not have transcripts available."
    );
}

#[test]
fn challenge_comes_before_the_key() {
    let page = "\"INNERTUBE_API_KEY\":\"k\" <div class=\"g-recaptcha\"></div>";
    let r = read_page(page);
    assert_eq!(r, Err(TranscriptError::CaptchaRequired));
    assert_eq!(r.unwrap_err().message(), "YouTube is requesting a CAPTCHA. Please try again later.");
    assert_eq!(read_page("<div class='g-recaptcha'>"), Err(TranscriptError::CredentialNotFound));
}
