use video_transcript::error::{Step, TranscriptError};
use video_transcript::http::{is_success, Header, Method, USER_AGENT};
use video_transcript::metadata::{
    after_metadata_status, metadata_request, persona_request, ClientPersona, MetadataStep, Persona,
};

fn pair(h: &Header) -> (&str, &str) {
    (h.name.as_str(), h.value.as_str())
}

#[test]
fn success_is_200_to_299() {
    assert!(!is_success(0));
    assert!(!is_success(199));
    assert!(is_success(200));
    assert!(is_success(250));
    assert!(is_success(299));
    assert!(!is_success(300));
    assert!(!is_success(429));
    assert!(!is_success(65535));
}

#[test]
fn primary_persona_is_the_mobile_client() {
    let c = Persona::Primary.client("vid");
    assert_eq!(c.name, "ANDROID");
    assert_eq!(c.version, "20.10.38");
    assert_eq!(c.language, None);
    assert_eq!(c.region, None);
    assert!(c.headers.is_empty());
    assert_eq!(Persona::Primary.next(), Some(Persona::Fallback));
    assert_eq!(Persona::Primary.request_step(), Step::MetadataRequest);
}

#[test]
fn fallback_persona_is_the_web_client() {
    let c = Persona::Fallback.client("vid");
    assert_eq!(c.name, "WEB");
    assert_eq!(c.version, "2.20250122.01.00");
    assert_eq!(c.language, Some("en".to_string()));
    assert_eq!(c.region, Some("US".to_string()));
    let headers: Vec<(&str, &str)> = c.headers.iter().map(pair).collect();
    assert_eq!(
        headers,
        vec![
            ("X-Youtube-Client-Name", "1"),
            ("X-Youtube-Client-Version", "2.20250122.01.00"),
            ("Origin", "https://www.youtube.com"),
            ("Referer", "https://www.youtube.com/watch?v=vid"),
        ]
    );
    assert_eq!(Persona::Fallback.next(), None);
    assert_eq!(Persona::Fallback.request_step(), Step::MetadataFallbackRequest);
}

#[test]
fn primary_request_posts_the_mobile_client() {
    let r = persona_request("vid42", "KEY", Persona::Primary);
    assert_eq!(r.method, Method::Post);
    assert_eq!(r.url, "https://www.youtube.com/youtubei/v1/player?key=KEY");
    let headers: Vec<(&str, &str)> = r.headers.iter().map(pair).collect();
    assert_eq!(
        headers,
        vec![
            ("user-agent", USER_AGENT),
            ("accept-language", "en"),
            ("content-type", "application/json"),
        ]
    );
    let q = r.query.unwrap();
    assert_eq!(q.client_name, "ANDROID");
    assert_eq!(q.client_version, "20.10.38");
    assert_eq!(q.language, None);
    assert_eq!(q.region, None);
    assert_eq!(q.video_id, "vid42");
}

#[test]
fn fallback_request_adds_its_headers() {
    let r = persona_request("vid42", "KEY", Persona::Fallback);
    assert_eq!(r.method, Method::Post);
    assert_eq!(r.url, "https://www.youtube.com/youtubei/v1/player?key=KEY");
    let headers: Vec<(&str, &str)> = r.headers.iter().map(pair).collect();
    assert_eq!(
        headers,
        vec![
            ("user-agent", USER_AGENT),
            ("accept-language", "en"),
            ("content-type", "application/json"),
            ("X-Youtube-Client-Name", "1"),
            ("X-Youtube-Client-Version", "2.20250122.01.00"),
            ("Origin", "https://www.youtube.com"),
            ("Referer", "https://www.youtube.com/watch?v=vid42"),
        ]
    );
    let q = r.query.unwrap();
    assert_eq!(q.client_name, "WEB");
    assert_eq!(q.client_version, "2.20250122.01.00");
    assert_eq!(q.language, Some("en".to_string()));
    assert_eq!(q.region, Some("US".to_string()));
    assert_eq!(q.video_id, "vid42");
}

#[test]
fn request_is_built_from_any_persona() {
    let persona = ClientPersona {
        name: "TV".to_string(),
        version: "7".to_string(),
        language: Some("de".to_string()),
        region: None,
        headers: vec![Header::new("X-Test", "yes")],
    };
    let r = metadata_request("v", "k", persona);
    assert_eq!(r.url, "https://www.youtube.com/youtubei/v1/player?key=k");
    assert_eq!(r.headers.len(), 4);
    assert_eq!(pair(&r.headers[3]), ("X-Test", "yes"));
    let q = r.query.unwrap();
    assert_eq!(q.client_name, "TV");
    assert_eq!(q.client_version, "7");
    assert_eq!(q.language, Some("de".to_string()));
    assert_eq!(q.region, None);
    assert_eq!(q.video_id, "v");
}

#[test]
fn refused_primary_leads_to_the_fallback() {
    assert_eq!(after_metadata_status(Persona::Primary, 200), MetadataStep::ReadBody);
    assert_eq!(after_metadata_status(Persona::Primary, 400), MetadataStep::Retry(Persona::Fallback));
    assert_eq!(after_metadata_status(Persona::Primary, 403), MetadataStep::Retry(Persona::Fallback));
    assert_eq!(after_metadata_status(Persona::Primary, 500), MetadataStep::Retry(Persona::Fallback));
}

#[test]
fn refused_fallback_ends_with_its_own_status() {
    assert_eq!(after_metadata_status(Persona::Fallback, 200), MetadataStep::ReadBody);
    assert_eq!(
        after_metadata_status(Persona::Fallback, 403),
        MetadataStep::Fail(TranscriptError::MetadataFetchError { status: 403 })
    );
    let step = after_metadata_status(Persona::Fallback, 502);
    assert_eq!(step, MetadataStep::Fail(TranscriptError::MetadataFetchError { status: 502 }));
    if let MetadataStep::Fail(e) = step {
        assert_eq!(e.message(), "Failed to fetch video metadata (HTTP 502). The video may be unavailable.");
    }
}
