use video_transcript::{
    after_metadata, after_page, after_transcript, begin, Json, MetadataOutcome, MetadataStage,
    Method, Persona, Reply, TranscriptError, TranscriptSegment, TranscriptStage,
};

fn text(s: &str) -> Json {
    Json::Text(s.to_string())
}

fn record(members: Vec<(&str, Json)>) -> Json {
    Json::Record(members.into_iter().map(|(k, v)| (k.to_string(), v)).collect())
}

fn document(langs: &[&str]) -> Json {
    let tracks = langs
        .iter()
        .map(|l| record(vec![("baseUrl", text(&format!("https://t.test/tt?lang={}&fmt=srv3", l))), ("languageCode", text(l))]))
        .collect();
    record(vec![(
        "captions",
        record(vec![("playerCaptionsTracklistRenderer", record(vec![("captionTracks", Json::List(tracks))]))]),
    )])
}

fn stage(persona: Persona) -> MetadataStage {
    MetadataStage { video_id: "vid".to_string(), api_key: "KEY".to_string(), persona }
}

fn answered<B>(status: u16, body: B) -> Reply<B> {
    Reply::Answered { status, body: Ok(body) }
}

fn unsent<B>(detail: &str) -> Reply<B> {
    Reply::Unsent { detail: detail.to_string() }
}

#[test]
fn retrieval_begins_with_the_watch_page() {
    let r = begin("vid");
    assert_eq!(r.method, Method::Get);
    assert_eq!(r.url, "https://www.youtube.com/watch?v=vid");
}

#[test]
fn whole_retrieval_runs_through_three_stages() {
    let page = "... \"INNERTUBE_API_KEY\":\"KEY\" ...".to_string();
    let (stage, request) = after_page("vid", answered(200, page)).unwrap();
    assert_eq!(stage, MetadataStage { video_id: "vid".to_string(), api_key: "KEY".to_string(), persona: Persona::Primary });
    assert_eq!(request.method, Method::Post);
    assert_eq!(request.url, "https://www.youtube.com/youtubei/v1/player?key=KEY");
    assert_eq!(request.query.as_ref().unwrap().client_name, "ANDROID");
    assert_eq!(request.query.as_ref().unwrap().video_id, "vid");

    let (stage, request) = match after_metadata(stage, answered(200, document(&["fr", "en"]))) {
        MetadataOutcome::Fetch(stage, request) => (stage, request),
        other => panic!("unexpected outcome: {:?}", other),
    };
    assert_eq!(stage, TranscriptStage { lang: "en".to_string() });
    assert_eq!(request.method, Method::Get);
    assert_eq!(request.url, "https://t.test/tt?lang=en");

    let body = "<text start=\"1\" dur=\"2\">a &lt; b</text>".to_string();
    let segments = after_transcript(stage, answered(200, body)).unwrap();
    assert_eq!(
        segments,
        vec![TranscriptSegment {
            text: "a < b".to_string(),
            duration: "2".to_string(),
            offset: "1".to_string(),
            lang: "en".to_string(),
        }]
    );
}

#[test]
fn page_stage_reports_each_failure() {
    assert_eq!(
        after_page("v", unsent("dns error")),
        Err(TranscriptError::NetworkError { message: "Failed to load video page: dns error".to_string() })
    );
    assert_eq!(
        after_page("v", answered(404, "\"INNERTUBE_API_KEY\":\"K\"".to_string())),
        Err(TranscriptError::PageLoadError { status: 404 })
    );
    assert_eq!(
        after_page("v", Reply::Answered { status: 500, body: Err("reset".to_string()) }),
        Err(TranscriptError::PageLoadError { status: 500 })
    );
    assert_eq!(
        after_page("v", Reply::Answered { status: 200, body: Err("reset".to_string()) }),
        Err(TranscriptError::NetworkError { message: "Failed to read video page body: reset".to_string() })
    );
    assert_eq!(
        after_page("v", answered(200, "class=\"g-recaptcha\"".to_string())),
        Err(TranscriptError::CaptchaRequired)
    );
    assert_eq!(after_page("v", answered(200, "<html>".to_string())), Err(TranscriptError::CredentialNotFound));
}

#[test]
fn refused_primary_triggers_exactly_one_fallback() {
    let first = after_metadata(stage(Persona::Primary), answered(403, Json::Null));
    let (next, request) = match first {
        MetadataOutcome::Retry(next, request) => (next, request),
        other => panic!("unexpected outcome: {:?}", other),
    };
    assert_eq!(next, stage(Persona::Fallback));
    assert_eq!(request.url, "https://www.youtube.com/youtubei/v1/player?key=KEY");
    assert_eq!(request.query.as_ref().unwrap().client_name, "WEB");
    let names: Vec<&str> = request.headers.iter().map(|h| h.name.as_str()).collect();
    assert_eq!(
        names,
        vec![
            "user-agent",
            "accept-language",
            "content-type",
            "X-Youtube-Client-Name",
            "X-Youtube-Client-Version",
            "Origin",
            "Referer",
        ]
    );
    assert_eq!(request.headers[6].value, "https://www.youtube.com/watch?v=vid");

    let second = after_metadata(next, answered(429, document(&["en"])));
    assert_eq!(second, MetadataOutcome::Fail(TranscriptError::MetadataFetchError { status: 429 }));
}

#[test]
fn refused_primary_is_retried_whatever_its_body() {
    let r = after_metadata(stage(Persona::Primary), Reply::Answered { status: 500, body: Err("x".to_string()) });
    assert!(matches!(r, MetadataOutcome::Retry(_, _)));
    let r = after_metadata(stage(Persona::Primary), answered(400, document(&["en"])));
    assert!(matches!(r, MetadataOutcome::Retry(_, _)));
}

#[test]
fn accepted_fallback_goes_on_to_the_transcript() {
    let r = after_metadata(stage(Persona::Fallback), answered(200, document(&["de"])));
    match r {
        MetadataOutcome::Fetch(stage, request) => {
            assert_eq!(stage.lang, "de");
            assert_eq!(request.url, "https://t.test/tt?lang=de");
        },
        other => panic!("unexpected outcome: {:?}", other),
    }
}

#[test]
fn metadata_stage_reports_each_failure() {
    assert_eq!(
        after_metadata(stage(Persona::Primary), unsent("timeout")),
        MetadataOutcome::Fail(TranscriptError::NetworkError { message: "Failed to fetch video metadata: timeout".to_string() })
    );
    assert_eq!(
        after_metadata(stage(Persona::Fallback), unsent("timeout")),
        MetadataOutcome::Fail(TranscriptError::NetworkError {
            message: "Failed to fetch video metadata (WEB fallback): timeout".to_string()
        })
    );
    assert_eq!(
        after_metadata(stage(Persona::Primary), Reply::Answered { status: 200, body: Err("expected value".to_string()) }),
        MetadataOutcome::Fail(TranscriptError::NetworkError {
            message: "Failed to parse player response: expected value".to_string()
        })
    );
    assert_eq!(
        after_metadata(stage(Persona::Primary), answered(200, document(&[]))),
        MetadataOutcome::Fail(TranscriptError::TranscriptsDisabled)
    );
    assert_eq!(
        after_metadata(stage(Persona::Primary), answered(200, record(vec![]))),
        MetadataOutcome::Fail(TranscriptError::TranscriptUnavailable)
    );
}

#[test]
fn transcript_stage_reports_each_failure() {
    let stage = || TranscriptStage { lang: "en".to_string() };
    assert_eq!(
        after_transcript(stage(), unsent("closed")),
        Err(TranscriptError::NetworkError { message: "Failed to fetch transcript: closed".to_string() })
    );
    assert_eq!(after_transcript(stage(), answered(429, String::new())), Err(TranscriptError::RateLimited));
    assert_eq!(
        after_transcript(stage(), answered(410, "<text start=\"1\" dur=\"2\">x</text>".to_string())),
        Err(TranscriptError::TranscriptFetchError { status: 410 })
    );
    assert_eq!(
        after_transcript(stage(), Reply::Answered { status: 200, body: Err("eof".to_string()) }),
        Err(TranscriptError::NetworkError { message: "Failed to read transcript body: eof".to_string() })
    );
    assert_eq!(after_transcript(stage(), answered(200, "  \n".to_string())), Err(TranscriptError::EmptyTranscript));
}
