use regex::Regex;
use video_transcript::lines::caption_lines;
use video_transcript::page::find_api_key;
use video_transcript::segments::strip_format;
use video_transcript::text::chars_of;

struct Engine {
    plain: Regex,
    escaped: Regex,
    line: Regex,
    format: Regex,
}

fn engine() -> Engine {
    Engine {
        plain: Regex::new(r#""INNERTUBE_API_KEY":"([^"]+)""#).unwrap(),
        escaped: Regex::new(r#"INNERTUBE_API_KEY\\":\\"([^\\"]+)\\""#).unwrap(),
        line: Regex::new(r#"<text start="([^"]*)" dur="([^"]*)">([^<]*)</text>"#).unwrap(),
        format: Regex::new(r"&fmt=[^&]+").unwrap(),
    }
}

fn key_by_regex(e: &Engine, page: &str) -> Option<String> {
    e.plain
        .captures(page)
        .or_else(|| e.escaped.captures(page))
        .and_then(|c| c.get(1))
        .map(|m| m.as_str().to_string())
}

fn lines_by_regex(e: &Engine, body: &str) -> Vec<(String, String, String)> {
    e.line
        .captures_iter(body)
        .map(|c| (c[1].to_string(), c[2].to_string(), c[3].to_string()))
        .collect()
}

fn lines_by_library(body: &str) -> Vec<(String, String, String)> {
    caption_lines(&chars_of(body)).into_iter().map(|l| (l.start, l.dur, l.text)).collect()
}

fn stripped_by_regex(e: &Engine, url: &str) -> String {
    e.format.replace(url, "").to_string()
}

fn pieces() -> Vec<&'static str> {
    vec![
        "",
        " ",
        "\n",
        "\"",
        "\\",
        "\\\"",
        "<",
        ">",
        "&",
        "=",
        "a",
        "1.5",
        "\u{e9}\u{2603}",
        "<text",
        "<text start=\"",
        "\" dur=\"",
        "\">",
        "</text>",
        "<text start=\"1\" dur=\"2\">x</text>",
        "<text start=\"\" dur=\"\"></text>",
        "\"INNERTUBE_API_KEY\":\"",
        "INNERTUBE_API_KEY\\\":\\\"",
        "\"INNERTUBE_API_KEY\":\"k1\"",
        "INNERTUBE_API_KEY\\\":\\\"k2\\\"",
        "&fmt=",
        "&fmt=srv3",
        "&lang=en",
        "?v=1",
    ]
}

#[test]
fn key_search_agrees_with_the_pattern_engine() {
    let parts = pieces();
    let e = engine();
    let mut seen = 0;
    for a in &parts {
        for b in &parts {
            for c in &parts {
                let page = format!("{}{}{}", a, b, c);
                assert_eq!(find_api_key(&chars_of(&page)), key_by_regex(&e, &page), "page: {:?}", page);
                seen += 1;
            }
        }
    }
    assert_eq!(seen, parts.len() * parts.len() * parts.len());
}

#[test]
fn line_search_agrees_with_the_pattern_engine() {
    let parts = pieces();
    let e = engine();
    for a in &parts {
        for b in &parts {
            for c in &parts {
                let body = format!("{}{}{}", a, b, c);
                assert_eq!(lines_by_library(&body), lines_by_regex(&e, &body), "body: {:?}", body);
            }
        }
    }
}

#[test]
fn line_search_agrees_on_longer_bodies() {
    let parts = pieces();
    let e = engine();
    for (i, a) in parts.iter().enumerate() {
        let mut body = String::new();
        for k in 0..12 {
            body.push_str(parts[(i * 7 + k * 5) % parts.len()]);
            body.push_str(a);
        }
        assert_eq!(lines_by_library(&body), lines_by_regex(&e, &body), "body: {:?}", body);
        assert_eq!(find_api_key(&chars_of(&body)), key_by_regex(&e, &body), "page: {:?}", body);
        assert_eq!(strip_format(&body), stripped_by_regex(&e, &body), "address: {:?}", body);
    }
}

#[test]
fn format_removal_agrees_with_the_pattern_engine() {
    let parts = pieces();
    let e = engine();
    for a in &parts {
        for b in &parts {
            for c in &parts {
                let url = format!("{}{}{}", a, b, c);
                assert_eq!(strip_format(&url), stripped_by_regex(&e, &url), "address: {:?}", url);
            }
        }
    }
}
