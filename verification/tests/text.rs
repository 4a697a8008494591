use video_transcript::field::Field;
use video_transcript::text::{
    chars_of, contains_text, is_one_of, run_end, starts_at, string_of,
};

#[test]
fn chars_and_strings_convert_both_ways() {
    let v = chars_of("a\u{e9}\u{2603}z");
    assert_eq!(v, vec!['a', '\u{e9}', '\u{2603}', 'z']);
    assert_eq!(string_of(&v, 0, 4), "a\u{e9}\u{2603}z");
    assert_eq!(string_of(&v, 1, 3), "\u{e9}\u{2603}");
    assert_eq!(string_of(&v, 2, 2), "");
    assert_eq!(chars_of(""), Vec::<char>::new());
}

#[test]
fn starts_at_compares_at_the_position() {
    let s = chars_of("hello world");
    assert!(starts_at(&s, 0, &chars_of("hello")));
    assert!(starts_at(&s, 6, &chars_of("world")));
    assert!(!starts_at(&s, 1, &chars_of("hello")));
    assert!(!starts_at(&s, 7, &chars_of("world")));
    assert!(starts_at(&s, 11, &chars_of("")));
    assert!(!starts_at(&s, 12, &chars_of("")));
    assert!(!starts_at(&s, usize::MAX, &chars_of("x")));
}

#[test]
fn run_end_stops_on_a_stop_or_at_the_end() {
    let s = chars_of("abc\"def");
    let quote = chars_of("\"");
    assert_eq!(run_end(&s, 0, &quote), 3);
    assert_eq!(run_end(&s, 3, &quote), 3);
    assert_eq!(run_end(&s, 4, &quote), 7);
    assert_eq!(run_end(&s, 7, &quote), 7);
    assert_eq!(run_end(&s, 0, &chars_of("")), 7);
    assert_eq!(run_end(&s, 0, &chars_of("fc")), 2);
    assert_eq!(run_end(&s, 9, &quote), 9);
    assert!(is_one_of(&quote, '"'));
    assert!(!is_one_of(&quote, 'a'));
}

#[test]
fn contains_text_finds_a_text_anywhere() {
    let s = chars_of("<div class=\"g-recaptcha\"></div>");
    assert!(contains_text(&s, &chars_of("class=\"g-recaptcha\"")));
    assert!(contains_text(&s, &chars_of("</div>")));
    assert!(contains_text(&s, &chars_of("")));
    assert!(!contains_text(&s, &chars_of("class=\"recaptcha\"")));
    assert!(contains_text(&chars_of(""), &chars_of("")));
    assert!(!contains_text(&chars_of(""), &chars_of("a")));
}

#[test]
fn field_matches_in_one_way() {
    let f = Field::new("k=\"", "\"", "\"", 1);
    let s = chars_of("xk=\"\" k=\"ab\" k=\"c\"");
    assert!(f.at(&s, 1).is_none());
    let m = f.at(&s, 6).unwrap();
    assert_eq!((m.start, m.from, m.to, m.end), (6, 9, 11, 12));
    let first = f.first(&s, 0).unwrap();
    assert_eq!((first.start, first.from, first.to, first.end), (6, 9, 11, 12));
    let second = f.first(&s, 7).unwrap();
    assert_eq!((second.start, second.from, second.to, second.end), (13, 16, 17, 18));
    assert!(f.first(&s, 14).is_none());
    assert!(f.first(&s, 100).is_none());
    assert_eq!(f.capture_first(&s, 0), Some("ab".to_string()));
    assert_eq!(f.capture_first(&s, 14), None);
}
