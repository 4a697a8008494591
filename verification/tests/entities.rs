use video_transcript::decode_xml_entities;

#[test]
fn decodes_each_escape() {
    assert_eq!(decode_xml_entities("&amp;"), "&");
    assert_eq!(decode_xml_entities("&lt;"), "<");
    assert_eq!(decode_xml_entities("&gt;"), ">");
    assert_eq!(decode_xml_entities("&quot;"), "\"");
    assert_eq!(decode_xml_entities("&#39;"), "'");
    assert_eq!(decode_xml_entities("&apos;"), "'");
}

#[test]
fn ampersand_is_resolved_first_and_not_expanded_again() {
    assert_eq!(decode_xml_entities("&amp;lt;"), "&lt;");
    assert_eq!(decode_xml_entities("&amp;amp;"), "&amp;");
    assert_eq!(decode_xml_entities("&amp;#39;"), "&#39;");
    assert_eq!(decode_xml_entities("&amp;quot;"), "&quot;");
}

#[test]
fn plain_text_is_kept() {
    assert_eq!(decode_xml_entities(""), "");
    assert_eq!(decode_xml_entities("hello world"), "hello world");
    assert_eq!(decode_xml_entities("a & b < c > d"), "a & b < c > d");
}

#[test]
fn unknown_and_unfinished_escapes_are_kept() {
    assert_eq!(decode_xml_entities("&nbsp;"), "&nbsp;");
    assert_eq!(decode_xml_entities("&amp"), "&amp");
    assert_eq!(decode_xml_entities("&lt"), "&lt");
    assert_eq!(decode_xml_entities("&#39"), "&#39");
    assert_eq!(decode_xml_entities("&AMP;"), "&AMP;");
    assert_eq!(decode_xml_entities("&"), "&");
}

#[test]
fn escapes_are_decoded_within_text() {
    assert_eq!(decode_xml_entities("a &lt;b&gt; &amp; c"), "a <b> & c");
    assert_eq!(decode_xml_entities("&quot;it&#39;s&quot;"), "\"it's\"");
    assert_eq!(decode_xml_entities("&lt;&lt;&gt;&gt;"), "<<>>");
    assert_eq!(decode_xml_entities("x&apos;y&apos;"), "x'y'");
}

#[test]
fn characters_outside_ascii_pass_through() {
    assert_eq!(decode_xml_entities("caf\u{e9} &amp; th\u{e9}"), "caf\u{e9} & th\u{e9}");
    assert_eq!(decode_xml_entities("\u{2603}&lt;\u{1f600}"), "\u{2603}<\u{1f600}");
}

#[test]
fn decoding_twice_changes_nothing_where_no_escape_is_left() {
    for text in ["", "plain", "a &lt; b", "&quot;q&quot;", "tom &amp; jerry", "&nbsp;"] {
        let once = decode_xml_entities(text);
        assert_eq!(decode_xml_entities(&once), once);
    }
}

#[test]
fn decoding_twice_differs_where_an_escape_is_left() {
    let once = decode_xml_entities("&amp;lt;");
    assert_eq!(once, "&lt;");
    assert_eq!(decode_xml_entities(&once), "<");
}
