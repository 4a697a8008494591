//! The transcript: the request for a track, and the segments that its body
//! is read into.

use vstd::prelude::*;
use vstd::string::StringExecFns;
use crate::entities::{
    decode_xml_entities, decoded, escape_free, lemma_decoding_leaves_no_escape, single_escaped,
};
use crate::error::{ErrorView, TranscriptError};
use crate::field::{Field, FieldView};
use crate::http::{get_request, is_success, plain_get, succeeded, HttpRequest};
use crate::lines::{
    caption_lines, document, lemma_document_is_read, lemma_gap_is_passed, line_views, lines_in,
    well_formed, CaptionLine, CaptionLineView,
};
use crate::text::{chars_of, has_at, lemma_free_of, occurs_in, string_of};
use crate::tracks::CaptionTrack;

verus! {

/// One utterance of a transcript.
///
/// The two times are kept as the body writes them, in seconds. What number
/// a time stands for is decided where numbers with a fraction can be held:
/// the decimal number that the text spells, and zero for a text that spells
/// none.
#[derive(Clone, Debug, PartialEq, Eq)]
pub struct TranscriptSegment {
    /// The spoken text, decoded.
    pub text: String,
    /// How long the utterance lasts.
    pub duration: String,
    /// When the utterance begins, counted from the start of the video.
    pub offset: String,
    /// The language of the track.
    pub lang: String,
}

/// A segment as a mathematical value.
pub struct SegmentView {
    pub text: Seq<char>,
    pub duration: Seq<char>,
    pub offset: Seq<char>,
    pub lang: Seq<char>,
}

impl View for TranscriptSegment {
    type V = SegmentView;

    open spec fn view(&self) -> SegmentView {
        SegmentView {
            text: self.text@,
            duration: self.duration@,
            offset: self.offset@,
            lang: self.lang@,
        }
    }
}

/// The views of a list of segments, in order.
pub open spec fn segment_views(segments: Seq<TranscriptSegment>) -> Seq<SegmentView> {
    Seq::new(segments.len(), |i: int| segments[i]@)
}

/// The format parameter of an address: `&fmt=` and one or more characters
/// other than `&`.
pub open spec fn format_field() -> FieldView {
    FieldView { open: "&fmt="@, stops: "&"@, close: ""@, least: 1 }
}

/// An address without its format parameter: the leftmost one is cut out,
/// and an address that has none stays as it is.
pub open spec fn without_format(url: Seq<char>) -> Seq<char> {
    match format_field().first(url, 0) {
        Some(m) => url.subrange(0, m.start) + url.subrange(m.end, url.len() as int),
        None => url,
    }
}

/// Cuts the format parameter out of an address.
pub fn strip_format(url: &str) -> (r: String)
    ensures
        r@ == without_format(url@),
{
    let s = chars_of(url);
    let field = Field::new("&fmt=", "&", "", 1);
    match field.first(&s, 0) {
        Some(m) => {
            proof {
                field@.lemma_first_is_leftmost(s@, 0);
                field@.lemma_at_fits(s@, m.start as int);
            }
            let head = string_of(&s, 0, m.start);
            let tail = string_of(&s, m.end, s.len());
            head.concat(tail.as_str())
        },
        None => String::from_str(url),
    }
}

/// The request for the transcript of a track: a `GET` of the track's
/// address without its format parameter.
pub fn transcript_request(track: &CaptionTrack) -> (r: HttpRequest)
    ensures
        r@ == plain_get(without_format(track.url@)),
{
    get_request(strip_format(track.url.as_str()))
}

/// What the status of the transcript response comes to: 429 ends the
/// retrieval with `RateLimited`, any other status outside 200..=299 with
/// `TranscriptFetchError`.
pub open spec fn transcript_status(status: u16) -> Option<ErrorView> {
    if status == 429 {
        Some(ErrorView::RateLimited)
    } else if !succeeded(status) {
        Some(ErrorView::TranscriptFetchError { status })
    } else {
        None
    }
}

/// Whether the transcript was delivered.
pub fn check_transcript_status(status: u16) -> (r: Result<(), TranscriptError>)
    ensures
        match r {
            Ok(_) => transcript_status(status) is None,
            Err(e) => transcript_status(status) == Some(e@),
        },
{
    if status == 429 {
        Err(TranscriptError::RateLimited)
    } else if !is_success(status) {
        Err(TranscriptError::TranscriptFetchError { status })
    } else {
        Ok(())
    }
}

/// The segment that a caption line is read into: its text decoded, its two
/// attributes as they stand, and the language of the track.
pub open spec fn segment_of(line: CaptionLineView, lang: Seq<char>) -> SegmentView {
    SegmentView { text: decoded(line.text), duration: line.dur, offset: line.start, lang }
}

/// The segments of a body: one for each of its caption lines, in order.
pub open spec fn segments_in(body: Seq<char>, lang: Seq<char>) -> Seq<SegmentView> {
    Seq::new(lines_in(body).len(), |i: int| segment_of(lines_in(body)[i], lang))
}

/// What reading a transcript body comes to: its segments, or
/// `EmptyTranscript` where it holds no caption line.
pub open spec fn transcript_outcome(body: Seq<char>, lang: Seq<char>) -> Result<
    Seq<SegmentView>,
    ErrorView,
> {
    if lines_in(body).len() == 0 {
        Err(ErrorView::EmptyTranscript)
    } else {
        Ok(segments_in(body, lang))
    }
}

/// Reads a caption line into a segment.
pub fn read_line(line: &CaptionLine, lang: &str) -> (seg: TranscriptSegment)
    ensures
        seg@ == segment_of(line@, lang@),
{
    TranscriptSegment {
        text: decode_xml_entities(line.text.as_str()),
        duration: line.dur.clone(),
        offset: line.start.clone(),
        lang: String::from_str(lang),
    }
}

/// Reads the lines of a body into segments.
pub fn read_lines(lines: &Vec<CaptionLine>, lang: &str) -> (segments: Vec<TranscriptSegment>)
    ensures
        segments.len() == lines.len(),
        forall|i: int|
            0 <= i < lines.len() ==> (#[trigger] segments[i])@ == segment_of(lines[i]@, lang@),
{
    let mut segments: Vec<TranscriptSegment> = Vec::new();
    let mut k: usize = 0;
    while k < lines.len()
        invariant
            k <= lines.len(),
            segments.len() == k,
            forall|i: int| 0 <= i < k ==> (#[trigger] segments[i])@ == segment_of(lines[i]@, lang@),
        decreases lines.len() - k,
    {
        segments.push(read_line(&lines[k], lang));
        k += 1;
    }
    segments
}

/// Reads the body of a transcript in the language `lang` into segments.
/// A body without a caption line is no transcript: `EmptyTranscript`.
pub fn read_transcript(body: &str, lang: &str) -> (r: Result<
    Vec<TranscriptSegment>,
    TranscriptError,
>)
    ensures
        match r {
            Ok(segments) => transcript_outcome(body@, lang@) == Ok::<Seq<SegmentView>, ErrorView>(
                segment_views(segments@),
            ),
            Err(e) => transcript_outcome(body@, lang@) == Err::<Seq<SegmentView>, ErrorView>(e@),
        },
{
    let chars = chars_of(body);
    let lines = caption_lines(&chars);
    if lines.len() == 0 {
        return Err(TranscriptError::EmptyTranscript);
    }
    let ghost found = lines@;
    let segments = read_lines(&lines, lang);
    assert(segment_views(segments@) =~= segments_in(body@, lang@)) by {
        assert forall|i: int| 0 <= i < segments.len() implies segment_views(segments@)[i]
            == segments_in(body@, lang@)[i] by {
            assert(line_views(found)[i] == found[i]@);
        }
    }
    Ok(segments)
}

/// A transcript that was read is never empty, and all of its segments are
/// in the language of the track.
pub proof fn lemma_transcript_is_uniform(body: Seq<char>, lang: Seq<char>)
    ensures
        match transcript_outcome(body, lang) {
            Ok(segments) => {
                &&& segments.len() == lines_in(body).len()
                &&& segments.len() > 0
                &&& forall|i: int| 0 <= i < segments.len() ==> (#[trigger] segments[i]).lang == lang
            },
            Err(e) => e == ErrorView::EmptyTranscript,
        },
{
}

/// An address that holds `&fmt=` and a value loses exactly that: what
/// stands before the parameter and what stands behind it are kept as they
/// are. The parameter is the first in the address, its value is not empty
/// and holds no `&`, and the address ends behind it or goes on with `&`.
pub proof fn lemma_format_is_removed(head: Seq<char>, value: Seq<char>, tail: Seq<char>)
    requires
        !occurs_in(head, "&fmt="@),
        value.len() > 0,
        !value.contains('&'),
        tail.len() == 0 || tail[0] == '&',
    ensures
        without_format(head + "&fmt="@ + value + tail) == head + tail,
{
    reveal_strlit("&fmt=");
    reveal_strlit("&");
    reveal_strlit("");
    let f = format_field();
    let u = head + "&fmt="@ + value + tail;
    let n = head.len() as int;
    lemma_free_of(value, "&"@, '&');
    assert(""@ + tail =~= tail);
    f.lemma_written_field(head, value, tail);
    assert(u =~= head + f.open + value + f.close + tail);
    assert forall|k: int| 0 <= k < n implies (#[trigger] f.at(u, k)) is None by {
        if has_at(u, k, "&fmt="@) {
            if k + 5 <= n {
                assert(u.subrange(k, k + 5) =~= head.subrange(k, k + 5));
                assert(has_at(head, k, "&fmt="@));
            } else {
                assert(u.subrange(k, k + 5)[n - k] == u[n]);
                assert(u[n] == '&');
            }
        }
    }
    f.lemma_first_found(u, 0, n);
    let m = f.at(u, n).unwrap();
    assert(u.subrange(0, m.start) + u.subrange(m.end, u.len() as int) =~= head + tail);
}

/// A body of `n` well-formed lines, with nothing but text free of `<`
/// before, between and behind them, is read into exactly `n` segments: the
/// `i`-th segment is the `i`-th line, read with the language of the track.
/// Whatever the two attributes of a line spell, a number or not, the line is
/// read. And the text of a segment holds no escape, unless the text of its
/// line held an `&amp;` directly before what finishes an escape.
pub proof fn lemma_document_segments(
    lines: Seq<CaptionLineView>,
    gaps: Seq<Seq<char>>,
    lang: Seq<char>,
)
    requires
        gaps.len() == lines.len() + 1,
        forall|i: int| 0 <= i < gaps.len() ==> !(#[trigger] gaps[i]).contains('<'),
        forall|i: int| 0 <= i < lines.len() ==> well_formed(#[trigger] lines[i]),
    ensures
        segments_in(document(lines, gaps), lang).len() == lines.len(),
        forall|i: int|
            0 <= i < lines.len() ==> (#[trigger] segments_in(document(lines, gaps), lang)[i])
                == segment_of(lines[i], lang),
        forall|i: int|
            0 <= i < lines.len() && single_escaped(lines[i].text) ==> escape_free(
                (#[trigger] segments_in(document(lines, gaps), lang)[i]).text,
            ),
        lines.len() > 0 ==> transcript_outcome(document(lines, gaps), lang) == Ok::<
            Seq<SegmentView>,
            ErrorView,
        >(segments_in(document(lines, gaps), lang)),
        lines.len() == 0 ==> transcript_outcome(document(lines, gaps), lang) == Err::<
            Seq<SegmentView>,
            ErrorView,
        >(ErrorView::EmptyTranscript),
{
    lemma_document_is_read(lines, gaps);
    assert forall|i: int| 0 <= i < lines.len() && single_escaped(lines[i].text) implies escape_free(
        (#[trigger] segments_in(document(lines, gaps), lang)[i]).text,
    ) by {
        lemma_decoding_leaves_no_escape(lines[i].text);
    }
}

/// A body that holds no `<` holds no caption line, so that reading it ends
/// with `EmptyTranscript`. An empty body is such a body, and so is one of
/// nothing but spaces and line breaks.
pub proof fn lemma_blank_body_is_empty(body: Seq<char>, lang: Seq<char>)
    requires
        !body.contains('<'),
    ensures
        lines_in(body).len() == 0,
        transcript_outcome(body, lang) == Err::<Seq<SegmentView>, ErrorView>(
            ErrorView::EmptyTranscript,
        ),
{
    lemma_gap_is_passed(body, Seq::empty());
    assert(body + Seq::<char>::empty() =~= body);
}

} // verus!
