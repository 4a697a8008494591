//! Caption lines in a transcript body.
//!
//! A line has the shape `<text start="S" dur="D">T</text>`, where `S` and
//! `D` hold no quote and `T` holds no `<`. The body is not read as a
//! document: it is searched from left to right for this shape, each line is
//! taken where it is found, the search goes on behind it, and whatever
//! stands between the lines is passed over.

use vstd::prelude::*;
use crate::field::{Field, FieldView};
use crate::text::{has_at, lemma_free_of};
use crate::text::string_of;

verus! {

/// A caption line as it stands in the body: the two attributes and the
/// enclosed text, none of them decoded.
#[derive(Clone, Debug, PartialEq, Eq)]
pub struct CaptionLine {
    pub start: String,
    pub dur: String,
    pub text: String,
}

/// A caption line as a mathematical value.
pub struct CaptionLineView {
    pub start: Seq<char>,
    pub dur: Seq<char>,
    pub text: Seq<char>,
}

impl View for CaptionLine {
    type V = CaptionLineView;

    open spec fn view(&self) -> CaptionLineView {
        CaptionLineView { start: self.start@, dur: self.dur@, text: self.text@ }
    }
}

/// The views of a list of lines, in order.
pub open spec fn line_views(lines: Seq<CaptionLine>) -> Seq<CaptionLineView> {
    Seq::new(lines.len(), |i: int| lines[i]@)
}

/// `<text start="`, the start attribute, `" dur="`.
pub open spec fn start_field() -> FieldView {
    FieldView { open: "<text start=\""@, stops: "\""@, close: "\" dur=\""@, least: 0 }
}

/// The duration attribute, `">`.
pub open spec fn dur_field() -> FieldView {
    FieldView { open: ""@, stops: "\""@, close: "\">"@, least: 0 }
}

/// The enclosed text, `</text>`.
pub open spec fn text_field() -> FieldView {
    FieldView { open: ""@, stops: "<"@, close: "</text>"@, least: 0 }
}

/// The line that begins at `p`, with the position behind it.
pub open spec fn line_at(s: Seq<char>, p: int) -> Option<(CaptionLineView, int)> {
    match start_field().at(s, p) {
        Some(a) => match dur_field().at(s, a.end) {
            Some(b) => match text_field().at(s, b.end) {
                Some(c) => Some(
                    (
                        CaptionLineView {
                            start: s.subrange(a.from, a.to),
                            dur: s.subrange(b.from, b.to),
                            text: s.subrange(c.from, c.to),
                        },
                        c.end,
                    ),
                ),
                None => None,
            },
            None => None,
        },
        None => None,
    }
}

/// A line is not empty and lies within the body.
pub proof fn lemma_line_fits(s: Seq<char>, p: int)
    ensures
        match line_at(s, p) {
            Some((line, end)) => 0 <= p < end <= s.len(),
            None => true,
        },
{
    reveal_strlit("<text start=\"");
    start_field().lemma_at_fits(s, p);
    if let Some(a) = start_field().at(s, p) {
        dur_field().lemma_at_fits(s, a.end);
        if let Some(b) = dur_field().at(s, a.end) {
            text_field().lemma_at_fits(s, b.end);
        }
    }
}

/// The lines of the body from position `p` on, in the order in which they
/// stand.
pub open spec fn lines_from(s: Seq<char>, p: int) -> Seq<CaptionLineView>
    decreases s.len() - p,
{
    if p < 0 || p >= s.len() {
        Seq::empty()
    } else {
        match line_at(s, p) {
            Some((line, end)) => {
                proof {
                    lemma_line_fits(s, p);
                }
                seq![line] + lines_from(s, end)
            },
            None => lines_from(s, p + 1),
        }
    }
}

/// The lines of a body.
pub open spec fn lines_in(s: Seq<char>) -> Seq<CaptionLineView> {
    lines_from(s, 0)
}

/// The three fields of a line, made once for a whole search.
struct LineFields {
    start: Field,
    dur: Field,
    text: Field,
}

impl LineFields {
    spec fn wf(&self) -> bool {
        &&& self.start@ == start_field()
        &&& self.dur@ == dur_field()
        &&& self.text@ == text_field()
    }

    fn new() -> (f: LineFields)
        ensures
            f.wf(),
    {
        LineFields {
            start: Field::new("<text start=\"", "\"", "\" dur=\"", 0),
            dur: Field::new("", "\"", "\">", 0),
            text: Field::new("", "<", "</text>", 0),
        }
    }

    /// The line that begins at `p`, with the position behind it.
    fn at(&self, s: &Vec<char>, p: usize) -> (r: Option<(CaptionLine, usize)>)
        requires
            self.wf(),
        ensures
            match r {
                Some((line, end)) => line_at(s@, p as int) == Some((line@, end as int)),
                None => line_at(s@, p as int) is None,
            },
    {
        let a = match self.start.at(s, p) {
            Some(a) => a,
            None => {
                return None;
            },
        };
        let b = match self.dur.at(s, a.end) {
            Some(b) => b,
            None => {
                return None;
            },
        };
        let c = match self.text.at(s, b.end) {
            Some(c) => c,
            None => {
                return None;
            },
        };
        proof {
            start_field().lemma_at_fits(s@, p as int);
            dur_field().lemma_at_fits(s@, a.end as int);
            text_field().lemma_at_fits(s@, b.end as int);
        }
        let line = CaptionLine {
            start: string_of(s, a.from, a.to),
            dur: string_of(s, b.from, b.to),
            text: string_of(s, c.from, c.to),
        };
        Some((line, c.end))
    }
}

/// The caption lines of a body, in the order in which they stand.
pub fn caption_lines(body: &Vec<char>) -> (lines: Vec<CaptionLine>)
    ensures
        line_views(lines@) == lines_in(body@),
{
    let fields = LineFields::new();
    let mut lines: Vec<CaptionLine> = Vec::new();
    let mut p: usize = 0;
    while p < body.len()
        invariant
            fields.wf(),
            p <= body.len(),
            lines_in(body@) == line_views(lines@) + lines_from(body@, p as int),
        decreases body.len() - p,
    {
        let ghost before = line_views(lines@);
        match fields.at(body, p) {
            Some((line, end)) => {
                proof {
                    lemma_line_fits(body@, p as int);
                }
                let ghost view = line@;
                lines.push(line);
                p = end;
                assert(line_views(lines@) =~= before.push(view));
                assert(before + (seq![view] + lines_from(body@, p as int)) =~= line_views(lines@)
                    + lines_from(body@, p as int));
            },
            None => {
                p += 1;
            },
        }
    }
    assert(line_views(lines@) + lines_from(body@, p as int) =~= line_views(lines@));
    lines
}

/// A caption line written out as it stands in a body.
pub open spec fn written(line: CaptionLineView) -> Seq<char> {
    "<text start=\""@ + line.start + "\" dur=\""@ + line.dur + "\">"@ + line.text + "</text>"@
}

/// Whether a line can be written out and read back: its attributes hold
/// no quote and its text holds no `<`.
pub open spec fn well_formed(line: CaptionLineView) -> bool {
    &&& !line.start.contains('"')
    &&& !line.dur.contains('"')
    &&& !line.text.contains('<')
}

/// A body of `n` lines with something before, between and behind them:
/// `gaps[0]`, the first line, `gaps[1]`, and so on to `gaps[n]`.
pub open spec fn document(lines: Seq<CaptionLineView>, gaps: Seq<Seq<char>>) -> Seq<char>
    decreases lines.len(),
{
    if lines.len() == 0 {
        gaps[0]
    } else {
        gaps[0] + (written(lines[0]) + document(lines.drop_first(), gaps.drop_first()))
    }
}

/// Behind a prefix, a line is found as it was without the prefix.
proof fn lemma_line_at_after(pre: Seq<char>, s: Seq<char>, p: int)
    requires
        0 <= p,
    ensures
        line_at(pre + s, pre.len() + p) == match line_at(s, p) {
            Some((line, end)) => Some((line, end + pre.len())),
            None => None,
        },
{
    let n = pre.len() as int;
    start_field().lemma_at_after(pre, s, p);
    start_field().lemma_at_fits(s, p);
    if let Some(a) = start_field().at(s, p) {
        dur_field().lemma_at_after(pre, s, a.end);
        dur_field().lemma_at_fits(s, a.end);
        if let Some(b) = dur_field().at(s, a.end) {
            text_field().lemma_at_after(pre, s, b.end);
            text_field().lemma_at_fits(s, b.end);
            if let Some(c) = text_field().at(s, b.end) {
                assert((pre + s).subrange(a.from + n, a.to + n) =~= s.subrange(a.from, a.to));
                assert((pre + s).subrange(b.from + n, b.to + n) =~= s.subrange(b.from, b.to));
                assert((pre + s).subrange(c.from + n, c.to + n) =~= s.subrange(c.from, c.to));
            }
        }
    }
}

/// Behind a prefix, the lines of a body are those of the body alone.
pub proof fn lemma_lines_after(pre: Seq<char>, s: Seq<char>, p: int)
    requires
        0 <= p,
    ensures
        lines_from(pre + s, pre.len() + p) == lines_from(s, p),
    decreases s.len() - p,
{
    if p < s.len() {
        lemma_line_at_after(pre, s, p);
        lemma_line_fits(s, p);
        match line_at(s, p) {
            Some((line, end)) => lemma_lines_after(pre, s, end),
            None => lemma_lines_after(pre, s, p + 1),
        }
    }
}

proof fn lemma_gap_from(gap: Seq<char>, rest: Seq<char>, k: int)
    requires
        0 <= k <= gap.len(),
        !gap.contains('<'),
    ensures
        lines_from(gap + rest, k) == lines_in(rest),
    decreases gap.len() - k,
{
    if k < gap.len() {
        reveal_strlit("<text start=\"");
        assert((gap + rest)[k] == gap[k]);
        assert(gap.contains(gap[k]));
        if has_at(gap + rest, k, "<text start=\""@) {
            assert((gap + rest).subrange(k, k + 13)[0] == '<');
        }
        assert(line_at(gap + rest, k) is None);
        lemma_gap_from(gap, rest, k + 1);
    } else {
        lemma_lines_after(gap, rest, 0);
    }
}

/// What holds no `<` is passed over: in front of a body it adds no line
/// and takes none away.
pub proof fn lemma_gap_is_passed(gap: Seq<char>, rest: Seq<char>)
    requires
        !gap.contains('<'),
    ensures
        lines_in(gap + rest) == lines_in(rest),
{
    lemma_gap_from(gap, rest, 0);
}

/// A well-formed line that is written out in front of a body is read back
/// as it was, and the lines of the body follow it.
pub proof fn lemma_written_line_is_read(line: CaptionLineView, rest: Seq<char>)
    requires
        well_formed(line),
    ensures
        lines_in(written(line) + rest) == seq![line] + lines_in(rest),
{
    reveal_strlit("<text start=\"");
    reveal_strlit("\" dur=\"");
    reveal_strlit("\">");
    reveal_strlit("</text>");
    reveal_strlit("\"");
    reveal_strlit("<");
    reveal_strlit("");
    let open = "<text start=\""@;
    let mid = "\" dur=\""@;
    let gt = "\">"@;
    let close = "</text>"@;
    let nothing = ""@;
    let u = written(line) + rest;
    lemma_free_of(line.start, "\""@, '"');
    lemma_free_of(line.dur, "\""@, '"');
    lemma_free_of(line.text, "<"@, '<');

    let post1 = line.dur + gt + line.text + close + rest;
    assert((mid + post1)[0] == '"');
    start_field().lemma_written_field(Seq::empty(), line.start, post1);
    assert(u =~= Seq::<char>::empty() + open + line.start + mid + post1);
    let a = start_field().at(u, 0).unwrap();

    let pre2 = open + line.start + mid;
    let post2 = line.text + close + rest;
    assert((gt + post2)[0] == '"');
    dur_field().lemma_written_field(pre2, line.dur, post2);
    assert(u =~= pre2 + nothing + line.dur + gt + post2);
    let b = dur_field().at(u, a.end).unwrap();

    let pre3 = open + line.start + mid + line.dur + gt;
    assert((close + rest)[0] == '<');
    text_field().lemma_written_field(pre3, line.text, rest);
    assert(u =~= pre3 + nothing + line.text + close + rest);
    let c = text_field().at(u, b.end).unwrap();

    assert(c.end == written(line).len());
    assert(line_at(u, 0) == Some((line, c.end)));
    lemma_lines_after(written(line), rest, 0);
}

/// A body that is made of well-formed lines, with nothing but text free of
/// `<` before, between and behind them, is read as exactly these lines, in
/// their order: as many segments come out as lines went in.
pub proof fn lemma_document_is_read(lines: Seq<CaptionLineView>, gaps: Seq<Seq<char>>)
    requires
        gaps.len() == lines.len() + 1,
        forall|i: int| 0 <= i < gaps.len() ==> !(#[trigger] gaps[i]).contains('<'),
        forall|i: int| 0 <= i < lines.len() ==> well_formed(#[trigger] lines[i]),
    ensures
        lines_in(document(lines, gaps)) == lines,
    decreases lines.len(),
{
    if lines.len() == 0 {
        lemma_gap_is_passed(gaps[0], Seq::empty());
        assert(gaps[0] + Seq::<char>::empty() =~= gaps[0]);
        assert(lines =~= Seq::<CaptionLineView>::empty());
    } else {
        let rest = document(lines.drop_first(), gaps.drop_first());
        assert forall|i: int| 0 <= i < gaps.drop_first().len() implies !(
        #[trigger] gaps.drop_first()[i]).contains('<') by {
            assert(gaps.drop_first()[i] == gaps[i + 1]);
        }
        assert forall|i: int| 0 <= i < lines.drop_first().len() implies well_formed(
            #[trigger] lines.drop_first()[i],
        ) by {
            assert(lines.drop_first()[i] == lines[i + 1]);
        }
        lemma_document_is_read(lines.drop_first(), gaps.drop_first());
        lemma_written_line_is_read(lines[0], rest);
        lemma_gap_is_passed(gaps[0], written(lines[0]) + rest);
        assert(seq![lines[0]] + lines.drop_first() =~= lines);
    }
}

} // verus!
