//! Markup escapes in caption text.
//!
//! Six escapes are known: `&amp;`, `&lt;`, `&gt;`, `&quot;`, `&#39;` and
//! `&apos;`. A text is decoded in one pass from left to right: an escape is
//! replaced by the character it stands for and the pass goes on behind it, so
//! that a character that came out of an escape never begins another one.

use vstd::prelude::*;
use crate::text::{chars_of, has_at, lemma_has_at_after, lemma_has_at_split, starts_at};

verus! {

/// The escape that begins at `p`: the character it stands for and the number
/// of characters it takes up.
pub open spec fn escape_at(s: Seq<char>, p: int) -> Option<(char, int)> {
    if has_at(s, p, "&amp;"@) {
        Some(('&', 5))
    } else if has_at(s, p, "&lt;"@) {
        Some(('<', 4))
    } else if has_at(s, p, "&gt;"@) {
        Some(('>', 4))
    } else if has_at(s, p, "&quot;"@) {
        Some(('"', 6))
    } else if has_at(s, p, "&#39;"@) {
        Some(('\'', 5))
    } else if has_at(s, p, "&apos;"@) {
        Some(('\'', 6))
    } else {
        None
    }
}

/// What the pass produces from position `p` on.
pub open spec fn decoded_from(s: Seq<char>, p: int) -> Seq<char>
    decreases s.len() - p,
{
    if p < 0 || p >= s.len() {
        Seq::empty()
    } else {
        match escape_at(s, p) {
            Some((c, n)) => {
                proof {
                    lemma_escape_fits(s, p);
                }
                seq![c] + decoded_from(s, p + n)
            },
            None => seq![s[p]] + decoded_from(s, p + 1),
        }
    }
}

/// An escape lies within the text and is at least four characters long.
pub proof fn lemma_escape_fits(s: Seq<char>, p: int)
    ensures
        match escape_at(s, p) {
            Some((c, n)) => 0 <= p && 4 <= n && p + n <= s.len(),
            None => true,
        },
{
    reveal_strlit("&amp;");
    reveal_strlit("&lt;");
    reveal_strlit("&gt;");
    reveal_strlit("&quot;");
    reveal_strlit("&#39;");
    reveal_strlit("&apos;");
}

/// The decoded text.
pub open spec fn decoded(s: Seq<char>) -> Seq<char> {
    decoded_from(s, 0)
}

/// Whether no escape begins anywhere in `s`.
pub open spec fn escape_free(s: Seq<char>) -> bool {
    forall|p: int| (#[trigger] escape_at(s, p)) is None
}

/// The six escapes as character vectors, made once for a whole pass.
struct Escapes {
    amp: Vec<char>,
    lt: Vec<char>,
    gt: Vec<char>,
    quot: Vec<char>,
    num: Vec<char>,
    apos: Vec<char>,
}

impl Escapes {
    spec fn wf(&self) -> bool {
        &&& self.amp@ == "&amp;"@
        &&& self.lt@ == "&lt;"@
        &&& self.gt@ == "&gt;"@
        &&& self.quot@ == "&quot;"@
        &&& self.num@ == "&#39;"@
        &&& self.apos@ == "&apos;"@
    }

    fn new() -> (t: Escapes)
        ensures
            t.wf(),
    {
        Escapes {
            amp: chars_of("&amp;"),
            lt: chars_of("&lt;"),
            gt: chars_of("&gt;"),
            quot: chars_of("&quot;"),
            num: chars_of("&#39;"),
            apos: chars_of("&apos;"),
        }
    }

    /// The escape that begins at `p`, if one does.
    fn at(&self, s: &Vec<char>, p: usize) -> (r: Option<(char, usize)>)
        requires
            self.wf(),
        ensures
            match r {
                Some((c, n)) => escape_at(s@, p as int) == Some((c, n as int)) && p + n <= s.len(),
                None => escape_at(s@, p as int) is None,
            },
    {
        proof {
            reveal_strlit("&amp;");
            reveal_strlit("&lt;");
            reveal_strlit("&gt;");
            reveal_strlit("&quot;");
            reveal_strlit("&#39;");
            reveal_strlit("&apos;");
        }
        if starts_at(s, p, &self.amp) {
            Some(('&', 5))
        } else if starts_at(s, p, &self.lt) {
            Some(('<', 4))
        } else if starts_at(s, p, &self.gt) {
            Some(('>', 4))
        } else if starts_at(s, p, &self.quot) {
            Some(('"', 6))
        } else if starts_at(s, p, &self.num) {
            Some(('\'', 5))
        } else if starts_at(s, p, &self.apos) {
            Some(('\'', 6))
        } else {
            None
        }
    }
}

/// Decodes the markup escapes of `text` in one pass.
pub fn decode_xml_entities(text: &str) -> (out: String)
    ensures
        out@ == decoded(text@),
{
    let s = chars_of(text);
    let table = Escapes::new();
    let mut out = String::new();
    let mut p: usize = 0;
    while p < s.len()
        invariant
            table.wf(),
            p <= s.len(),
            decoded(s@) == out@ + decoded_from(s@, p as int),
        decreases s.len() - p,
    {
        let ghost before = out@;
        match table.at(&s, p) {
            Some((c, n)) => {
                out.push(c);
                p += n;
                assert(before + (seq![c] + decoded_from(s@, p as int)) =~= out@ + decoded_from(
                    s@,
                    p as int,
                ));
            },
            None => {
                let c = s[p];
                out.push(c);
                p += 1;
                assert(before + (seq![c] + decoded_from(s@, p as int)) =~= out@ + decoded_from(
                    s@,
                    p as int,
                ));
            },
        }
    }
    assert(out@ + decoded_from(s@, p as int) =~= out@);
    out
}

/// Behind position `p`, a text without escapes comes out of the pass as it
/// went in.
proof fn lemma_plain_from(s: Seq<char>, p: int)
    requires
        escape_free(s),
        0 <= p <= s.len(),
    ensures
        decoded_from(s, p) == s.subrange(p, s.len() as int),
    decreases s.len() - p,
{
    if p < s.len() {
        lemma_plain_from(s, p + 1);
        assert(escape_at(s, p) is None);
        assert(seq![s[p]] + s.subrange(p + 1, s.len() as int) =~= s.subrange(p, s.len() as int));
    } else {
        assert(s.subrange(p, s.len() as int) =~= Seq::<char>::empty());
    }
}

/// A text in which no escape begins is its own decoding.
pub proof fn lemma_plain_text_is_kept(s: Seq<char>)
    requires
        escape_free(s),
    ensures
        decoded(s) == s,
{
    lemma_plain_from(s, 0);
    assert(s.subrange(0, s.len() as int) =~= s);
}

/// Decoding twice gives what decoding once gives, for every text whose
/// decoding holds no escape. A text such as `&amp;lt;` is left out: its
/// decoding is `&lt;`, which a second pass would turn into `<`.
pub proof fn lemma_decoding_settles(s: Seq<char>)
    requires
        escape_free(decoded(s)),
    ensures
        decoded(decoded(s)) == decoded(s),
{
    lemma_plain_text_is_kept(decoded(s));
}

/// What follows the ampersand of the escape that begins just before `q`:
/// the character that the escape stands for, and the number of characters
/// that follow the ampersand.
pub open spec fn tail_at(s: Seq<char>, q: int) -> Option<(char, int)> {
    if has_at(s, q, "amp;"@) {
        Some(('&', 4))
    } else if has_at(s, q, "lt;"@) {
        Some(('<', 3))
    } else if has_at(s, q, "gt;"@) {
        Some(('>', 3))
    } else if has_at(s, q, "quot;"@) {
        Some(('"', 5))
    } else if has_at(s, q, "#39;"@) {
        Some(('\'', 4))
    } else if has_at(s, q, "apos;"@) {
        Some(('\'', 5))
    } else {
        None
    }
}

/// Whether no `&amp;` of the text stands directly before what finishes an
/// escape, as in `&amp;lt;`.
pub open spec fn single_escaped(s: Seq<char>) -> bool {
    forall|p: int| #[trigger] has_at(s, p, "&amp;"@) ==> tail_at(s, p + 5) is None
}

/// Whether an escape can stand for `c`.
pub open spec fn is_reserved(c: char) -> bool {
    c == '&' || c == '<' || c == '>' || c == '"' || c == '\''
}

/// An escape is an ampersand and what finishes it.
proof fn lemma_escape_splits(s: Seq<char>, p: int)
    ensures
        escape_at(s, p) == (if 0 <= p < s.len() && s[p] == '&' {
            match tail_at(s, p + 1) {
                Some((c, n)) => Some((c, n + 1)),
                None => None,
            }
        } else {
            None
        }),
        match escape_at(s, p) {
            Some((c, n)) => is_reserved(c) && (c == '&' ==> has_at(s, p, "&amp;"@) && n == 5),
            None => true,
        },
{
    reveal_strlit("&amp;");
    reveal_strlit("&lt;");
    reveal_strlit("&gt;");
    reveal_strlit("&quot;");
    reveal_strlit("&#39;");
    reveal_strlit("&apos;");
    reveal_strlit("amp;");
    reveal_strlit("lt;");
    reveal_strlit("gt;");
    reveal_strlit("quot;");
    reveal_strlit("#39;");
    reveal_strlit("apos;");
    lemma_has_at_split(s, p, "&amp;"@);
    lemma_has_at_split(s, p, "&lt;"@);
    lemma_has_at_split(s, p, "&gt;"@);
    lemma_has_at_split(s, p, "&quot;"@);
    lemma_has_at_split(s, p, "&#39;"@);
    lemma_has_at_split(s, p, "&apos;"@);
    assert("&amp;"@.drop_first() =~= "amp;"@);
    assert("&lt;"@.drop_first() =~= "lt;"@);
    assert("&gt;"@.drop_first() =~= "gt;"@);
    assert("&quot;"@.drop_first() =~= "quot;"@);
    assert("&#39;"@.drop_first() =~= "#39;"@);
    assert("&apos;"@.drop_first() =~= "apos;"@);
}

/// Behind a prefix, an escape begins where it began without the prefix.
proof fn lemma_escape_after(pre: Seq<char>, s: Seq<char>, p: int)
    requires
        0 <= p,
    ensures
        escape_at(pre + s, pre.len() + p) == escape_at(s, p),
{
    lemma_has_at_after(pre, s, p, "&amp;"@);
    lemma_has_at_after(pre, s, p, "&lt;"@);
    lemma_has_at_after(pre, s, p, "&gt;"@);
    lemma_has_at_after(pre, s, p, "&quot;"@);
    lemma_has_at_after(pre, s, p, "&#39;"@);
    lemma_has_at_after(pre, s, p, "&apos;"@);
}

/// Behind a prefix, an escape is finished where it was without the prefix.
proof fn lemma_tail_after(pre: Seq<char>, s: Seq<char>, q: int)
    requires
        0 <= q,
    ensures
        tail_at(pre + s, pre.len() + q) == tail_at(s, q),
{
    lemma_has_at_after(pre, s, q, "amp;"@);
    lemma_has_at_after(pre, s, q, "lt;"@);
    lemma_has_at_after(pre, s, q, "gt;"@);
    lemma_has_at_after(pre, s, q, "quot;"@);
    lemma_has_at_after(pre, s, q, "#39;"@);
    lemma_has_at_after(pre, s, q, "apos;"@);
}

/// A text that the decoding begins with, and that holds no character that
/// an escape can stand for, was copied: the text itself begins with it.
proof fn lemma_copied_prefix(s: Seq<char>, q: int, t: Seq<char>)
    requires
        0 <= q <= s.len(),
        forall|i: int| 0 <= i < t.len() ==> !is_reserved(#[trigger] t[i]),
        has_at(decoded_from(s, q), 0, t),
    ensures
        has_at(s, q, t),
    decreases t.len(),
{
    if t.len() == 0 {
        assert(s.subrange(q, q + t.len()) =~= t);
    } else {
        let d = decoded_from(s, q);
        let rest = t.drop_first();
        lemma_has_at_split(d, 0, t);
        lemma_escape_fits(s, q);
        lemma_escape_splits(s, q);
        match escape_at(s, q) {
            Some((c, n)) => {
                assert(d[0] == c);
                assert(!is_reserved(t[0]));
            },
            None => {
                let r = decoded_from(s, q + 1);
                assert(d == seq![s[q]] + r);
                lemma_has_at_after(seq![s[q]], r, 0, rest);
                assert forall|i: int| 0 <= i < rest.len() implies !is_reserved(
                    #[trigger] rest[i],
                ) by {
                    assert(rest[i] == t[i + 1]);
                }
                lemma_copied_prefix(s, q + 1, rest);
                lemma_has_at_split(s, q, t);
            },
        }
    }
}

/// Where the decoding begins with what finishes an escape, the text does.
proof fn lemma_tail_was_copied(s: Seq<char>, q: int)
    requires
        0 <= q <= s.len(),
        tail_at(decoded_from(s, q), 0) is Some,
    ensures
        tail_at(s, q) is Some,
{
    reveal_strlit("amp;");
    reveal_strlit("lt;");
    reveal_strlit("gt;");
    reveal_strlit("quot;");
    reveal_strlit("#39;");
    reveal_strlit("apos;");
    let d = decoded_from(s, q);
    if has_at(d, 0, "amp;"@) {
        lemma_copied_prefix(s, q, "amp;"@);
    } else if has_at(d, 0, "lt;"@) {
        lemma_copied_prefix(s, q, "lt;"@);
    } else if has_at(d, 0, "gt;"@) {
        lemma_copied_prefix(s, q, "gt;"@);
    } else if has_at(d, 0, "quot;"@) {
        lemma_copied_prefix(s, q, "quot;"@);
    } else if has_at(d, 0, "#39;"@) {
        lemma_copied_prefix(s, q, "#39;"@);
    } else {
        lemma_copied_prefix(s, q, "apos;"@);
    }
}

proof fn lemma_no_escape_from(s: Seq<char>, q: int)
    requires
        single_escaped(s),
        0 <= q <= s.len(),
    ensures
        escape_free(decoded_from(s, q)),
    decreases s.len() - q,
{
    let d = decoded_from(s, q);
    if q >= s.len() {
        assert forall|k: int| (#[trigger] escape_at(d, k)) is None by {
            lemma_escape_fits(d, k);
        }
    } else {
        lemma_escape_fits(s, q);
        lemma_escape_splits(s, q);
        let c = match escape_at(s, q) {
            Some((c, n)) => c,
            None => s[q],
        };
        let next = match escape_at(s, q) {
            Some((c, n)) => q + n,
            None => q + 1,
        };
        let r = decoded_from(s, next);
        assert(d == seq![c] + r);
        lemma_no_escape_from(s, next);
        assert forall|k: int| (#[trigger] escape_at(d, k)) is None by {
            lemma_escape_splits(d, k);
            if k >= 1 {
                lemma_escape_after(seq![c], r, k - 1);
                assert(escape_at(r, k - 1) is None);
            } else if k == 0 && escape_at(d, 0) is Some {
                lemma_tail_after(seq![c], r, 0);
                lemma_tail_was_copied(s, next);
            }
        }
    }
}

/// The decoding of a text holds no escape, so that nothing is left to
/// decode, for every text in which no `&amp;` stands directly before what
/// finishes an escape. A text such as `&amp;lt;` is left out: its decoding
/// is `&lt;`.
pub proof fn lemma_decoding_leaves_no_escape(s: Seq<char>)
    requires
        single_escaped(s),
    ensures
        escape_free(decoded(s)),
        decoded(decoded(s)) == decoded(s),
{
    lemma_no_escape_from(s, 0);
    lemma_plain_text_is_kept(decoded(s));
}

} // verus!
