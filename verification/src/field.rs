//! Fields: the one shape that every pattern of this library is made of.
//!
//! A field is a fixed opening text, then a run of characters that holds none
//! of a few stop characters and is as long as it can be, then a fixed closing
//! text. The run is what the field captures. Because the run cannot be
//! shortened without ending on a character that is no stop, a field matches at
//! a given position in at most one way.

use vstd::prelude::*;
use crate::text::{
    chars_of, has_at, lemma_has_at_after, lemma_stop_from, lemma_stop_from_after, lemma_stop_is,
    lemma_stop_not_before, run_end, starts_at, stop_from, string_of,
};

verus! {

/// A field, as executable data.
pub struct Field {
    /// The text that opens the field.
    pub open: Vec<char>,
    /// The characters that end the captured run.
    pub stops: Vec<char>,
    /// The text that closes the field.
    pub close: Vec<char>,
    /// The least length of the captured run.
    pub least: usize,
}

/// A field, as a mathematical value.
pub struct FieldView {
    pub open: Seq<char>,
    pub stops: Seq<char>,
    pub close: Seq<char>,
    pub least: nat,
}

impl View for Field {
    type V = FieldView;

    open spec fn view(&self) -> FieldView {
        FieldView {
            open: self.open@,
            stops: self.stops@,
            close: self.close@,
            least: self.least as nat,
        }
    }
}

/// Where a field lies: it begins at `start`, captures `from..to` and ends
/// before `end`.
pub struct Span {
    pub start: int,
    pub from: int,
    pub to: int,
    pub end: int,
}

impl Span {
    /// The span moved to the right by `n` positions.
    pub open spec fn shifted(self, n: int) -> Span {
        Span { start: self.start + n, from: self.from + n, to: self.to + n, end: self.end + n }
    }
}

/// A match behind a prefix of `n` characters.
pub open spec fn shifted(m: Option<Span>, n: int) -> Option<Span> {
    match m {
        Some(m) => Some(m.shifted(n)),
        None => None,
    }
}

impl FieldView {
    /// The match of the field that begins at `p`, if there is one.
    pub open spec fn at(self, s: Seq<char>, p: int) -> Option<Span> {
        let from = p + self.open.len();
        let to = stop_from(s, from, self.stops);
        if has_at(s, p, self.open) && from + self.least <= to && has_at(s, to, self.close) {
            Some(Span { start: p, from, to, end: to + self.close.len() })
        } else {
            None
        }
    }

    /// The leftmost match of the field that begins at or after `p`.
    pub open spec fn first(self, s: Seq<char>, p: int) -> Option<Span>
        decreases s.len() - p,
    {
        if p < 0 || p > s.len() {
            None
        } else if self.at(s, p) is Some {
            self.at(s, p)
        } else if p == s.len() {
            None
        } else {
            self.first(s, p + 1)
        }
    }

    /// A match lies within the text, in the order start, capture, end.
    pub proof fn lemma_at_fits(self, s: Seq<char>, p: int)
        ensures
            match self.at(s, p) {
                Some(m) => {
                    &&& 0 <= m.start == p
                    &&& m.from == p + self.open.len()
                    &&& m.from + self.least <= m.to
                    &&& m.end == m.to + self.close.len()
                    &&& m.end <= s.len()
                },
                None => true,
            },
    {
        if has_at(s, p, self.open) {
            lemma_stop_from(s, p + self.open.len(), self.stops);
        }
    }

    /// The leftmost match begins at or after `p`, and no match begins
    /// between `p` and it; where there is none, no match begins at or after
    /// `p` at all.
    pub proof fn lemma_first_is_leftmost(self, s: Seq<char>, p: int)
        requires
            0 <= p,
        ensures
            match self.first(s, p) {
                Some(m) => {
                    &&& p <= m.start <= s.len()
                    &&& self.at(s, m.start) == Some(m)
                    &&& forall|k: int| p <= k < m.start ==> (#[trigger] self.at(s, k)) is None
                },
                None => forall|k: int| p <= k ==> (#[trigger] self.at(s, k)) is None,
            },
        decreases s.len() - p,
    {
        if p > s.len() {
            assert forall|k: int| p <= k implies (#[trigger] self.at(s, k)) is None by {
                self.lemma_at_fits(s, k);
            }
        } else if self.at(s, p) is Some {
            self.lemma_at_fits(s, p);
        } else if p == s.len() {
            assert forall|k: int| p <= k implies (#[trigger] self.at(s, k)) is None by {
                self.lemma_at_fits(s, k);
            }
        } else {
            self.lemma_first_is_leftmost(s, p + 1);
        }
    }
}

impl FieldView {
    /// The leftmost match is the first one: where a match begins at `q` and
    /// none begins between `p` and `q`, the search from `p` finds the one at
    /// `q`.
    pub proof fn lemma_first_found(self, s: Seq<char>, p: int, q: int)
        requires
            0 <= p <= q,
            self.at(s, q) is Some,
            forall|k: int| p <= k < q ==> (#[trigger] self.at(s, k)) is None,
        ensures
            self.first(s, p) == self.at(s, q),
        decreases q - p,
    {
        self.lemma_at_fits(s, q);
        if p < q {
            self.lemma_first_found(s, p + 1, q);
        }
    }

    /// Behind a prefix, the field matches as it did without the prefix.
    pub proof fn lemma_at_after(self, pre: Seq<char>, s: Seq<char>, p: int)
        requires
            0 <= p,
        ensures
            self.at(pre + s, pre.len() + p) == shifted(self.at(s, p), pre.len() as int),
    {
        lemma_has_at_after(pre, s, p, self.open);
        lemma_stop_from_after(pre, s, p + self.open.len(), self.stops);
        lemma_stop_not_before(s, p + self.open.len(), self.stops);
        lemma_has_at_after(pre, s, stop_from(s, p + self.open.len(), self.stops), self.close);
        if has_at(s, p, self.open) {
            lemma_stop_from(s, p + self.open.len(), self.stops);
        }
    }

    /// A field that is written out is matched where it stands: in the text
    /// `pre`, opening, `run`, closing, `post`, where `run` is long enough
    /// and holds no stop, and where a stop or the end of the text follows
    /// it, the field matches behind `pre` and captures `run`.
    pub proof fn lemma_written_field(self, pre: Seq<char>, run: Seq<char>, post: Seq<char>)
        requires
            self.least <= run.len(),
            forall|j: int| 0 <= j < run.len() ==> !self.stops.contains(#[trigger] run[j]),
            (self.close + post).len() == 0 || self.stops.contains((self.close + post)[0]),
        ensures
            ({
                let s = pre + self.open + run + self.close + post;
                let from = pre.len() as int + self.open.len();
                let to = from + run.len();
                &&& self.at(s, pre.len() as int) == Some(
                    Span { start: pre.len() as int, from, to, end: to + self.close.len() },
                )
                &&& s.subrange(from, to) == run
            }),
    {
        let s = pre + self.open + run + self.close + post;
        let start = pre.len() as int;
        let from = start + self.open.len();
        let to = from + run.len();
        assert(s.subrange(start, from) =~= self.open);
        assert(s.subrange(from, to) =~= run);
        assert(s.subrange(to, to + self.close.len()) =~= self.close);
        assert forall|i: int| from <= i < to implies !self.stops.contains(#[trigger] s[i]) by {
            assert(s[i] == run[i - from]);
        }
        if to < s.len() {
            assert(s[to] == (self.close + post)[0]);
        }
        lemma_stop_is(s, from, to, self.stops);
    }
}

/// What a match captures, where there is a match.
pub open spec fn captured(s: Seq<char>, m: Option<Span>) -> Option<Seq<char>> {
    match m {
        Some(m) => Some(s.subrange(m.from, m.to)),
        None => None,
    }
}

/// Where a field was found, in positions of the text that was searched.
pub struct Found {
    pub start: usize,
    pub from: usize,
    pub to: usize,
    pub end: usize,
}

impl View for Found {
    type V = Span;

    open spec fn view(&self) -> Span {
        Span {
            start: self.start as int,
            from: self.from as int,
            to: self.to as int,
            end: self.end as int,
        }
    }
}

impl Field {
    /// The field that opens with `open`, captures a run of at least `least`
    /// characters that are none of `stops`, and closes with `close`.
    pub fn new(open: &str, stops: &str, close: &str, least: usize) -> (f: Field)
        ensures
            f@ == (FieldView { open: open@, stops: stops@, close: close@, least: least as nat }),
    {
        Field { open: chars_of(open), stops: chars_of(stops), close: chars_of(close), least }
    }

    /// The match of the field that begins at `p`, if there is one.
    pub fn at(&self, s: &Vec<char>, p: usize) -> (r: Option<Found>)
        ensures
            match r {
                Some(m) => self@.at(s@, p as int) == Some(m@),
                None => self@.at(s@, p as int) is None,
            },
    {
        if !starts_at(s, p, &self.open) {
            return None;
        }
        assert(p + self.open.len() <= s.len());
        let from = p + self.open.len();
        let to = run_end(s, from, &self.stops);
        if to - from < self.least {
            return None;
        }
        if !starts_at(s, to, &self.close) {
            return None;
        }
        assert(to + self.close.len() <= s.len());
        Some(Found { start: p, from, to, end: to + self.close.len() })
    }

    /// The leftmost match of the field that begins at or after `p`.
    pub fn first(&self, s: &Vec<char>, p: usize) -> (r: Option<Found>)
        ensures
            match r {
                Some(m) => self@.first(s@, p as int) == Some(m@),
                None => self@.first(s@, p as int) is None,
            },
    {
        if p > s.len() {
            return None;
        }
        let mut k: usize = p;
        while k < s.len()
            invariant
                p <= k <= s.len(),
                self@.first(s@, p as int) == self@.first(s@, k as int),
            decreases s.len() - k,
        {
            let here = self.at(s, k);
            if here.is_some() {
                return here;
            }
            k += 1;
        }
        self.at(s, k)
    }

    /// What the leftmost match at or after `p` captures.
    pub fn capture_first(&self, s: &Vec<char>, p: usize) -> (r: Option<String>)
        ensures
            match r {
                Some(t) => captured(s@, self@.first(s@, p as int)) == Some(t@),
                None => captured(s@, self@.first(s@, p as int)) is None,
            },
    {
        match self.first(s, p) {
            Some(m) => {
                proof {
                    self@.lemma_first_is_leftmost(s@, p as int);
                    self@.lemma_at_fits(s@, m.start as int);
                }
                Some(string_of(s, m.from, m.to))
            },
            None => None,
        }
    }
}

} // verus!
