//! Character sequences: conversions between strings and vectors of
//! characters, and the searches that the scanners are built from.
//!
//! Every search is stated over `Seq<char>`, the view of a string.

use vstd::prelude::*;

verus! {

/// `String::push` appends one character to the string and leaves the
/// characters before it as they were.
pub assume_specification[ String::push ](s: &mut String, ch: char)
    ensures
        final(s)@ == old(s)@.push(ch),
;

/// Whether `lit` stands in `s` at position `p`.
pub open spec fn has_at(s: Seq<char>, p: int, lit: Seq<char>) -> bool {
    &&& 0 <= p
    &&& p + lit.len() <= s.len()
    &&& s.subrange(p, p + lit.len()) == lit
}

/// Whether `lit` stands somewhere in `s`.
pub open spec fn occurs_in(s: Seq<char>, lit: Seq<char>) -> bool {
    exists|p: int| has_at(s, p, lit)
}

/// The first position at or after `p` that holds one of `stops`, or the
/// length of `s` where there is none.
pub open spec fn stop_from(s: Seq<char>, p: int, stops: Seq<char>) -> int
    decreases s.len() - p,
{
    if p < 0 || p >= s.len() || stops.contains(s[p]) {
        p
    } else {
        stop_from(s, p + 1, stops)
    }
}

/// `stop_from` ends a run of characters that are free of `stops`, and ends
/// it on one of `stops` unless the text ends first.
pub proof fn lemma_stop_from(s: Seq<char>, p: int, stops: Seq<char>)
    requires
        0 <= p <= s.len(),
    ensures
        p <= stop_from(s, p, stops) <= s.len(),
        stop_from(s, p, stops) < s.len() ==> stops.contains(s[stop_from(s, p, stops)]),
        forall|i: int| p <= i < stop_from(s, p, stops) ==> !stops.contains(#[trigger] s[i]),
    decreases s.len() - p,
{
    if p < s.len() && !stops.contains(s[p]) {
        lemma_stop_from(s, p + 1, stops);
    }
}

/// A run that is free of `stops` and ends on one of them, or with the text,
/// ends where `stop_from` says.
pub proof fn lemma_stop_is(s: Seq<char>, p: int, q: int, stops: Seq<char>)
    requires
        0 <= p <= q <= s.len(),
        forall|i: int| p <= i < q ==> !stops.contains(#[trigger] s[i]),
        q < s.len() ==> stops.contains(s[q]),
    ensures
        stop_from(s, p, stops) == q,
    decreases q - p,
{
    if p < q {
        lemma_stop_is(s, p + 1, q, stops);
    }
}

/// A text that is not empty stands at `p` where its first character does
/// and the rest of it stands behind that.
pub proof fn lemma_has_at_split(s: Seq<char>, p: int, lit: Seq<char>)
    requires
        lit.len() > 0,
    ensures
        has_at(s, p, lit) == (0 <= p < s.len() && s[p] == lit[0] && has_at(
            s,
            p + 1,
            lit.drop_first(),
        )),
{
    let rest = lit.drop_first();
    if has_at(s, p, lit) {
        assert(s.subrange(p, p + lit.len())[0] == lit[0]);
        assert forall|i: int| 0 <= i < rest.len() implies s.subrange(p + 1, p + 1 + rest.len())[i]
            == rest[i] by {
            assert(s.subrange(p, p + lit.len())[i + 1] == lit[i + 1]);
        }
        assert(s.subrange(p + 1, p + 1 + rest.len()) =~= rest);
    }
    if 0 <= p < s.len() && s[p] == lit[0] && has_at(s, p + 1, rest) {
        assert forall|i: int| 0 <= i < lit.len() implies s.subrange(p, p + lit.len())[i]
            == lit[i] by {
            if i > 0 {
                assert(s.subrange(p + 1, p + 1 + rest.len())[i - 1] == rest[i - 1]);
            }
        }
        assert(s.subrange(p, p + lit.len()) =~= lit);
    }
}

/// A run does not end before it begins.
pub proof fn lemma_stop_not_before(s: Seq<char>, p: int, stops: Seq<char>)
    ensures
        p <= stop_from(s, p, stops),
    decreases s.len() - p,
{
    if 0 <= p < s.len() && !stops.contains(s[p]) {
        lemma_stop_not_before(s, p + 1, stops);
    }
}

/// A text stands behind a prefix where it stood without the prefix.
pub proof fn lemma_has_at_after(pre: Seq<char>, s: Seq<char>, p: int, lit: Seq<char>)
    requires
        0 <= p,
    ensures
        has_at(pre + s, pre.len() + p, lit) == has_at(s, p, lit),
{
    if p + lit.len() <= s.len() {
        assert((pre + s).subrange(pre.len() + p, pre.len() + p + lit.len()) =~= s.subrange(
            p,
            p + lit.len(),
        ));
    }
}

/// A run ends behind a prefix where it ended without the prefix.
pub proof fn lemma_stop_from_after(pre: Seq<char>, s: Seq<char>, p: int, stops: Seq<char>)
    requires
        0 <= p,
    ensures
        stop_from(pre + s, pre.len() + p, stops) == pre.len() + stop_from(s, p, stops),
    decreases s.len() - p,
{
    if p < s.len() {
        assert((pre + s)[pre.len() + p] == s[p]);
        if !stops.contains(s[p]) {
            lemma_stop_from_after(pre, s, p + 1, stops);
        }
    }
}

/// A run that does not hold `c` holds none of the stops `[c]`.
pub proof fn lemma_free_of(run: Seq<char>, stops: Seq<char>, c: char)
    requires
        stops.len() == 1,
        stops[0] == c,
        !run.contains(c),
    ensures
        stops.contains(c),
        forall|j: int| 0 <= j < run.len() ==> !stops.contains(#[trigger] run[j]),
{
    assert forall|j: int| 0 <= j < run.len() implies !stops.contains(#[trigger] run[j]) by {
        if stops.contains(run[j]) {
            assert(run[j] == c);
            assert(run.contains(c));
        }
    }
}

/// The characters of a string slice, in order.
pub fn chars_of(s: &str) -> (v: Vec<char>)
    ensures
        v@ == s@,
{
    let mut v: Vec<char> = Vec::new();
    for c in it: s.chars()
        invariant
            it.seq() == s@,
            v@ == it.seq().take(it.index() as int),
    {
        v.push(c);
    }
    assert(v@ == s@);
    v
}

/// The string made of the characters `v[from..to]`.
pub fn string_of(v: &Vec<char>, from: usize, to: usize) -> (s: String)
    requires
        from <= to <= v.len(),
    ensures
        s@ == v@.subrange(from as int, to as int),
{
    let mut s = String::new();
    let mut i: usize = from;
    while i < to
        invariant
            from <= i <= to <= v.len(),
            s@ == v@.subrange(from as int, i as int),
        decreases to - i,
    {
        s.push(v[i]);
        i += 1;
    }
    s
}

/// Whether `lit` stands in `s` at position `p`.
pub fn starts_at(s: &Vec<char>, p: usize, lit: &Vec<char>) -> (b: bool)
    ensures
        b == has_at(s@, p as int, lit@),
{
    if p > s.len() || lit.len() > s.len() - p {
        return false;
    }
    let mut i: usize = 0;
    while i < lit.len()
        invariant
            p + lit.len() <= s.len(),
            i <= lit.len(),
            forall|j: int| 0 <= j < i ==> s@[p + j] == lit@[j],
        decreases lit.len() - i,
    {
        if s[p + i] != lit[i] {
            assert(s@.subrange(p as int, p + lit.len())[i as int] == s@[p + i]);
            return false;
        }
        i += 1;
    }
    assert(s@.subrange(p as int, p + lit.len()) =~= lit@);
    true
}

/// Whether `c` is one of `set`.
pub fn is_one_of(set: &Vec<char>, c: char) -> (b: bool)
    ensures
        b == set@.contains(c),
{
    let mut i: usize = 0;
    while i < set.len()
        invariant
            i <= set.len(),
            forall|j: int| 0 <= j < i ==> set@[j] != c,
        decreases set.len() - i,
    {
        if set[i] == c {
            return true;
        }
        i += 1;
    }
    false
}

/// The end of the run of characters free of `stops` that begins at `p`.
pub fn run_end(s: &Vec<char>, p: usize, stops: &Vec<char>) -> (q: usize)
    ensures
        q == stop_from(s@, p as int, stops@),
        p <= q,
        p <= s.len() ==> q <= s.len(),
{
    let mut q: usize = p;
    while q < s.len() && !is_one_of(stops, s[q])
        invariant
            p <= q,
            p <= s.len() ==> q <= s.len(),
            stop_from(s@, p as int, stops@) == stop_from(s@, q as int, stops@),
        decreases s.len() - q,
    {
        q += 1;
    }
    q
}

/// Whether `lit` stands somewhere in `s`.
pub fn contains_text(s: &Vec<char>, lit: &Vec<char>) -> (b: bool)
    ensures
        b == occurs_in(s@, lit@),
{
    let mut p: usize = 0;
    while p < s.len()
        invariant
            p <= s.len(),
            forall|k: int| 0 <= k < p ==> !has_at(s@, k, lit@),
        decreases s.len() - p,
    {
        if starts_at(s, p, lit) {
            return true;
        }
        p += 1;
    }
    starts_at(s, p, lit)
}

} // verus!
