use crate::search::{find_last, last_index, lemma_last_index, occurs_at};
use crate::text::{
    chars_of, copy_range, lemma_trim_end_is_prefix, lemma_trim_start_is_suffix, string_of, trim,
    trim_start, trimmed, CharClass,
};
use vstd::prelude::*;

verus! {

/// `c` with an ASCII capital letter turned into its small letter.
pub open spec fn lower(c: char) -> char {
    if 'A' <= c <= 'Z' {
        ((c as u8) + 32) as char
    } else {
        c
    }
}

/// `s` with every ASCII capital letter turned into its small letter.
pub open spec fn folded(s: Seq<char>) -> Seq<char> {
    Seq::new(s.len(), |i: int| lower(s[i]))
}

/// The marker that separates a reasoning trace from the answer, in small
/// letters. It is looked for without regard to the case of ASCII letters.
pub open spec fn marker() -> Seq<char> {
    "final answer:"@
}

/// Where the last marker begins in `s`, or -1 if `s` holds none.
pub open spec fn marker_index(s: Seq<char>) -> int {
    last_index(folded(s), marker())
}

/// The answer that a transcript carries: what follows its last marker, with
/// white space trimmed and then the Markdown markers around it removed; the
/// whole transcript where it holds no marker.
pub open spec fn cleaned(s: Seq<char>) -> Seq<char> {
    let i = marker_index(s);
    if i < 0 {
        s
    } else {
        trim(trim(s.skip(i + marker().len()), CharClass::Space), CharClass::Markup)
    }
}

/// Executable form of `lower`.
pub fn lower_char(c: char) -> (r: char)
    ensures
        r == lower(c),
{
    if 'A' <= c && c <= 'Z' {
        let n: u8 = c as u8;
        (n + 32) as char
    } else {
        c
    }
}

/// Executable form of `folded`.
pub fn fold_all(v: &Vec<char>) -> (r: Vec<char>)
    ensures
        r@ == folded(v@),
{
    let mut out: Vec<char> = Vec::new();
    let mut i: usize = 0;
    while i < v.len()
        invariant
            i <= v.len(),
            out@ == folded(v@.take(i as int)),
        decreases v.len() - i,
    {
        out.push(lower_char(v[i]));
        i = i + 1;
        assert(out@ =~= folded(v@.take(i as int)));
    }
    assert(v@.take(v.len() as int) =~= v@);
    out
}

/// Extracts the final answer from a raw transcript.
pub fn clean(raw: &str) -> (r: String)
    ensures
        r@ == cleaned(raw@),
{
    let v: Vec<char> = chars_of(raw);
    let low: Vec<char> = fold_all(&v);
    let m: Vec<char> = chars_of("final answer:");
    match find_last(&low, &m) {
        None => string_of(&v),
        Some(i) => {
            proof {
                lemma_last_index(low@, m@);
                assert(occurs_at(low@, m@, i as int));
                assert(low@.len() == v@.len());
            }
            let n: usize = v.len();
            assert(i + m.len() <= n);
            let rest: Vec<char> = copy_range(&v, i + m.len(), n);
            assert(rest@ =~= v@.skip(i + m.len()));
            let inner: Vec<char> = trimmed(&rest, CharClass::Space);
            let bare: Vec<char> = trimmed(&inner, CharClass::Markup);
            string_of(&bare)
        },
    }
}

/// Trimming keeps a contiguous part of the text: the bounds of that part.
pub proof fn lemma_trim_bounds(s: Seq<char>, k: CharClass) -> (b: (int, int))
    ensures
        0 <= b.0 <= b.1 <= s.len(),
        trim(s, k) == s.subrange(b.0, b.1),
{
    let t = trim_start(s, k);
    lemma_trim_start_is_suffix(s, k);
    lemma_trim_end_is_prefix(t, k);
    let lo = s.len() - t.len();
    let hi = lo + trim(s, k).len();
    assert(trim(s, k) =~= s.subrange(lo, hi));
    (lo, hi)
}

/// A transcript without a marker is its own answer.
pub proof fn lemma_clean_without_marker(s: Seq<char>)
    requires
        marker_index(s) < 0,
    ensures
        cleaned(s) == s,
{
}

/// The answer that `cleaned` extracts holds no marker.
pub proof fn lemma_cleaned_has_no_marker(s: Seq<char>)
    ensures
        marker_index(s) >= 0 ==> marker_index(cleaned(s)) < 0,
{
    reveal_strlit("final answer:");
    let i = marker_index(s);
    let m = marker();
    lemma_last_index(folded(s), m);
    if i >= 0 {
        let start = i + m.len();
        let rest = s.skip(start);
        let b1 = lemma_trim_bounds(rest, CharClass::Space);
        let inner = trim(rest, CharClass::Space);
        let b2 = lemma_trim_bounds(inner, CharClass::Markup);
        let out = cleaned(s);
        let a = start + b1.0 + b2.0;
        assert(out =~= s.subrange(a, a + out.len()));
        lemma_last_index(folded(out), m);
        let j = marker_index(out);
        if j >= 0 {
            assert(occurs_at(folded(out), m, j));
            assert(folded(s).subrange(a + j, a + j + m.len()) =~= folded(out).subrange(
                j,
                j + m.len(),
            ));
            assert(occurs_at(folded(s), m, a + j));
            assert(false);
        }
    }
}

/// Cleaning is idempotent: a cleaned answer is cleaned to itself.
pub proof fn lemma_clean_idempotent(s: Seq<char>)
    ensures
        cleaned(cleaned(s)) == cleaned(s),
{
    lemma_cleaned_has_no_marker(s);
}

} // verus!
