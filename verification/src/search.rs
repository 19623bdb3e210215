use crate::text::copy_range;
use vstd::prelude::*;

verus! {

/// Whether `pat` stands in `s` at index `i`.
pub open spec fn occurs_at(s: Seq<char>, pat: Seq<char>, i: int) -> bool {
    0 <= i && i + pat.len() <= s.len() && s.subrange(i, i + pat.len()) == pat
}

/// The largest index not above `k` at which `pat` stands in `s`, or -1.
pub open spec fn last_index_upto(s: Seq<char>, pat: Seq<char>, k: int) -> int
    decreases k + 1,
{
    if k < 0 {
        -1
    } else if occurs_at(s, pat, k) {
        k
    } else {
        last_index_upto(s, pat, k - 1)
    }
}

/// The index of the last occurrence of `pat` in `s`, or -1 if there is none.
pub open spec fn last_index(s: Seq<char>, pat: Seq<char>) -> int {
    last_index_upto(s, pat, s.len() - pat.len())
}

/// `last_index_upto` returns an occurrence that no later one up to `k`
/// follows, or -1 where none stands at or below `k`.
pub proof fn lemma_last_index_upto(s: Seq<char>, pat: Seq<char>, k: int)
    ensures
        -1 <= last_index_upto(s, pat, k),
        last_index_upto(s, pat, k) <= k || k < -1,
        last_index_upto(s, pat, k) >= 0 ==> occurs_at(s, pat, last_index_upto(s, pat, k)),
        forall|j: int| last_index_upto(s, pat, k) < j <= k ==> !occurs_at(s, pat, j),
    decreases k + 1,
{
    if k >= 0 && !occurs_at(s, pat, k) {
        lemma_last_index_upto(s, pat, k - 1);
    }
}

/// What `last_index` finds: the occurrence after which `pat` does not occur
/// again, or -1 exactly when `pat` occurs nowhere in `s`.
pub proof fn lemma_last_index(s: Seq<char>, pat: Seq<char>)
    ensures
        -1 <= last_index(s, pat),
        last_index(s, pat) >= 0 ==> occurs_at(s, pat, last_index(s, pat)),
        forall|j: int| last_index(s, pat) < j ==> !occurs_at(s, pat, j),
{
    lemma_last_index_upto(s, pat, s.len() - pat.len());
}

/// Whether `pat` stands in `v` at index `i`.
pub fn matches_at(v: &Vec<char>, pat: &Vec<char>, i: usize) -> (r: bool)
    ensures
        r == occurs_at(v@, pat@, i as int),
{
    if pat.len() > v.len() || i > v.len() - pat.len() {
        return false;
    }
    let mut j: usize = 0;
    while j < pat.len()
        invariant
            i + pat.len() <= v.len(),
            j <= pat.len(),
            v@.subrange(i as int, i + j) == pat@.take(j as int),
        decreases pat.len() - j,
    {
        if v[i + j] != pat[j] {
            assert(v@.subrange(i as int, i + pat.len())[j as int] != pat@[j as int]);
            return false;
        }
        j = j + 1;
        assert(v@.subrange(i as int, i + j) =~= v@.subrange(i as int, i + j - 1).push(
            v@[i + j - 1],
        ));
        assert(pat@.take(j as int) =~= pat@.take(j - 1).push(pat@[j - 1]));
    }
    assert(pat@.take(pat.len() as int) =~= pat@);
    true
}

/// The index of the last occurrence of `pat` in `v`, if there is one.
pub fn find_last(v: &Vec<char>, pat: &Vec<char>) -> (r: Option<usize>)
    ensures
        match r {
            Some(i) => last_index(v@, pat@) == i,
            None => last_index(v@, pat@) == -1,
        },
{
    if pat.len() > v.len() {
        return None;
    }
    let mut k: usize = v.len() - pat.len();
    loop
        invariant
            pat.len() <= v.len(),
            k <= v.len() - pat.len(),
            last_index(v@, pat@) == last_index_upto(v@, pat@, k as int),
        decreases k,
    {
        if matches_at(v, pat, k) {
            return Some(k);
        }
        if k == 0 {
            assert(last_index_upto(v@, pat@, -1) == -1);
            return None;
        }
        k = k - 1;
    }
}

/// `s` with each occurrence of `pat` replaced by `rep`, the occurrences taken
/// from the left and not overlapping. An empty `pat` leaves `s` as it is.
pub open spec fn replace_all(s: Seq<char>, pat: Seq<char>, rep: Seq<char>) -> Seq<char>
    decreases s.len(),
{
    if pat.len() == 0 || s.len() < pat.len() {
        s
    } else if occurs_at(s, pat, 0) {
        rep + replace_all(s.skip(pat.len() as int), pat, rep)
    } else {
        seq![s[0]] + replace_all(s.skip(1), pat, rep)
    }
}

/// `v` with each occurrence of `pat` replaced by `rep`.
pub fn replaced(v: &Vec<char>, pat: &Vec<char>, rep: &Vec<char>) -> (r: Vec<char>)
    ensures
        r@ == replace_all(v@, pat@, rep@),
{
    if pat.len() == 0 {
        return copy_range(v, 0, v.len());
    }
    let mut out: Vec<char> = Vec::new();
    let mut i: usize = 0;
    assert(v@.skip(0) =~= v@);
    while i < v.len()
        invariant
            pat.len() > 0,
            i <= v.len(),
            out@ + replace_all(v@.skip(i as int), pat@, rep@) == replace_all(v@, pat@, rep@),
        decreases v.len() - i,
    {
        let ghost rest = v@.skip(i as int);
        let ghost before = out@;
        if matches_at(v, pat, i) {
            assert(rest.subrange(0, pat.len() as int) =~= v@.subrange(i as int, i + pat.len()));
            assert(occurs_at(rest, pat@, 0));
            crate::text::push_all(&mut out, rep);
            i = i + pat.len();
            assert(rest.skip(pat.len() as int) =~= v@.skip(i as int));
            assert(out@ + replace_all(v@.skip(i as int), pat@, rep@) =~= before + (rep@
                + replace_all(rest.skip(pat.len() as int), pat@, rep@)));
        } else {
            assert(rest.len() >= pat.len() ==> rest.subrange(0, pat.len() as int) =~= v@.subrange(
                i as int,
                i + pat.len(),
            ));
            assert(!occurs_at(rest, pat@, 0));
            out.push(v[i]);
            i = i + 1;
            assert(rest.skip(1) =~= v@.skip(i as int));
            proof {
                if rest.len() < pat@.len() {
                    lemma_replace_short(rest, pat@, rep@);
                    lemma_replace_short(rest.skip(1), pat@, rep@);
                    assert(seq![rest[0]] + rest.skip(1) =~= rest);
                }
            }
            assert(out@ + replace_all(v@.skip(i as int), pat@, rep@) =~= before + (seq![rest[0]]
                + replace_all(rest.skip(1), pat@, rep@)));
        }
    }
    assert(out@ + Seq::<char>::empty() =~= out@);
    out
}

/// A text shorter than the pattern is left as it is.
pub proof fn lemma_replace_short(s: Seq<char>, pat: Seq<char>, rep: Seq<char>)
    requires
        s.len() < pat.len(),
    ensures
        replace_all(s, pat, rep) == s,
{
}

/// Whether `s` begins with `pat`.
pub open spec fn starts_with(s: Seq<char>, pat: Seq<char>) -> bool {
    occurs_at(s, pat, 0)
}

/// Whether `s` ends with `pat`.
pub open spec fn ends_with(s: Seq<char>, pat: Seq<char>) -> bool {
    occurs_at(s, pat, s.len() - pat.len())
}

/// Whether `v` begins with `pat`.
pub fn has_prefix(v: &Vec<char>, pat: &Vec<char>) -> (r: bool)
    ensures
        r == starts_with(v@, pat@),
{
    matches_at(v, pat, 0)
}

/// Whether `v` ends with `pat`.
pub fn has_suffix(v: &Vec<char>, pat: &Vec<char>) -> (r: bool)
    ensures
        r == ends_with(v@, pat@),
{
    if pat.len() > v.len() {
        return false;
    }
    matches_at(v, pat, v.len() - pat.len())
}

/// `s` with the suffix `pat` removed for as long as it ends with it. An empty
/// `pat` leaves `s` as it is.
pub open spec fn strip_suffixes(s: Seq<char>, pat: Seq<char>) -> Seq<char>
    decreases s.len(),
{
    if pat.len() > 0 && ends_with(s, pat) {
        strip_suffixes(s.take(s.len() - pat.len()), pat)
    } else {
        s
    }
}

/// `v` with the suffix `pat` removed for as long as it ends with it.
pub fn without_suffixes(v: &Vec<char>, pat: &Vec<char>) -> (r: Vec<char>)
    ensures
        r@ == strip_suffixes(v@, pat@),
{
    let mut hi: usize = v.len();
    assert(v@.take(hi as int) =~= v@);
    if pat.len() == 0 {
        return copy_range(v, 0, hi);
    }
    loop
        invariant
            pat.len() > 0,
            hi <= v.len(),
            strip_suffixes(v@.take(hi as int), pat@) == strip_suffixes(v@, pat@),
        decreases hi,
    {
        let head: Vec<char> = copy_range(v, 0, hi);
        assert(head@ =~= v@.take(hi as int));
        if !has_suffix(&head, pat) {
            return head;
        }
        assert(head@.take(head@.len() - pat.len()) =~= v@.take(hi - pat.len()));
        hi = hi - pat.len();
    }
}

/// How many characters of `s` stand before its first `c`; all where it has
/// none.
pub open spec fn piece_len(s: Seq<char>, c: char) -> nat
    decreases s.len(),
{
    if s.len() == 0 || s[0] == c {
        0
    } else {
        1 + piece_len(s.drop_first(), c)
    }
}

/// The length of a piece is within the text.
pub proof fn lemma_piece_len(s: Seq<char>, c: char)
    ensures
        piece_len(s, c) <= s.len(),
        piece_len(s, c) < s.len() ==> s[piece_len(s, c) as int] == c,
        forall|i: int| 0 <= i < piece_len(s, c) ==> s[i] != c,
    decreases s.len(),
{
    if s.len() > 0 && s[0] != c {
        lemma_piece_len(s.drop_first(), c);
        assert forall|i: int| 0 <= i < piece_len(s, c) implies s[i] != c by {
            if i > 0 {
                assert(s.drop_first()[i - 1] == s[i]);
            }
        }
    }
}

/// The index of the first `c` in `v` at or after `from`, or the length of
/// `v` where there is none.
pub fn piece_end(v: &Vec<char>, from: usize, c: char) -> (end: usize)
    requires
        from <= v.len(),
    ensures
        from <= end <= v.len(),
        end - from == piece_len(v@.skip(from as int), c),
{
    let mut end: usize = from;
    let ghost rest = v@.skip(from as int);
    proof {
        lemma_piece_len(rest, c);
        assert(rest.skip(0) =~= rest);
    }
    while end < v.len() && v[end] != c
        invariant
            from <= end <= v.len(),
            rest == v@.skip(from as int),
            piece_len(rest, c) == (end - from) + piece_len(rest.skip(end - from), c),
        decreases v.len() - end,
    {
        let ghost tail = rest.skip(end - from);
        assert(tail[0] == v@[end as int]);
        assert(tail.drop_first() =~= rest.skip(end - from + 1));
        end = end + 1;
    }
    proof {
        let tail = rest.skip(end - from);
        if end < v.len() {
            assert(tail[0] == v@[end as int]);
        }
        assert(rest.skip(0) =~= rest);
    }
    end
}

} // verus!
