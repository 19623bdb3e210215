use vstd::prelude::*;
use vstd::std_specs::iter::IteratorSpec;
use vstd::string::StringExecFns;

verus! {

/// Whether `c` belongs to the Unicode `White_Space` set, the characters that
/// trimming removes.
pub open spec fn is_space(c: char) -> bool {
    let n = c as u32;
    ||| 0x09 <= n <= 0x0D
    ||| n == 0x20
    ||| n == 0x85
    ||| n == 0xA0
    ||| n == 0x1680
    ||| 0x2000 <= n <= 0x200A
    ||| n == 0x2028
    ||| n == 0x2029
    ||| n == 0x202F
    ||| n == 0x205F
    ||| n == 0x3000
}

/// Executable test for membership in the `White_Space` set.
pub fn char_is_space(c: char) -> (r: bool)
    ensures
        r == is_space(c),
{
    let n: u32 = c as u32;
    (0x09 <= n && n <= 0x0D) || n == 0x20 || n == 0x85 || n == 0xA0 || n == 0x1680 || (0x2000 <= n
        && n <= 0x200A) || n == 0x2028 || n == 0x2029 || n == 0x202F || n == 0x205F || n == 0x3000
}

/// `String::push` appends one character to the end of the string.
pub assume_specification[ String::push ](s: &mut String, c: char)
    ensures
        final(s)@ == old(s)@.push(c),
;

/// The characters of `s`, in order.
pub fn chars_of(s: &str) -> (r: Vec<char>)
    ensures
        r@ == s@,
{
    broadcast use vstd::string::group_string_axioms;

    let mut it = s.chars();
    let mut out: Vec<char> = Vec::new();
    loop
        invariant
            it.obeys_prophetic_iter_laws(),
            it.decrease() is Some,
            out@ + it.remaining() == s@,
        ensures
            out@ == s@,
        decreases it.decrease()->0,
    {
        let ghost before = it.remaining();
        match it.next() {
            Some(c) => {
                out.push(c);
                assert(out@ + it.remaining() =~= (out@.drop_last() + before));
            },
            None => {
                assert(out@ + it.remaining() =~= out@);
                break ;
            },
        }
    }
    out
}

/// The string made of the characters `v`, in order.
pub fn string_of(v: &Vec<char>) -> (r: String)
    ensures
        r@ == v@,
{
    let mut out: String = String::new();
    let mut i: usize = 0;
    while i < v.len()
        invariant
            i <= v.len(),
            out@ == v@.take(i as int),
        decreases v.len() - i,
    {
        out.push(v[i]);
        i = i + 1;
        assert(out@ =~= v@.take(i as int));
    }
    assert(v@.take(v.len() as int) =~= v@);
    out
}

/// A set of characters that can be trimmed from the ends of a text.
#[derive(Clone, Copy, Debug)]
pub enum CharClass {
    /// The Unicode `White_Space` characters.
    Space,
    /// One given character.
    Only(char),
    /// The Markdown markers that may wrap an answer: backtick and asterisk.
    Markup,
}

impl CharClass {
    /// Whether `c` belongs to the class.
    pub open spec fn holds(self, c: char) -> bool {
        match self {
            CharClass::Space => is_space(c),
            CharClass::Only(x) => c == x,
            CharClass::Markup => c == '`' || c == '*',
        }
    }

    /// Executable membership test.
    pub fn test(&self, c: char) -> (r: bool)
        ensures
            r == self.holds(c),
    {
        match self {
            CharClass::Space => char_is_space(c),
            CharClass::Only(x) => c == *x,
            CharClass::Markup => c == '`' || c == '*',
        }
    }
}

/// `s` without its longest prefix of characters of class `k`.
pub open spec fn trim_start(s: Seq<char>, k: CharClass) -> Seq<char>
    decreases s.len(),
{
    if s.len() > 0 && k.holds(s[0]) {
        trim_start(s.drop_first(), k)
    } else {
        s
    }
}

/// `s` without its longest suffix of characters of class `k`.
pub open spec fn trim_end(s: Seq<char>, k: CharClass) -> Seq<char>
    decreases s.len(),
{
    if s.len() > 0 && k.holds(s.last()) {
        trim_end(s.drop_last(), k)
    } else {
        s
    }
}

/// `s` with the characters of class `k` removed from both ends.
pub open spec fn trim(s: Seq<char>, k: CharClass) -> Seq<char> {
    trim_end(trim_start(s, k), k)
}

/// Trimming the start keeps a suffix of the text.
pub proof fn lemma_trim_start_is_suffix(s: Seq<char>, k: CharClass)
    ensures
        trim_start(s, k).len() <= s.len(),
        trim_start(s, k) == s.skip(s.len() - trim_start(s, k).len()),
    decreases s.len(),
{
    if s.len() > 0 && k.holds(s[0]) {
        let t = s.drop_first();
        lemma_trim_start_is_suffix(t, k);
        assert(t.skip(t.len() - trim_start(t, k).len()) =~= s.skip(
            s.len() - trim_start(s, k).len(),
        ));
    } else {
        assert(s.skip(0) =~= s);
    }
}

/// Trimming the end keeps a prefix of the text.
pub proof fn lemma_trim_end_is_prefix(s: Seq<char>, k: CharClass)
    ensures
        trim_end(s, k).len() <= s.len(),
        trim_end(s, k) == s.take(trim_end(s, k).len() as int),
    decreases s.len(),
{
    if s.len() > 0 && k.holds(s.last()) {
        let t = s.drop_last();
        lemma_trim_end_is_prefix(t, k);
        assert(t.take(trim_end(t, k).len() as int) =~= s.take(trim_end(s, k).len() as int));
    } else {
        assert(s.take(s.len() as int) =~= s);
    }
}

/// A text of which something is left after its start was trimmed is not
/// trimmed to nothing.
pub proof fn lemma_trim_nonempty(s: Seq<char>, k: CharClass)
    requires
        trim_start(s, k).len() > 0,
    ensures
        trim(s, k).len() > 0,
{
    let t = trim_start(s, k);
    lemma_trim_start_stops(s, k);
    lemma_trim_end_keeps_first(t, k);
}

/// What is left after the start was trimmed is empty or begins with a
/// character outside the class.
pub proof fn lemma_trim_start_stops(s: Seq<char>, k: CharClass)
    ensures
        trim_start(s, k).len() > 0 ==> !k.holds(trim_start(s, k)[0]),
    decreases s.len(),
{
    if s.len() > 0 && k.holds(s[0]) {
        lemma_trim_start_stops(s.drop_first(), k);
    }
}

/// Trimming the end of a text that begins with a character outside the
/// class leaves it non-empty.
pub proof fn lemma_trim_end_keeps_first(s: Seq<char>, k: CharClass)
    requires
        s.len() > 0,
        !k.holds(s[0]),
    ensures
        trim_end(s, k).len() > 0,
    decreases s.len(),
{
    if k.holds(s.last()) {
        assert(s.len() > 1);
        lemma_trim_end_keeps_first(s.drop_last(), k);
    }
}

/// The characters of `v` from index `lo` up to, not including, `hi`.
pub fn copy_range(v: &Vec<char>, lo: usize, hi: usize) -> (r: Vec<char>)
    requires
        lo <= hi <= v.len(),
    ensures
        r@ == v@.subrange(lo as int, hi as int),
{
    let mut out: Vec<char> = Vec::new();
    let mut i: usize = lo;
    while i < hi
        invariant
            lo <= i <= hi <= v.len(),
            out@ == v@.subrange(lo as int, i as int),
        decreases hi - i,
    {
        out.push(v[i]);
        i = i + 1;
        assert(out@ =~= v@.subrange(lo as int, i as int));
    }
    out
}

/// Index of the first character of `v` that is outside class `k`, or the
/// length of `v` if there is none.
pub fn trim_start_index(v: &Vec<char>, k: CharClass) -> (lo: usize)
    ensures
        lo <= v.len(),
        v@.skip(lo as int) == trim_start(v@, k),
{
    let mut lo: usize = 0;
    assert(v@.skip(0) =~= v@);
    while lo < v.len() && k.test(v[lo])
        invariant
            lo <= v.len(),
            trim_start(v@.skip(lo as int), k) == trim_start(v@, k),
        decreases v.len() - lo,
    {
        assert(v@.skip(lo as int).drop_first() =~= v@.skip(lo + 1));
        lo = lo + 1;
    }
    lo
}

/// Length of `v` after the characters of class `k` have been removed from
/// its end.
pub fn trim_end_index(v: &Vec<char>, k: CharClass) -> (hi: usize)
    ensures
        hi <= v.len(),
        v@.take(hi as int) == trim_end(v@, k),
{
    let mut hi: usize = v.len();
    assert(v@.take(hi as int) =~= v@);
    while hi > 0 && k.test(v[hi - 1])
        invariant
            hi <= v.len(),
            trim_end(v@.take(hi as int), k) == trim_end(v@, k),
        decreases hi,
    {
        assert(v@.take(hi as int).drop_last() =~= v@.take(hi - 1));
        hi = hi - 1;
    }
    hi
}

/// `v` with the characters of class `k` removed from both ends.
pub fn trimmed(v: &Vec<char>, k: CharClass) -> (r: Vec<char>)
    ensures
        r@ == trim(v@, k),
{
    let lo: usize = trim_start_index(v, k);
    let tail: Vec<char> = copy_range(v, lo, v.len());
    assert(tail@ =~= v@.skip(lo as int));
    let hi: usize = trim_end_index(&tail, k);
    let out: Vec<char> = copy_range(&tail, 0, hi);
    assert(out@ =~= tail@.take(hi as int));
    out
}

/// `v` with the characters of class `k` removed from its end.
pub fn trimmed_end(v: &Vec<char>, k: CharClass) -> (r: Vec<char>)
    ensures
        r@ == trim_end(v@, k),
{
    let hi: usize = trim_end_index(v, k);
    let out: Vec<char> = copy_range(v, 0, hi);
    assert(out@ =~= v@.take(hi as int));
    out
}

/// Appends the characters of `more` to `out`.
pub fn push_all(out: &mut Vec<char>, more: &Vec<char>)
    ensures
        final(out)@ == old(out)@ + more@,
{
    let mut i: usize = 0;
    while i < more.len()
        invariant
            i <= more.len(),
            out@ == old(out)@ + more@.take(i as int),
        decreases more.len() - i,
    {
        out.push(more[i]);
        i = i + 1;
        assert(out@ =~= old(out)@ + more@.take(i as int));
    }
    assert(more@.take(more.len() as int) =~= more@);
}

/// Appends the characters of the text `more` to `out`.
pub fn push_text(out: &mut Vec<char>, more: &str)
    ensures
        final(out)@ == old(out)@ + more@,
{
    let chars: Vec<char> = chars_of(more);
    push_all(out, &chars);
}

/// Whether the two sequences hold the same characters.
pub fn same_chars(a: &Vec<char>, b: &Vec<char>) -> (r: bool)
    ensures
        r == (a@ == b@),
{
    if a.len() != b.len() {
        return false;
    }
    let mut i: usize = 0;
    while i < a.len()
        invariant
            a.len() == b.len(),
            i <= a.len(),
            a@.take(i as int) == b@.take(i as int),
        decreases a.len() - i,
    {
        if a[i] != b[i] {
            return false;
        }
        i = i + 1;
        assert(a@.take(i as int) =~= a@.take(i - 1).push(a@[i - 1]));
        assert(b@.take(i as int) =~= b@.take(i - 1).push(b@[i - 1]));
    }
    assert(a@.take(a.len() as int) =~= a@);
    assert(b@.take(b.len() as int) =~= b@);
    true
}

/// Whether `v` holds exactly the characters of the text `lit`.
pub fn is_text(v: &Vec<char>, lit: &str) -> (r: bool)
    ensures
        r == (v@ == lit@),
{
    let other: Vec<char> = chars_of(lit);
    same_chars(v, &other)
}

/// The text `a` followed by the text `b`.
pub fn join2(a: &str, b: &str) -> (r: String)
    ensures
        r@ == a@ + b@,
{
    let mut out: String = String::from_str(a);
    out.append(b);
    out
}

/// The texts `a`, `b` and `c`, one after the other.
pub fn join3(a: &str, b: &str, c: &str) -> (r: String)
    ensures
        r@ == a@ + b@ + c@,
{
    let mut out: String = String::from_str(a);
    out.append(b);
    out.append(c);
    out
}

/// The decimal digit of a number below ten.
pub open spec fn digit(n: nat) -> char {
    (0x30 + n) as u8 as char
}

/// The number in decimal, without leading zeros.
pub open spec fn decimal(n: nat) -> Seq<char>
    decreases n,
{
    if n < 10 {
        seq![digit(n)]
    } else {
        decimal(n / 10).push(digit(n % 10))
    }
}

/// Appends the number in decimal to `out`.
pub fn push_decimal(out: &mut Vec<char>, n: usize)
    ensures
        final(out)@ == old(out)@ + decimal(n as nat),
    decreases n,
{
    if n >= 10 {
        push_decimal(out, n / 10);
    }
    let d: u8 = (n % 10) as u8;
    let c: char = (0x30 + d) as char;
    out.push(c);
    assert(out@ =~= old(out)@ + decimal(n as nat));
}

} // verus!
