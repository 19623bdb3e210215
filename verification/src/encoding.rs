use crate::search::{occurs_at, replace_all, replaced};
use crate::text::{chars_of, string_of};
use vstd::prelude::*;
use vstd::utf8::encode_utf8;

verus! {

/// The bytes that form encoding writes as they are: ASCII letters and digits
/// and the four marks `*`, `-`, `.` and `_`.
pub open spec fn kept_byte(b: u8) -> bool {
    ||| b == 0x2A
    ||| b == 0x2D
    ||| b == 0x2E
    ||| b == 0x5F
    ||| 0x30 <= b <= 0x39
    ||| 0x41 <= b <= 0x5A
    ||| 0x61 <= b <= 0x7A
}

/// The hexadecimal digit of a number below sixteen, in capitals.
pub open spec fn hex_digit(n: u8) -> char {
    if n < 10 {
        (0x30 + n) as char
    } else {
        (0x37 + n) as char
    }
}

/// A byte written as `%` and its two hexadecimal digits.
pub open spec fn escaped_byte(b: u8) -> Seq<char> {
    seq!['%', hex_digit(b / 16), hex_digit(b % 16)]
}

/// One byte in form encoding: kept, or `+` for a space, or escaped.
pub open spec fn form_byte(b: u8) -> Seq<char> {
    if kept_byte(b) {
        seq![b as char]
    } else if b == 0x20 {
        seq!['+']
    } else {
        escaped_byte(b)
    }
}

/// The bytes in form encoding (`application/x-www-form-urlencoded`).
pub open spec fn form_encoded(bytes: Seq<u8>) -> Seq<char>
    decreases bytes.len(),
{
    if bytes.len() == 0 {
        Seq::empty()
    } else {
        form_byte(bytes[0]) + form_encoded(bytes.drop_first())
    }
}

/// One byte in percent encoding: kept or escaped. A space is escaped.
pub open spec fn percent_byte(b: u8) -> Seq<char> {
    if kept_byte(b) {
        seq![b as char]
    } else {
        escaped_byte(b)
    }
}

/// The bytes in percent encoding.
pub open spec fn percent_encoded(bytes: Seq<u8>) -> Seq<char>
    decreases bytes.len(),
{
    if bytes.len() == 0 {
        Seq::empty()
    } else {
        percent_byte(bytes[0]) + percent_encoded(bytes.drop_first())
    }
}

/// A text in percent encoding: the encoding of its UTF-8 bytes.
pub open spec fn percent_encoded_text(text: Seq<char>) -> Seq<char> {
    percent_encoded(encode_utf8(text))
}

/// Calls `url::form_urlencoded::byte_serialize` on the UTF-8 bytes of `text`
/// and collects the pieces. The contract claims that the outcome is the form
/// encoding of those bytes, byte by byte, as `form_encoded` writes it.
#[verifier::external_body]
fn form_encode(text: &str) -> (r: String)
    ensures
        r@ == form_encoded(encode_utf8(text@)),
{
    url::form_urlencoded::byte_serialize(text.as_bytes()).collect()
}

/// Replacing a one-character pattern goes through a text piece by piece.
pub proof fn lemma_replace_one_concat(a: Seq<char>, b: Seq<char>, c: char, rep: Seq<char>)
    ensures
        replace_all(a + b, seq![c], rep) == replace_all(a, seq![c], rep) + replace_all(
            b,
            seq![c],
            rep,
        ),
    decreases a.len(),
{
    let pat = seq![c];
    if a.len() == 0 {
        assert(a + b =~= b);
        assert(replace_all(a, pat, rep) =~= Seq::<char>::empty());
        assert(Seq::<char>::empty() + replace_all(b, pat, rep) =~= replace_all(b, pat, rep));
    } else {
        let ab = a + b;
        assert(ab.skip(1) =~= a.skip(1) + b);
        assert(ab.subrange(0, 1) =~= a.subrange(0, 1));
        assert(occurs_at(ab, pat, 0) == occurs_at(a, pat, 0));
        lemma_replace_one_concat(a.skip(1), b, c, rep);
        if occurs_at(a, pat, 0) {
            assert(replace_all(ab, pat, rep) =~= rep + (replace_all(a.skip(1), pat, rep)
                + replace_all(b, pat, rep)));
        } else {
            assert(replace_all(ab, pat, rep) =~= seq![a[0]] + (replace_all(a.skip(1), pat, rep)
                + replace_all(b, pat, rep)));
        }
    }
}

/// A text without the character `c` is left as it is when `c` is replaced.
pub proof fn lemma_replace_one_absent(a: Seq<char>, c: char, rep: Seq<char>)
    requires
        forall|i: int| 0 <= i < a.len() ==> a[i] != c,
    ensures
        replace_all(a, seq![c], rep) == a,
    decreases a.len(),
{
    let pat = seq![c];
    if a.len() > 0 {
        assert(a.subrange(0, 1)[0] == a[0]);
        assert(!occurs_at(a, pat, 0));
        lemma_replace_one_absent(a.skip(1), c, rep);
        assert(seq![a[0]] + a.skip(1) =~= a);
    }
}

/// Percent encoding is form encoding with each `+` written as `%20`.
pub proof fn lemma_percent_from_form(bytes: Seq<u8>)
    ensures
        replace_all(form_encoded(bytes), seq!['+'], seq!['%', '2', '0']) == percent_encoded(bytes),
    decreases bytes.len(),
{
    let plus = seq!['+'];
    let esc = seq!['%', '2', '0'];
    if bytes.len() == 0 {
        assert(replace_all(Seq::<char>::empty(), plus, esc) =~= Seq::<char>::empty());
    } else {
        let b = bytes[0];
        let rest = bytes.drop_first();
        lemma_percent_from_form(rest);
        lemma_replace_one_concat(form_byte(b), form_encoded(rest), '+', esc);
        if !kept_byte(b) && b == 0x20 {
            let one = seq!['+'];
            assert(one.subrange(0, 1) =~= plus);
            assert(occurs_at(one, plus, 0));
            assert(one.skip(1) =~= Seq::<char>::empty());
            assert(replace_all(one.skip(1), plus, esc) =~= Seq::<char>::empty());
            assert(replace_all(one, plus, esc) =~= esc);
            assert(escaped_byte(b) =~= esc);
        } else {
            assert forall|i: int| 0 <= i < form_byte(b).len() implies form_byte(b)[i] != '+' by {
                if kept_byte(b) {
                    assert(b != 0x2B);
                }
            }
            lemma_replace_one_absent(form_byte(b), '+', esc);
        }
    }
}

/// Whether a character may stand in a percent-encoded text: one of the kept
/// bytes, or the percent sign.
pub open spec fn is_safe(c: char) -> bool {
    c == '%' || (c as u32 <= 0x7F && kept_byte(c as u8))
}

/// A percent-encoded text holds kept characters and percent signs only: no
/// space, no brace, nothing that a URL would read as a separator.
pub proof fn lemma_percent_encoded_is_safe(bytes: Seq<u8>)
    ensures
        forall|i: int|
            0 <= i < percent_encoded(bytes).len() ==> is_safe(
                #[trigger] percent_encoded(bytes)[i],
            ),
    decreases bytes.len(),
{
    if bytes.len() > 0 {
        let b = bytes[0];
        let head = percent_byte(b);
        let tail = percent_encoded(bytes.drop_first());
        lemma_percent_encoded_is_safe(bytes.drop_first());
        assert forall|i: int| 0 <= i < head.len() implies is_safe(#[trigger] head[i]) by {
            if !kept_byte(b) {
                assert(is_safe(hex_digit(b / 16)));
                assert(is_safe(hex_digit(b % 16)));
            }
        }
        assert forall|i: int| 0 <= i < percent_encoded(bytes).len() implies is_safe(
            #[trigger] percent_encoded(bytes)[i],
        ) by {
            if i < head.len() {
                assert(percent_encoded(bytes)[i] == head[i]);
            } else {
                assert(percent_encoded(bytes)[i] == tail[i - head.len()]);
            }
        }
    }
}

/// The text in percent encoding: each byte of its UTF-8 form is kept if it is
/// an ASCII letter, a digit or one of `*`, `-`, `.`, `_`, and written as `%`
/// with two hexadecimal digits otherwise.
pub fn percent_encode(text: &str) -> (r: String)
    ensures
        r@ == percent_encoded_text(text@),
{
    let form: String = form_encode(text);
    let form_chars: Vec<char> = chars_of(form.as_str());
    let mut plus: Vec<char> = Vec::new();
    plus.push('+');
    let mut esc: Vec<char> = Vec::new();
    esc.push('%');
    esc.push('2');
    esc.push('0');
    let out: Vec<char> = replaced(&form_chars, &plus, &esc);
    proof {
        assert(plus@ =~= seq!['+']);
        assert(esc@ =~= seq!['%', '2', '0']);
        lemma_percent_from_form(encode_utf8(text@));
    }
    string_of(&out)
}

} // verus!
