//! Text helpers: zero-trimmed symbol strings and decimal rendering of integers.
use vstd::prelude::*;
use vstd::std_specs::iter::IteratorSpec;

verus! {

/// What `String::from_utf8_lossy` makes of a byte sequence.
pub uninterp spec fn utf8_lossy(b: Seq<u8>) -> Seq<char>;

/// Relies on `String::from_utf8_lossy`: decodes UTF-8, replacing invalid sequences; the
/// result depends on the bytes alone, and no bytes give no characters.
#[verifier::external_body]
fn lossy_string(b: &[u8]) -> (r: String)
    ensures
        r@ == utf8_lossy(b@),
        b@.len() == 0 ==> r@.len() == 0,
{
    String::from_utf8_lossy(b).into_owned()
}

/// Relies on `String::push`: appends one character.
#[verifier::external_body]
pub fn push_char(s: &mut String, c: char)
    ensures
        final(s)@ == old(s)@.push(c),
{
    s.push(c)
}

/// The characters of a string slice.
pub fn chars_of(s: &str) -> (r: Vec<char>)
    ensures
        r@ == s@,
{
    broadcast use vstd::string::group_string_axioms;
    let mut out: Vec<char> = Vec::new();
    let mut it = s.chars();
    loop
        invariant_except_break
            it.obeys_prophetic_iter_laws(),
            it.decrease() is Some,
            out@ + it.remaining() == s@,
        ensures
            out@ == s@,
        decreases it.decrease()->0,
    {
        let ghost before = it.remaining();
        match it.next() {
            Some(c) => {
                out.push(c);
            },
            None => {
                assert(before.len() == 0);
                assert(out@ =~= out@ + before);
                break;
            },
        }
    }
    out
}

/// Index of the first zero byte, or the length when there is none.
pub open spec fn nul_index(b: Seq<u8>) -> nat
    decreases b.len(),
{
    if b.len() == 0 {
        0
    } else if b[0] == 0 {
        0
    } else {
        1 + nul_index(b.drop_first())
    }
}

proof fn lemma_nul_index(b: Seq<u8>)
    ensures
        nul_index(b) <= b.len(),
        forall|i: int| 0 <= i < nul_index(b) ==> b[i] != 0,
        nul_index(b) < b.len() ==> b[nul_index(b) as int] == 0,
    decreases b.len(),
{
    if b.len() > 0 && b[0] != 0 {
        lemma_nul_index(b.drop_first());
        assert forall|i: int| 0 <= i < nul_index(b) implies b[i] != 0 by {
            if i > 0 {
                assert(b[i] == b.drop_first()[i - 1]);
            }
        }
    }
}

/// The text of a zero-terminated byte field: the bytes before the first zero, decoded.
pub open spec fn trimmed_text(b: Seq<u8>) -> Seq<char> {
    utf8_lossy(b.take(nul_index(b) as int))
}

/// Decodes a zero-terminated (or zero-padded) byte field.
pub fn trimmed_from_raw(b: &[u8]) -> (r: String)
    ensures
        r@ == trimmed_text(b@),
{
    let mut prefix: Vec<u8> = Vec::new();
    let mut i: usize = 0;
    proof {
        lemma_nul_index(b@);
    }
    while i < b.len() && b[i] != 0
        invariant
            i <= b@.len(),
            i <= nul_index(b@),
            prefix@ == b@.take(i as int),
            nul_index(b@) <= b@.len(),
            forall|j: int| 0 <= j < nul_index(b@) ==> b@[j] != 0,
            nul_index(b@) < b@.len() ==> b@[nul_index(b@) as int] == 0,
        decreases b.len() - i,
    {
        prefix.push(b[i]);
        i += 1;
        assert(prefix@ =~= b@.take(i as int));
    }
    assert(i == nul_index(b@));
    lossy_string(prefix.as_slice())
}

/// Decimal digits of a natural number, most significant first.
pub open spec fn nat_digits(n: nat) -> Seq<char>
    decreases n,
{
    if n < 10 {
        seq![digit_char(n)]
    } else {
        nat_digits(n / 10).push(digit_char(n % 10))
    }
}

/// The character of a decimal digit.
pub open spec fn digit_char(d: nat) -> char {
    if d == 0 { '0' }
    else if d == 1 { '1' }
    else if d == 2 { '2' }
    else if d == 3 { '3' }
    else if d == 4 { '4' }
    else if d == 5 { '5' }
    else if d == 6 { '6' }
    else if d == 7 { '7' }
    else if d == 8 { '8' }
    else { '9' }
}

/// Decimal text of an integer, with a leading '-' when negative.
pub open spec fn int_text(v: int) -> Seq<char> {
    if v < 0 {
        seq!['-'] + nat_digits((-v) as nat)
    } else {
        nat_digits(v as nat)
    }
}

fn digit(d: u64) -> (c: char)
    requires
        d < 10,
    ensures
        c == digit_char(d as nat),
{
    if d == 0 { '0' }
    else if d == 1 { '1' }
    else if d == 2 { '2' }
    else if d == 3 { '3' }
    else if d == 4 { '4' }
    else if d == 5 { '5' }
    else if d == 6 { '6' }
    else if d == 7 { '7' }
    else if d == 8 { '8' }
    else { '9' }
}

/// Appends the decimal digits of `n`.
fn push_digits(s: &mut String, n: u64)
    ensures
        final(s)@ == old(s)@ + nat_digits(n as nat),
    decreases n,
{
    if n >= 10 {
        push_digits(s, n / 10);
    }
    push_char(s, digit(n % 10));
    assert(final(s)@ =~= old(s)@ + nat_digits(n as nat));
}

/// Appends the decimal text of `v`.
pub fn push_int(s: &mut String, v: i64)
    ensures
        final(s)@ == old(s)@ + int_text(v as int),
{
    if v < 0 {
        push_char(s, '-');
        let m: u64 = if v == i64::MIN {
            0x8000_0000_0000_0000u64
        } else {
            (-v) as u64
        };
        push_digits(s, m);
        assert(final(s)@ =~= old(s)@ + int_text(v as int));
    } else {
        push_digits(s, v as u64);
    }
}

/// What `str::to_lowercase` makes of a string.
pub uninterp spec fn lowercase_of(s: Seq<char>) -> Seq<char>;

/// Relies on `str::to_lowercase`: the result depends on the characters alone.
#[verifier::external_body]
pub fn to_lowercase(s: &str) -> (r: String)
    ensures
        r@ == lowercase_of(s@),
{
    s.to_lowercase()
}

/// Characters with the Unicode White_Space property.
pub open spec fn is_white_space(c: char) -> bool {
    ('\u{9}' <= c && c <= '\u{d}') || c == ' ' || c == '\u{85}' || c == '\u{a0}' || c == '\u{1680}'
        || ('\u{2000}' <= c && c <= '\u{200a}') || c == '\u{2028}' || c == '\u{2029}' || c == '\u{202f}'
        || c == '\u{205f}' || c == '\u{3000}'
}

fn white_space(c: char) -> (r: bool)
    ensures
        r == is_white_space(c),
{
    ('\u{9}' <= c && c <= '\u{d}') || c == ' ' || c == '\u{85}' || c == '\u{a0}' || c == '\u{1680}'
        || ('\u{2000}' <= c && c <= '\u{200a}') || c == '\u{2028}' || c == '\u{2029}' || c == '\u{202f}'
        || c == '\u{205f}' || c == '\u{3000}'
}

/// A string without its leading and trailing white space: the part from the first to
/// the last character that is not white space (empty when there is none).
pub open spec fn trimmed_of(s: Seq<char>) -> Seq<char> {
    if exists|k: int| 0 <= k < s.len() && !is_white_space(#[trigger] s[k]) {
        let a = choose|a: int| 0 <= a < s.len() && !is_white_space(s[a]) && forall|k: int|
            0 <= k < a ==> is_white_space(#[trigger] s[k]);
        let b = choose|b: int| 0 <= b < s.len() && !is_white_space(s[b]) && forall|k: int|
            b < k < s.len() ==> is_white_space(#[trigger] s[k]);
        s.subrange(a, b + 1)
    } else {
        seq![]
    }
}

/// Removes leading and trailing white space.
pub fn trim(s: &str) -> (r: String)
    ensures
        r@ == trimmed_of(s@),
{
    let v = chars_of(s);
    let mut a: usize = 0;
    while a < v.len() && white_space(v[a])
        invariant
            a <= v@.len(),
            forall|k: int| 0 <= k < a ==> is_white_space(#[trigger] v@[k]),
        decreases v.len() - a,
    {
        a += 1;
    }
    let mut out = String::new();
    if a == v.len() {
        proof {
            assert(!exists|k: int| 0 <= k < v@.len() && !is_white_space(#[trigger] v@[k]));
            assert(out@ =~= trimmed_of(s@));
        }
        return out;
    }
    let mut b: usize = v.len() - 1;
    while white_space(v[b])
        invariant
            a <= b < v@.len(),
            !is_white_space(v@[a as int]),
            forall|k: int| b < k < v@.len() ==> is_white_space(#[trigger] v@[k]),
        decreases b,
    {
        b -= 1;
    }
    let mut i: usize = a;
    while i <= b
        invariant
            a <= i <= b + 1,
            b < v.len(),
            out@ == v@.subrange(a as int, i as int),
        decreases b + 1 - i,
    {
        push_char(&mut out, v[i]);
        i += 1;
        assert(out@ =~= v@.subrange(a as int, i as int));
    }
    proof {
        let sa = choose|x: int| 0 <= x < v@.len() && !is_white_space(v@[x]) && forall|k: int|
            0 <= k < x ==> is_white_space(#[trigger] v@[k]);
        let sb = choose|x: int| 0 <= x < v@.len() && !is_white_space(v@[x]) && forall|k: int|
            x < k < v@.len() ==> is_white_space(#[trigger] v@[k]);
        assert(0 <= a < v@.len() && !is_white_space(v@[a as int]));
        assert(0 <= b < v@.len() && !is_white_space(v@[b as int]));
        if sa < a {
            assert(is_white_space(v@[sa]));
        }
        if a < sa {
            assert(is_white_space(v@[a as int]));
        }
        if sb < b {
            assert(is_white_space(v@[b as int]));
        }
        if b < sb {
            assert(is_white_space(v@[sb]));
        }
    }
    out
}

} // verus!
