//! Character-level helpers over `String` and `str`, each proved against a
//! specification on `Seq<char>`.
use vstd::prelude::*;

verus! {

/// Relies on `String::push`: appends one character at the end.
#[verifier::external_body]
pub(crate) fn push_char(s: &mut String, c: char)
    ensures
        final(s)@ == old(s)@.push(c),
{
    s.push(c);
}

/// The characters of `s`, in order.
pub fn chars_of(s: &str) -> (r: Vec<char>)
    ensures
        r@ == s@,
{
    let mut r: Vec<char> = Vec::new();
    for c in it: s.chars()
        invariant
            r@ == it.seq().subrange(0, it.index() as int),
    {
        r.push(c);
    }
    r
}

/// A `String` holding exactly the characters of `v`.
pub fn string_of(v: &[char]) -> (r: String)
    ensures
        r@ == v@,
{
    let mut r = String::new();
    let mut i: usize = 0;
    while i < v.len()
        invariant
            i <= v@.len(),
            r@ == v@.subrange(0, i as int),
        decreases v@.len() - i,
    {
        push_char(&mut r, v[i]);
        i = i + 1;
    }
    r
}


/// Lower-case form of a string, as `str::to_lowercase` computes it.
pub uninterp spec fn lower_of(s: Seq<char>) -> Seq<char>;

/// Relies on `str::to_lowercase`: the result depends on the characters alone.
#[verifier::external_body]
pub(crate) fn lowercase(s: &str) -> (r: String)
    ensures
        r@ == lower_of(s@),
{
    s.to_lowercase()
}

/// `pat` occurs in `text` starting at index `i`.
pub open spec fn occurs_at(text: Seq<char>, pat: Seq<char>, i: int) -> bool {
    0 <= i && i + pat.len() <= text.len() && text.subrange(i, i + pat.len()) == pat
}

/// `pat` occurs somewhere in `text` (the empty pattern occurs everywhere).
pub open spec fn contains_seq(text: Seq<char>, pat: Seq<char>) -> bool {
    exists|i: int| occurs_at(text, pat, i)
}

/// `text` with every occurrence of `pat` replaced by `with`, scanning from
/// the left and never overlapping two occurrences; an empty `pat` changes
/// nothing.
pub open spec fn replaced(text: Seq<char>, pat: Seq<char>, with: Seq<char>) -> Seq<char>
    decreases text.len(),
{
    if pat.len() == 0 || text.len() < pat.len() {
        text
    } else if text.subrange(0, pat.len() as int) == pat {
        with + replaced(text.subrange(pat.len() as int, text.len() as int), pat, with)
    } else {
        seq![text[0]] + replaced(text.subrange(1, text.len() as int), pat, with)
    }
}

/// Whether the two character sequences are equal.
pub fn chars_equal(a: &[char], b: &[char]) -> (r: bool)
    ensures
        r == (a@ == b@),
{
    if a.len() != b.len() {
        return false;
    }
    let mut i: usize = 0;
    while i < a.len()
        invariant
            a@.len() == b@.len(),
            i <= a@.len(),
            forall|j: int| 0 <= j < i ==> a@[j] == b@[j],
        decreases a@.len() - i,
    {
        if a[i] != b[i] {
            return false;
        }
        i = i + 1;
    }
    assert(a@ =~= b@);
    true
}

/// Whether the two strings hold the same characters.
pub fn text_equal(a: &str, b: &str) -> (r: bool)
    ensures
        r == (a@ == b@),
{
    let x = chars_of(a);
    let y = chars_of(b);
    chars_equal(x.as_slice(), y.as_slice())
}

/// Whether `pat` occurs in `text` at index `i`.
pub fn occurs_at_index(text: &[char], pat: &[char], i: usize) -> (r: bool)
    ensures
        r == occurs_at(text@, pat@, i as int),
{
    if pat.len() > text.len() || i > text.len() - pat.len() {
        return false;
    }
    let mut j: usize = 0;
    while j < pat.len()
        invariant
            i + pat@.len() <= text@.len(),
            j <= pat@.len(),
            forall|k: int| 0 <= k < j ==> text@[i + k] == pat@[k],
        decreases pat@.len() - j,
    {
        assert(i + j < text.len());
        if text[i + j] != pat[j] {
            assert(text@.subrange(i as int, i + pat@.len())[j as int] != pat@[j as int]);
            return false;
        }
        j = j + 1;
    }
    assert(text@.subrange(i as int, i + pat@.len()) =~= pat@);
    true
}

/// Whether `pat` occurs anywhere in `text`.
pub fn contains_chars(text: &[char], pat: &[char]) -> (r: bool)
    ensures
        r == contains_seq(text@, pat@),
{
    if pat.len() > text.len() {
        return false;
    }
    let limit = text.len() - pat.len();
    let mut i: usize = 0;
    while i < limit
        invariant
            limit == text@.len() - pat@.len(),
            i <= limit,
            forall|k: int| 0 <= k < i ==> !occurs_at(text@, pat@, k),
        decreases limit - i,
    {
        if occurs_at_index(text, pat, i) {
            return true;
        }
        i = i + 1;
    }
    if occurs_at_index(text, pat, limit) {
        return true;
    }
    assert forall|k: int| !occurs_at(text@, pat@, k) by {
        if 0 <= k < i {
        }
    }
    false
}

proof fn lemma_replaced_step(text: Seq<char>, pat: Seq<char>, with: Seq<char>, i: int)
    requires
        pat.len() > 0,
        0 <= i,
        i + pat.len() <= text.len(),
    ensures
        occurs_at(text, pat, i) ==> replaced(text.subrange(i, text.len() as int), pat, with)
            == with + replaced(text.subrange(i + pat.len(), text.len() as int), pat, with),
        !occurs_at(text, pat, i) ==> replaced(text.subrange(i, text.len() as int), pat, with)
            == seq![text[i]] + replaced(text.subrange(i + 1, text.len() as int), pat, with),
{
    let rest = text.subrange(i, text.len() as int);
    assert(rest.subrange(0, pat.len() as int) =~= text.subrange(i, i + pat.len()));
    assert(rest.subrange(pat.len() as int, rest.len() as int) =~= text.subrange(
        i + pat.len(),
        text.len() as int,
    ));
    assert(rest.subrange(1, rest.len() as int) =~= text.subrange(i + 1, text.len() as int));
}

/// `text` with every occurrence of `pat` replaced by `with`, left to right.
pub fn replace_chars(text: &[char], pat: &[char], with: &[char]) -> (r: Vec<char>)
    ensures
        r@ == replaced(text@, pat@, with@),
{
    let mut out: Vec<char> = Vec::new();
    if pat.len() == 0 {
        let mut i: usize = 0;
        while i < text.len()
            invariant
                i <= text@.len(),
                out@ == text@.subrange(0, i as int),
            decreases text@.len() - i,
        {
            out.push(text[i]);
            i = i + 1;
        }
        assert(out@ =~= text@);
        return out;
    }
    let mut i: usize = 0;
    proof {
        assert(text@.subrange(0, text@.len() as int) =~= text@);
    }
    while i < text.len() && pat.len() <= text.len() - i
        invariant
            pat@.len() > 0,
            i <= text@.len(),
            out@ + replaced(text@.subrange(i as int, text@.len() as int), pat@, with@)
                == replaced(text@, pat@, with@),
        decreases text@.len() - i,
    {
        proof {
            lemma_replaced_step(text@, pat@, with@, i as int);
        }
        if occurs_at_index(text, pat, i) {
            let mut k: usize = 0;
            let ghost before = out@;
            while k < with.len()
                invariant
                    k <= with@.len(),
                    out@ == before + with@.subrange(0, k as int),
                decreases with@.len() - k,
            {
                out.push(with[k]);
                k = k + 1;
            }
            proof {
                assert(with@.subrange(0, with@.len() as int) =~= with@);
                assert(before + (with@ + replaced(
                    text@.subrange(i + pat@.len(), text@.len() as int),
                    pat@,
                    with@,
                )) =~= out@ + replaced(
                    text@.subrange(i + pat@.len(), text@.len() as int),
                    pat@,
                    with@,
                ));
            }
            i = i + pat.len();
        } else {
            let ghost before = out@;
            out.push(text[i]);
            proof {
                assert(before + (seq![text@[i as int]] + replaced(
                    text@.subrange(i + 1, text@.len() as int),
                    pat@,
                    with@,
                )) =~= out@ + replaced(text@.subrange(i + 1, text@.len() as int), pat@, with@));
            }
            i = i + 1;
        }
    }
    let ghost before = out@;
    let ghost tail = text@.subrange(i as int, text@.len() as int);
    assert(replaced(tail, pat@, with@) == tail);
    while i < text.len()
        invariant
            i <= text@.len(),
            out@ + text@.subrange(i as int, text@.len() as int) == before + tail,
        decreases text@.len() - i,
    {
        let ghost o = out@;
        out.push(text[i]);
        assert(o + text@.subrange(i as int, text@.len() as int) =~= out@ + text@.subrange(
            i + 1,
            text@.len() as int,
        ));
        i = i + 1;
    }
    assert(out@ =~= out@ + text@.subrange(i as int, text@.len() as int));
    out
}

/// The ASCII digit for a value below ten.
pub open spec fn digit_char(d: nat) -> char {
    if d == 0 { '0' }
    else if d == 1 { '1' }
    else if d == 2 { '2' }
    else if d == 3 { '3' }
    else if d == 4 { '4' }
    else if d == 5 { '5' }
    else if d == 6 { '6' }
    else if d == 7 { '7' }
    else if d == 8 { '8' }
    else { '9' }
}

/// The decimal rendering of `n`, without sign or leading zeros.
pub open spec fn decimal(n: nat) -> Seq<char>
    decreases n,
{
    if n < 10 {
        seq![digit_char(n)]
    } else {
        decimal(n / 10).push(digit_char(n % 10))
    }
}

fn digit_of(d: u64) -> (c: char)
    requires
        d < 10,
    ensures
        c == digit_char(d as nat),
{
    if d == 0 { '0' }
    else if d == 1 { '1' }
    else if d == 2 { '2' }
    else if d == 3 { '3' }
    else if d == 4 { '4' }
    else if d == 5 { '5' }
    else if d == 6 { '6' }
    else if d == 7 { '7' }
    else if d == 8 { '8' }
    else { '9' }
}

/// The decimal rendering of `n`.
pub fn decimal_string(n: u64) -> (r: String)
    ensures
        r@ == decimal(n as nat),
{
    let v = decimal_chars(n);
    string_of(v.as_slice())
}

fn decimal_chars(n: u64) -> (r: Vec<char>)
    ensures
        r@ == decimal(n as nat),
    decreases n,
{
    if n < 10 {
        let mut v: Vec<char> = Vec::new();
        v.push(digit_of(n));
        v
    } else {
        let mut v = decimal_chars(n / 10);
        v.push(digit_of(n % 10));
        v
    }
}

/// Value of a character that is an ASCII digit.
pub open spec fn digit_value(c: char) -> nat {
    (c as u32 - '0' as u32) as nat
}

pub open spec fn is_digit(c: char) -> bool {
    '0' <= c && c <= '9'
}

/// Value of a string of ASCII digits, most significant first.
pub open spec fn digits_value(d: Seq<char>) -> nat
    decreases d.len(),
{
    if d.len() == 0 {
        0
    } else {
        digits_value(d.drop_last()) * 10 + digit_value(d.last())
    }
}

/// The digits that `u16::from_str` reads: an optional leading `+` is dropped.
pub open spec fn unsigned_digits(s: Seq<char>) -> Seq<char> {
    if s.len() > 0 && s[0] == '+' {
        s.subrange(1, s.len() as int)
    } else {
        s
    }
}

/// What `u16::from_str` gives on `s`: a non-empty run of ASCII digits, after
/// an optional `+`, whose value fits in 16 bits.
pub open spec fn parse_u16(s: Seq<char>) -> Option<u16> {
    let d = unsigned_digits(s);
    if d.len() > 0 && (forall|i: int| 0 <= i < d.len() ==> is_digit(#[trigger] d[i]))
        && digits_value(d) <= u16::MAX {
        Some(digits_value(d) as u16)
    } else {
        None
    }
}

proof fn lemma_digits_value_grows(d: Seq<char>, i: int, j: int)
    requires
        0 <= i <= j <= d.len(),
    ensures
        digits_value(d.subrange(0, i)) <= digits_value(d.subrange(0, j)),
    decreases j - i,
{
    if i < j {
        lemma_digits_value_grows(d, i, j - 1);
        assert(d.subrange(0, j).drop_last() =~= d.subrange(0, j - 1));
    }
}

/// Parses a decimal `u16` as `u16::from_str` does.
pub fn parse_u16_chars(s: &[char]) -> (r: Option<u16>)
    ensures
        r == parse_u16(s@),
{
    let start: usize = if s.len() > 0 && s[0] == '+' { 1 } else { 0 };
    let ghost d = unsigned_digits(s@);
    assert(d =~= s@.subrange(start as int, s@.len() as int));
    if start >= s.len() {
        return None;
    }
    let mut value: u32 = 0;
    let mut i: usize = start;
    while i < s.len()
        invariant
            start <= i <= s@.len(),
            d == unsigned_digits(s@),
            d =~= s@.subrange(start as int, s@.len() as int),
            value == digits_value(d.subrange(0, i - start)),
            value <= u16::MAX,
            forall|k: int| 0 <= k < i - start ==> is_digit(#[trigger] d[k]),
        decreases s@.len() - i,
    {
        let c = s[i];
        if !('0' <= c && c <= '9') {
            assert(!is_digit(d[i - start]));
            return None;
        }
        let ghost prefix = d.subrange(0, i - start + 1);
        assert(prefix.drop_last() =~= d.subrange(0, i - start));
        let next: u32 = value * 10 + (c as u32 - '0' as u32);
        if next > 65535 {
            proof {
                lemma_digits_value_grows(d, i - start + 1, d.len() as int);
                assert(d.subrange(0, d.len() as int) =~= d);
            }
            return None;
        }
        value = next;
        i = i + 1;
    }
    assert(d.subrange(0, d.len() as int) =~= d);
    Some(value as u16)
}

} // verus!
