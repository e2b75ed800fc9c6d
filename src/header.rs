//! Header names and values: which strings `http` accepts, and the
//! `content-length` entry that a body rewrite maintains.
use vstd::prelude::*;
use crate::message::{headers_view, HeadersView};
use crate::text::{chars_of, decimal, decimal_string};

verus! {

/// A byte that `http` keeps in a header name (letters are folded to lower case).
pub open spec fn is_header_name_char(c: char) -> bool {
    let n = c as u32;
    (33 <= n <= 39) || n == 42 || n == 43 || n == 45 || n == 46 || (48 <= n <= 57)
        || (65 <= n <= 90) || (94 <= n <= 122) || n == 124 || n == 126
}

/// A string that `http::header::HeaderName::from_str` accepts.
pub open spec fn is_header_name(s: Seq<char>) -> bool {
    0 < s.len() <= 65535 && forall|i: int| 0 <= i < s.len() ==> is_header_name_char(#[trigger] s[i])
}

/// A character whose UTF-8 bytes `http` allows in a header value: tab, or
/// anything from space upwards except DEL.
pub open spec fn is_header_value_char(c: char) -> bool {
    let n = c as u32;
    (n >= 32 && n != 127) || n == 9
}

/// A string that `http::header::HeaderValue::from_str` accepts.
pub open spec fn is_header_value(s: Seq<char>) -> bool {
    forall|i: int| 0 <= i < s.len() ==> is_header_value_char(#[trigger] s[i])
}

/// Relies on `http::header::HeaderName::from_str`: accepts 1 to 65535
/// token bytes, as its character table lists them.
#[verifier::external_body]
pub(crate) fn header_name_is_valid(s: &str) -> (r: bool)
    ensures
        r == is_header_name(s@),
{
    <http::header::HeaderName as std::str::FromStr>::from_str(s).is_ok()
}

/// Relies on `http::header::HeaderValue::from_str`: every byte is a tab or
/// at least 32 and not 127.
#[verifier::external_body]
pub(crate) fn header_value_is_valid(s: &str) -> (r: bool)
    ensures
        r == is_header_value(s@),
{
    http::header::HeaderValue::from_str(s).is_ok()
}

/// The name `content-length`, as a body rewrite writes it.
pub open spec fn content_length_name() -> Seq<char> {
    seq!['c', 'o', 'n', 't', 'e', 'n', 't', '-', 'l', 'e', 'n', 'g', 't', 'h']
}

/// `a` and `b` are the same character once ASCII letters are folded to lower case.
pub open spec fn char_eq_ignore_ascii_case(a: char, b: char) -> bool {
    a == b || ('A' <= a <= 'Z' && a as u32 + 32 == b as u32) || ('A' <= b <= 'Z' && b as u32 + 32 == a as u32)
}

/// `a` and `b` are equal once ASCII letters are folded to lower case.
pub open spec fn eq_ignore_ascii_case(a: Seq<char>, b: Seq<char>) -> bool {
    a.len() == b.len() && forall|i: int| 0 <= i < a.len() ==> char_eq_ignore_ascii_case(#[trigger] a[i], b[i])
}

/// A header name that is `content-length` in any ASCII case.
pub open spec fn is_content_length(name: Seq<char>) -> bool {
    eq_ignore_ascii_case(name, content_length_name())
}

/// Some entry of `h` is a `content-length` entry.
pub open spec fn has_content_length(h: HeadersView) -> bool {
    exists|i: int| 0 <= i < h.len() && is_content_length(#[trigger] h[i].0)
}

/// The entries of `h` with every `content-length` entry before index `k`
/// holding `len`, names as written.
pub open spec fn content_length_set_before(h: HeadersView, len: nat, k: int) -> HeadersView {
    Seq::new(
        h.len(),
        |j: int|
            if j < k && is_content_length(h[j].0) {
                (h[j].0, decimal(len))
            } else {
                h[j]
            },
    )
}

/// `h` with every `content-length` entry (in any case, name kept as
/// written) holding `len`, or with one appended when there is none.
pub open spec fn with_content_length(h: HeadersView, len: nat) -> HeadersView {
    if has_content_length(h) {
        content_length_set_before(h, len, h.len() as int)
    } else {
        h.push((content_length_name(), decimal(len)))
    }
}

/// Whether a header name is `content-length` in any ASCII case.
pub fn is_content_length_name(name: &str) -> (r: bool)
    ensures
        r == is_content_length(name@),
{
    proof {
        reveal_strlit("content-length");
    }
    let wanted = chars_of("content-length");
    assert(wanted@ =~= content_length_name());
    let n = chars_of(name);
    if n.len() != wanted.len() {
        return false;
    }
    let mut i: usize = 0;
    while i < n.len()
        invariant
            n@ == name@,
            wanted@ == content_length_name(),
            n@.len() == wanted@.len(),
            i <= n@.len(),
            forall|j: int| 0 <= j < i ==> char_eq_ignore_ascii_case(#[trigger] n@[j], wanted@[j]),
        decreases n@.len() - i,
    {
        let a = n[i];
        let b = wanted[i];
        let same = a == b || ('A' <= a && a <= 'Z' && a as u32 + 32 == b as u32) || ('A' <= b && b <= 'Z' && b as u32
            + 32 == a as u32);
        if !same {
            return false;
        }
        i = i + 1;
    }
    true
}

/// Sets every `content-length` entry to `len`, or appends one.
pub fn set_content_length(headers: &mut Vec<(String, String)>, len: usize)
    ensures
        headers_view(final(headers)@) == with_content_length(headers_view(old(headers)@), len as nat),
{
    let ghost h = headers_view(headers@);
    let mut found = false;
    let mut i: usize = 0;
    assert(headers_view(headers@) =~= content_length_set_before(h, len as nat, 0));
    while i < headers.len()
        invariant
            i <= headers@.len(),
            h == headers_view(old(headers)@),
            headers@.len() == h.len(),
            headers_view(headers@) == content_length_set_before(h, len as nat, i as int),
            found == exists|j: int| 0 <= j < i && is_content_length(#[trigger] h[j].0),
        decreases headers@.len() - i,
    {
        assert(headers_view(headers@)[i as int] == content_length_set_before(h, len as nat, i as int)[i as int]);
        assert(headers@[i as int].0@ == h[i as int].0);
        let is_cl = is_content_length_name(headers[i].0.as_str());
        assert(is_cl == is_content_length(h[i as int].0));
        if is_cl {
            let entry = (headers[i].0.clone(), decimal_string(len as u64));
            let ghost before = headers@;
            headers.set(i, entry);
            assert forall|j: int| 0 <= j < headers@.len() && j != i implies #[trigger] headers@[j] == before[j] by {}
            assert(headers_view(before)[i as int] == h[i as int]);
            found = true;
        }
        assert(headers_view(headers@) =~= content_length_set_before(h, len as nat, i + 1)) by {
            assert forall|j: int| 0 <= j < h.len() implies #[trigger] headers_view(headers@)[j]
                == content_length_set_before(h, len as nat, i + 1)[j] by {
                if j != i {
                    assert(content_length_set_before(h, len as nat, i as int)[j] == content_length_set_before(
                        h,
                        len as nat,
                        i + 1,
                    )[j]);
                }
            }
        }
        assert(found == exists|j: int| 0 <= j < i + 1 && is_content_length(#[trigger] h[j].0)) by {
            if exists|j: int| 0 <= j < i + 1 && is_content_length(#[trigger] h[j].0) {
                let j = choose|j: int| 0 <= j < i + 1 && is_content_length(#[trigger] h[j].0);
                if j < i {
                    assert(exists|k: int| 0 <= k < i && is_content_length(#[trigger] h[k].0));
                }
            }
        }
        i = i + 1;
    }
    if !found {
        proof {
            reveal_strlit("content-length");
        }
        let name = String::from_str("content-length");
        assert(name@ =~= content_length_name());
        assert(headers_view(headers@) =~= h);
        headers.push((name, decimal_string(len as u64)));
        assert(headers_view(headers@) =~= with_content_length(h, len as nat));
    }
}

/// After [`set_content_length`] there is a `content-length` entry, and
/// every one of them holds the decimal length.
pub proof fn lemma_content_length_matches_body(h: HeadersView, len: nat)
    ensures
        has_content_length(with_content_length(h, len)),
        forall|i: int|
            0 <= i < with_content_length(h, len).len() && is_content_length(
                #[trigger] with_content_length(h, len)[i].0,
            ) ==> with_content_length(h, len)[i].1 == decimal(len),
{
    let r = with_content_length(h, len);
    if has_content_length(h) {
        let i = choose|i: int| 0 <= i < h.len() && is_content_length(#[trigger] h[i].0);
        assert(is_content_length(r[i].0));
    } else {
        assert(is_content_length(content_length_name()));
        assert(is_content_length(r[h.len() as int].0));
        assert forall|i: int| 0 <= i < r.len() && is_content_length(#[trigger] r[i].0) implies r[i].1 == decimal(len) by {
            if i < h.len() {
                assert(r[i] == h[i]);
            }
        }
    }
}

} // verus!
