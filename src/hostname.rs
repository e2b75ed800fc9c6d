//! The target of a forward-proxy request, read from its URI authority.
use vstd::prelude::*;
use crate::text::{chars_of, parse_u16, parse_u16_chars, string_of};

verus! {

/// Host, port and scheme of a request target.
#[derive(Clone, Debug)]
pub struct Hostname {
    pub authority: String,
    pub host: String,
    pub scheme: String,
    pub port: u16,
}

/// Why a request target cannot be read.
#[derive(Clone, Debug, PartialEq, Eq, Structural)]
pub enum HostnameError {
    MissingAuthority,
    MissingPort,
}

/// The text of `s` before its first `:`, or all of it.
pub open spec fn before_colon(s: Seq<char>) -> Seq<char>
    decreases s.len(),
{
    if s.len() == 0 || s[0] == ':' {
        Seq::empty()
    } else {
        seq![s[0]] + before_colon(s.subrange(1, s.len() as int))
    }
}

/// Whether `s` has a `:`.
pub open spec fn has_colon(s: Seq<char>) -> bool {
    exists|i: int| 0 <= i < s.len() && s[i] == ':'
}

/// The text between the first and the second `:` of `s` (or its end).
pub open spec fn port_text(s: Seq<char>) -> Seq<char> {
    let rest = s.subrange(before_colon(s).len() + 1int, s.len() as int);
    before_colon(rest)
}

/// The port a target names, or the default of its scheme.
pub open spec fn spec_port(authority: Seq<char>, scheme: Option<Seq<char>>) -> Option<u16> {
    let named = if has_colon(authority) { parse_u16(port_text(authority)) } else { None };
    match named {
        Some(p) => Some(p),
        None => if scheme == Some("http"@) {
            Some(80u16)
        } else if scheme == Some("https"@) {
            Some(443u16)
        } else {
            None
        },
    }
}

proof fn lemma_before_colon(s: Seq<char>, i: int)
    requires
        0 <= i <= s.len(),
        forall|k: int| 0 <= k < i ==> s[k] != ':',
        i == s.len() || s[i] == ':',
    ensures
        before_colon(s) == s.subrange(0, i),
        has_colon(s) == (i < s.len()),
    decreases i,
{
    if i > 0 {
        let t = s.subrange(1, s.len() as int);
        assert forall|k: int| 0 <= k < i - 1 implies t[k] != ':' by {
            assert(t[k] == s[k + 1]);
        }
        lemma_before_colon(t, i - 1);
        assert(seq![s[0]] + t.subrange(0, i - 1) =~= s.subrange(0, i));
    } else {
        assert(s.subrange(0, 0) =~= Seq::<char>::empty());
    }
}

fn colon_index(s: &Vec<char>, from: usize) -> (r: usize)
    requires
        from <= s@.len(),
    ensures
        from <= r <= s@.len(),
        r == s@.len() || s@[r as int] == ':',
        forall|k: int| from <= k < r ==> s@[k] != ':',
{
    let mut i = from;
    while i < s.len()
        invariant
            from <= i <= s@.len(),
            forall|k: int| from <= k < i ==> s@[k] != ':',
        decreases s@.len() - i,
    {
        if s[i] == ':' {
            return i;
        }
        i = i + 1;
    }
    i
}

fn slice_of(s: &Vec<char>, from: usize, to: usize) -> (r: Vec<char>)
    requires
        from <= to <= s@.len(),
    ensures
        r@ == s@.subrange(from as int, to as int),
{
    let mut r: Vec<char> = Vec::new();
    let mut i = from;
    while i < to
        invariant
            from <= i <= to,
            to <= s@.len(),
            r@ == s@.subrange(from as int, i as int),
        decreases to - i,
    {
        r.push(s[i]);
        i = i + 1;
    }
    r
}

impl Hostname {
    /// Reads a target from the request URI's authority and scheme. The host
    /// is the authority up to its first `:`; the port is the number after
    /// it, or 80 for `http` and 443 for `https`. The scheme recorded is
    /// `https`, which is what a CONNECT target is tentatively given.
    pub fn parse(authority: Option<&str>, scheme: Option<&str>) -> (r: Result<Hostname, HostnameError>)
        ensures
            authority is None ==> r == Err::<Hostname, HostnameError>(HostnameError::MissingAuthority),
            authority is Some ==> ({
                let a = authority->Some_0@;
                let s = match scheme { Some(x) => Some(x@), None => None };
                match spec_port(a, s) {
                    None => r == Err::<Hostname, HostnameError>(HostnameError::MissingPort),
                    Some(p) => r is Ok && r->Ok_0.port == p && r->Ok_0.authority@ == a
                        && r->Ok_0.host@ == before_colon(a) && r->Ok_0.scheme@ == "https"@,
                }
            }),
    {
        let authority = match authority {
            Some(a) => a,
            None => {
                return Err(HostnameError::MissingAuthority);
            },
        };
        let a = chars_of(authority);
        let first = colon_index(&a, 0);
        proof {
            lemma_before_colon(a@, first as int);
        }
        let named: Option<u16> = if first < a.len() {
            let second = colon_index(&a, first + 1);
            let rest = slice_of(&a, first + 1, a.len());
            proof {
                assert forall|k: int| 0 <= k < second - first - 1 implies rest@[k] != ':' by {
                    assert(rest@[k] == a@[k + first + 1]);
                }
                if second < a.len() {
                    assert(rest@[second - first - 1] == a@[second as int]);
                }
                lemma_before_colon(rest@, second - first - 1);
            }
            let digits = slice_of(&a, first + 1, second);
            assert(digits@ =~= rest@.subrange(0, second - first - 1));
            parse_u16_chars(digits.as_slice())
        } else {
            None
        };
        let port: u16 = match named {
            Some(p) => p,
            None => {
                proof {
                    reveal_strlit("http");
                    reveal_strlit("https");
                }
                match scheme {
                    Some(s) => {
                        let sc = chars_of(s);
                        if sc.len() == 4 && sc[0] == 'h' && sc[1] == 't' && sc[2] == 't' && sc[3] == 'p' {
                            assert(sc@ =~= "http"@);
                            80
                        } else if sc.len() == 5 && sc[0] == 'h' && sc[1] == 't' && sc[2] == 't' && sc[3] == 'p'
                            && sc[4] == 's' {
                            assert(sc@ =~= "https"@);
                            443
                        } else {
                            assert(sc@ != "http"@ && sc@ != "https"@) by {
                                if sc@ == "http"@ {
                                    assert(sc@[3] == 'p');
                                }
                                if sc@ == "https"@ {
                                    assert(sc@[4] == 's');
                                }
                            }
                            return Err(HostnameError::MissingPort);
                        }
                    },
                    None => {
                        return Err(HostnameError::MissingPort);
                    },
                }
            },
        };
        let host = slice_of(&a, 0, first);
        Ok(Hostname {
            authority: authority.to_owned(),
            host: string_of(host.as_slice()),
            scheme: String::from_str("https"),
            port,
        })
    }
}

} // verus!
