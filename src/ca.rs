//! The certificate authority's decisions: what to do with an existing root,
//! which files a wipe removes, and how the generator reports the leaf it
//! made. Leaves are kept in a [`crate::once::OnceCache`], so each is made at
//! most once per host.
use vstd::prelude::*;
use crate::text::{chars_equal, chars_of, string_of};

verus! {

/// Errors of the certificate authority.
#[derive(Clone, Debug)]
pub enum CaError {
    KeyFetchError,
    GenerateCertificate,
    RustlsError(String),
    IoError(String),
    CustomError(String),
}

/// A character with the Unicode `White_Space` property, as
/// `char::is_whitespace` documents it.
pub open spec fn is_space(c: char) -> bool {
    let n = c as u32;
    (9 <= n <= 13) || n == 32 || n == 0x85 || n == 0xA0 || n == 0x1680 || (0x2000 <= n <= 0x200A)
        || n == 0x2028 || n == 0x2029 || n == 0x202F || n == 0x205F || n == 0x3000
}

fn space(c: char) -> (r: bool)
    ensures
        r == is_space(c),
{
    let n = c as u32;
    (9 <= n && n <= 13) || n == 32 || n == 0x85 || n == 0xA0 || n == 0x1680 || (0x2000 <= n && n <= 0x200A)
        || n == 0x2028 || n == 0x2029 || n == 0x202F || n == 0x205F || n == 0x3000
}

/// `s` without leading and trailing whitespace, as `str::trim` gives it:
/// the part from the first to the last character that is not whitespace.
pub open spec fn is_trimmed_of(s: Seq<char>, start: int, end: int) -> bool {
    &&& 0 <= start <= end <= s.len()
    &&& forall|i: int| 0 <= i < start ==> is_space(#[trigger] s[i])
    &&& forall|i: int| end <= i < s.len() ==> is_space(#[trigger] s[i])
    &&& start < end ==> !is_space(s[start]) && !is_space(s[end - 1])
}

/// The leaf certificate and key paths that the generator reports: its
/// output, trimmed, is exactly two paths separated by one space.
pub open spec fn spec_generator_paths(out: Seq<char>, cert: Seq<char>, key: Seq<char>) -> bool {
    exists|start: int, end: int, k: int|
        is_trimmed_of(out, start, end) && start <= k < end && out[k] == ' '
            && (forall|j: int| start <= j < end && j != k ==> #[trigger] out[j] != ' ')
            && cert == out.subrange(start, k) && key == out.subrange(k + 1, end)
}

/// The trimmed output holds exactly one space.
pub open spec fn spec_generator_output_ok(out: Seq<char>) -> bool {
    exists|cert: Seq<char>, key: Seq<char>| spec_generator_paths(out, cert, key)
}

fn chars_between(s: &Vec<char>, from: usize, to: usize) -> (r: Vec<char>)
    requires
        from <= to <= s@.len(),
    ensures
        r@ == s@.subrange(from as int, to as int),
{
    let mut r: Vec<char> = Vec::new();
    let mut i = from;
    while i < to
        invariant
            from <= i <= to <= s@.len(),
            r@ == s@.subrange(from as int, i as int),
        decreases to - i,
    {
        r.push(s[i]);
        i = i + 1;
    }
    r
}

/// Reads the generator's output: the certificate path and the key path.
pub fn parse_generator_output(stdout: &str) -> (r: Result<(String, String), CaError>)
    ensures
        r is Ok <==> spec_generator_output_ok(stdout@),
        r is Ok ==> spec_generator_paths(stdout@, r->Ok_0.0@, r->Ok_0.1@),
        r is Err ==> r matches Err(CaError::CustomError(_)),
{
    let s = chars_of(stdout);
    let mut start: usize = 0;
    while start < s.len() && space(s[start])
        invariant
            start <= s@.len(),
            forall|i: int| 0 <= i < start ==> is_space(#[trigger] s@[i]),
        decreases s@.len() - start,
    {
        start = start + 1;
    }
    let mut end: usize = s.len();
    while end > start && space(s[end - 1])
        invariant
            start <= end <= s@.len(),
            forall|i: int| end <= i < s@.len() ==> is_space(#[trigger] s@[i]),
        decreases end,
    {
        end = end - 1;
    }
    assert(is_trimmed_of(s@, start as int, end as int));
    let mut found: Option<usize> = None;
    let mut i: usize = start;
    while i < end
        invariant
            start <= i <= end <= s@.len(),
            s@ == stdout@,
            is_trimmed_of(s@, start as int, end as int),
            found is None ==> forall|j: int| start <= j < i ==> #[trigger] s@[j] != ' ',
            found is Some ==> start <= found->Some_0 < i && s@[found->Some_0 as int] == ' ' && forall|j: int|
                start <= j < i && j != found->Some_0 ==> #[trigger] s@[j] != ' ',
        decreases end - i,
    {
        if s[i] == ' ' {
            if found.is_some() {
                let f = found.unwrap();
                proof {
                    assert forall|a: Seq<char>, b: Seq<char>| !spec_generator_paths(stdout@, a, b) by {
                        if spec_generator_paths(stdout@, a, b) {
                            let (st, en, kk) = choose|st: int, en: int, kk: int|
                                is_trimmed_of(s@, st, en) && st <= kk < en && s@[kk] == ' '
                                    && (forall|j: int| st <= j < en && j != kk ==> #[trigger] s@[j] != ' ')
                                    && a == s@.subrange(st, kk) && b == s@.subrange(kk + 1, en);
                            lemma_trim_unique(s@, st, en, start as int, end as int);
                            if kk != f {
                                assert(s@[f as int] != ' ');
                            } else {
                                assert(s@[i as int] != ' ');
                            }
                        }
                    }
                }
                return Err(CaError::CustomError(String::from_str("Error serializing generatecert.sh output")));
            }
            found = Some(i);
        }
        i = i + 1;
    }
    match found {
        Some(k) => {
            let cert = chars_between(&s, start, k);
            let key = chars_between(&s, k + 1, end);
            let r = (string_of(cert.as_slice()), string_of(key.as_slice()));
            assert(spec_generator_paths(stdout@, r.0@, r.1@));
            Ok(r)
        },
        None => {
            proof {
                assert forall|a: Seq<char>, b: Seq<char>| !spec_generator_paths(stdout@, a, b) by {
                    if spec_generator_paths(stdout@, a, b) {
                        let (st, en, kk) = choose|st: int, en: int, kk: int|
                            is_trimmed_of(s@, st, en) && st <= kk < en && s@[kk] == ' '
                                && (forall|j: int| st <= j < en && j != kk ==> #[trigger] s@[j] != ' ')
                                && a == s@.subrange(st, kk) && b == s@.subrange(kk + 1, en);
                        lemma_trim_unique(s@, st, en, start as int, end as int);
                    }
                }
            }
            Err(CaError::CustomError(String::from_str("Error serializing generatecert.sh output")))
        },
    }
}

proof fn lemma_trim_unique(s: Seq<char>, a: int, b: int, c: int, d: int)
    requires
        is_trimmed_of(s, a, b),
        is_trimmed_of(s, c, d),
        a < b,
    ensures
        a == c && b == d,
{
    assert(!is_space(s[a]) && !is_space(s[b - 1]));
    if c == d {
        if a < c {
            assert(is_space(s[a]));
        } else {
            assert(is_space(s[a]));
        }
    } else {
        assert(!is_space(s[c]) && !is_space(s[d - 1]));
        if c < a {
            assert(is_space(s[c]));
        }
        if a < c {
            assert(is_space(s[a]));
        }
        if d < b {
            assert(is_space(s[b - 1]));
        }
        if b < d {
            assert(is_space(s[d - 1]));
        }
    }
}

/// The text after the last `.` of a file name, when that dot is not its
/// first character, as `Path::extension` reads it.
pub open spec fn spec_extension(name: Seq<char>) -> Option<Seq<char>> {
    if name == seq!['.', '.'] {
        None
    } else if exists|k: int| 0 < k < name.len() && name[k] == '.' {
        let k = choose|k: int| 0 < k < name.len() && name[k] == '.' && forall|j: int| k < j < name.len() ==> name[j] != '.';
        Some(name.subrange(k + 1, name.len() as int))
    } else {
        None
    }
}

/// The extensions of the files that make up an authority.
pub open spec fn is_authority_extension(e: Seq<char>) -> bool {
    e == "crt"@ || e == "key"@ || e == "pem"@ || e == "csr"@ || e == "ext"@ || e == "srl"@ || e == "sh"@
}

/// A file that wiping an authority directory removes: `config`, or one
/// whose extension is `crt`, `key`, `pem`, `csr`, `ext`, `srl` or `sh`.
pub open spec fn spec_should_clear(name: Seq<char>) -> bool {
    name == "config"@ || (spec_extension(name) is Some && is_authority_extension(spec_extension(name)->Some_0))
}

fn text_is(a: &Vec<char>, b: &str) -> (r: bool)
    ensures
        r == (a@ == b@),
{
    let v = chars_of(b);
    chars_equal(a.as_slice(), v.as_slice())
}

/// Whether wiping an authority directory removes the file of this name.
pub fn should_clear(file_name: &str) -> (r: bool)
    ensures
        r == spec_should_clear(file_name@),
{
    let name = chars_of(file_name);
    if text_is(&name, "config") {
        return true;
    }
    let dots = vec!['.', '.'];
    if chars_equal(name.as_slice(), dots.as_slice()) {
        assert(name@ =~= seq!['.', '.']);
        return false;
    }
    assert(name@ != seq!['.', '.']) by {
        if name@ == seq!['.', '.'] {
            assert(dots@ =~= name@);
        }
    }
    let mut k: usize = name.len();
    while k > 0 && name[k - 1] != '.'
        invariant
            k <= name@.len(),
            forall|j: int| k <= j < name@.len() ==> name@[j] != '.',
        decreases k,
    {
        k = k - 1;
    }
    if k <= 1 {
        assert(!exists|m: int| 0 < m < name@.len() && name@[m] == '.') by {
            if exists|m: int| 0 < m < name@.len() && name@[m] == '.' {
                let m = choose|m: int| 0 < m < name@.len() && name@[m] == '.';
                assert(m >= k);
            }
        }
        return false;
    }
    let dot = k - 1;
    proof {
        let c = choose|m: int| 0 < m < name@.len() && name@[m] == '.' && forall|j: int| m < j < name@.len() ==> name@[j] != '.';
        if c < dot {
            assert(name@[dot as int] == '.');
        } else if dot < c {
            assert(name@[c] == '.');
        }
    }
    let ext = chars_between(&name, k, name.len());
    text_is(&ext, "crt") || text_is(&ext, "key") || text_is(&ext, "pem") || text_is(&ext, "csr")
        || text_is(&ext, "ext") || text_is(&ext, "srl") || text_is(&ext, "sh")
}

/// The files a leaf for `host` is kept in: `host.crt` and `host.key`.
pub fn leaf_file_names(host: &str) -> (r: (String, String))
    ensures
        r.0@ == host@ + ".crt"@,
        r.1@ == host@ + ".key"@,
{
    let mut cert = host.to_owned();
    cert.append(".crt");
    let mut key = host.to_owned();
    key.append(".key");
    (cert, key)
}

/// What to do with the root of an authority directory.
#[derive(Clone, Copy, Debug, PartialEq, Eq, Structural)]
pub enum RootAction {
    /// The root is current: use it.
    Keep,
    /// The root is not valid yet: use it, and warn.
    KeepNotYetValid,
    /// There is no root: generate one.
    Generate,
    /// Remove the authority's files, then generate a new root.
    WipeAndGenerate,
}

/// The root's fate: a directory without a root gets one; `force`, or a root
/// past its `not_after` time, wipes and regenerates; a root before its
/// `not_before` time is kept with a warning; a current root is kept.
pub open spec fn spec_root_action(has_root: bool, force: bool, now: i64, not_before: i64, not_after: i64) -> RootAction {
    if !has_root {
        RootAction::Generate
    } else if force || now > not_after {
        RootAction::WipeAndGenerate
    } else if now < not_before {
        RootAction::KeepNotYetValid
    } else {
        RootAction::Keep
    }
}

/// Decides what to do with the root, from whether the directory holds one,
/// the `force` flag, the time now and the root's validity period (Unix
/// seconds; read only when there is a root and no `force`).
pub fn root_action(has_root: bool, force: bool, now: i64, not_before: i64, not_after: i64) -> (r: RootAction)
    ensures
        r == spec_root_action(has_root, force, now, not_before, not_after),
{
    if !has_root {
        RootAction::Generate
    } else if force || now > not_after {
        RootAction::WipeAndGenerate
    } else if now < not_before {
        RootAction::KeepNotYetValid
    } else {
        RootAction::Keep
    }
}

} // verus!
