//! Regular expressions as the rewrite rules use them. A [`Pattern`] keeps the
//! pattern it was compiled from, and every result that the `regex` crate
//! computes is stated as a function of that pattern.
use vstd::prelude::*;

verus! {

#[verifier::external_type_specification]
#[verifier::external_body]
pub struct ExRegexEngine(regex::Regex);

#[verifier::external_type_specification]
#[verifier::external_body]
pub struct ExRegexError(regex::Error);

/// Relies on `Clone for regex::Regex`: the copy runs the same compiled program.
pub assume_specification[ <regex::Regex as Clone>::clone ](r: &regex::Regex) -> regex::Regex;

/// Whether `regex::Regex::new` accepts the pattern.
pub uninterp spec fn regex_compiles(pattern: Seq<char>) -> bool;

/// Whether the pattern matches somewhere in the haystack.
pub uninterp spec fn regex_is_match(pattern: Seq<char>, haystack: Seq<char>) -> bool;

/// Number of capture groups of the pattern, the whole match included.
pub uninterp spec fn regex_group_count(pattern: Seq<char>) -> nat;

/// The haystack with every non-overlapping match replaced by the expanded replacement.
pub uninterp spec fn regex_replace_all(pattern: Seq<char>, haystack: Seq<char>, rep: Seq<char>) -> Seq<char>;

/// The template with `$1`, `$name`, ... taken from the first match in the haystack.
pub uninterp spec fn regex_expand_first(pattern: Seq<char>, haystack: Seq<char>, template: Seq<char>) -> Seq<char>;

/// Relies on `regex::Regex::new`: compiles the pattern or reports why it cannot.
#[verifier::external_body]
fn compile(pattern: &str) -> (r: Result<regex::Regex, regex::Error>)
    ensures
        r is Ok <==> regex_compiles(pattern@),
{
    regex::Regex::new(pattern)
}

/// Error raised when a pattern does not compile.
#[derive(Clone, Debug)]
pub struct RegexError {
    pub message: String,
}

/// A compiled regular expression. `compiled` is always the result of
/// `regex::Regex::new(&source)`: both fields are private and [`Pattern::new`]
/// is the only constructor.
#[derive(Clone, Debug)]
pub struct Pattern {
    source: String,
    compiled: regex::Regex,
}

impl Pattern {
    /// The pattern this expression was compiled from.
    pub closed spec fn pattern(&self) -> Seq<char> {
        self.source@
    }

    /// Compiles `pattern`.
    pub fn new(pattern: &str) -> (r: Result<Pattern, RegexError>)
        ensures
            r is Ok <==> regex_compiles(pattern@),
            r is Ok ==> r->Ok_0.pattern() == pattern@,
    {
        match compile(pattern) {
            Ok(compiled) => Ok(Pattern { source: pattern.to_owned(), compiled }),
            Err(e) => Err(RegexError { message: e.to_string() }),
        }
    }

    /// The pattern this expression was compiled from.
    pub fn as_str(&self) -> (r: &str)
        ensures
            r@ == self.pattern(),
    {
        self.source.as_str()
    }

    /// Relies on `regex::Regex::is_match`: whether there is a match anywhere.
    #[verifier::external_body]
    pub(crate) fn is_match(&self, haystack: &str) -> (r: bool)
        ensures
            r == regex_is_match(self.pattern(), haystack@),
    {
        self.compiled.is_match(haystack)
    }

    /// Relies on `regex::Regex::captures_len`: the number of groups, group 0 included.
    #[verifier::external_body]
    pub(crate) fn captures_len(&self) -> (r: usize)
        ensures
            r == regex_group_count(self.pattern()),
    {
        self.compiled.captures_len()
    }

    /// Relies on `regex::Regex::replace_all` with a `&str` replacement.
    #[verifier::external_body]
    pub(crate) fn replace_all(&self, haystack: &str, rep: &str) -> (r: String)
        ensures
            r@ == regex_replace_all(self.pattern(), haystack@, rep@),
    {
        self.compiled.replace_all(haystack, rep).into_owned()
    }

    /// Relies on `regex::Regex::captures` and `regex::Captures::expand`: the
    /// template expanded from the first match, or nothing when there is none.
    #[verifier::external_body]
    pub(crate) fn expand_first(&self, haystack: &str, template: &str) -> (r: String)
        ensures
            regex_is_match(self.pattern(), haystack@) ==> r@ == regex_expand_first(
                self.pattern(),
                haystack@,
                template@,
            ),
            !regex_is_match(self.pattern(), haystack@) ==> r@ == Seq::<char>::empty(),
    {
        let mut into = String::new();
        if let Some(captures) = self.compiled.captures(haystack) {
            captures.expand(template, &mut into);
        }
        into
    }
}

} // verus!
