//! Absolute and relative URIs, parsed by the `http` crate. A [`Url`] keeps
//! its source text, and each of its parts is stated as a function of it.
use vstd::prelude::*;

verus! {

#[verifier::external_type_specification]
#[verifier::external_body]
pub struct ExHttpUri(http::Uri);

/// Whether `http::Uri` parses the text.
pub uninterp spec fn uri_parses(s: Seq<char>) -> bool;

/// The scheme that `http::Uri::scheme_str` reports for the text.
pub uninterp spec fn uri_scheme_of(s: Seq<char>) -> Option<Seq<char>>;

/// The authority that `http::Uri::authority` reports for the text.
pub uninterp spec fn uri_authority_of(s: Seq<char>) -> Option<Seq<char>>;

/// The host that `http::Uri::host` reports for the text.
pub uninterp spec fn uri_host_of(s: Seq<char>) -> Option<Seq<char>>;

/// The path that `http::Uri::path` reports for the text.
pub uninterp spec fn uri_path_of(s: Seq<char>) -> Seq<char>;

/// Relies on `FromStr for http::Uri`: parses the text or rejects it.
#[verifier::external_body]
fn parse_uri(s: &str) -> (r: Option<http::Uri>)
    ensures
        r is Some <==> uri_parses(s@),
{
    match <http::Uri as std::str::FromStr>::from_str(s) {
        Ok(u) => Some(u),
        Err(_) => None,
    }
}

/// A parsed URI. `parsed` is always the result of parsing `source`: both
/// fields are private and [`Url::parse`] is the only constructor.
#[derive(Clone, Debug)]
pub struct Url {
    source: String,
    parsed: http::Uri,
}

/// Relies on `Clone for http::Uri`: the copy has the same parts.
pub assume_specification[ <http::Uri as Clone>::clone ](u: &http::Uri) -> http::Uri;

impl Url {
    /// The text this URI was parsed from.
    pub closed spec fn text(&self) -> Seq<char> {
        self.source@
    }

    /// Parses `s`.
    pub fn parse(s: &str) -> (r: Option<Url>)
        ensures
            r is Some <==> uri_parses(s@),
            r is Some ==> r->Some_0.text() == s@,
    {
        match parse_uri(s) {
            Some(parsed) => Some(Url { source: s.to_owned(), parsed }),
            None => None,
        }
    }

    /// The text this URI was parsed from.
    pub fn as_str(&self) -> (r: &str)
        ensures
            r@ == self.text(),
    {
        self.source.as_str()
    }

    /// Relies on `http::Uri::scheme_str`.
    #[verifier::external_body]
    pub(crate) fn scheme(&self) -> (r: Option<String>)
        ensures
            r is Some <==> uri_scheme_of(self.text()) is Some,
            r is Some ==> r->Some_0@ == uri_scheme_of(self.text())->Some_0,
    {
        match self.parsed.scheme_str() {
            Some(s) => Some(s.to_string()),
            None => None,
        }
    }

    /// Relies on `http::uri::Authority::as_str` of `http::Uri::authority`.
    #[verifier::external_body]
    pub(crate) fn authority(&self) -> (r: Option<String>)
        ensures
            r is Some <==> uri_authority_of(self.text()) is Some,
            r is Some ==> r->Some_0@ == uri_authority_of(self.text())->Some_0,
    {
        match self.parsed.authority() {
            Some(a) => Some(a.as_str().to_string()),
            None => None,
        }
    }

    /// Relies on `http::Uri::host`.
    #[verifier::external_body]
    pub(crate) fn host(&self) -> (r: Option<String>)
        ensures
            r is Some <==> uri_host_of(self.text()) is Some,
            r is Some ==> r->Some_0@ == uri_host_of(self.text())->Some_0,
    {
        match self.parsed.host() {
            Some(h) => Some(h.to_string()),
            None => None,
        }
    }

    /// Relies on `http::Uri::path`.
    #[verifier::external_body]
    pub(crate) fn path(&self) -> (r: String)
        ensures
            r@ == uri_path_of(self.text()),
    {
        self.parsed.path().to_string()
    }
}

} // verus!
