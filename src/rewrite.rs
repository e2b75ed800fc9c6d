//! The declarative rewrite engine: predicates over strings, templates
//! expanded from what matched, and rules that rewrite headers, bodies and
//! statuses of requests and responses.
use vstd::prelude::*;
use crate::header::{
    has_content_length, is_content_length, lemma_content_length_matches_body, header_name_is_valid, header_value_is_valid, is_header_name, is_header_value,
    set_content_length, with_content_length,
};
use crate::message::{headers_view, HeadersView, HttpRequestResult, HttpResponse, RequestView, ResponseView};
use crate::pattern::{regex_expand_first, regex_group_count, regex_is_match, regex_replace_all, Pattern};
use crate::text::{
    chars_of, contains_chars, contains_seq, decimal, decimal_string, lower_of,
    lowercase, parse_u16, parse_u16_chars, replace_chars, replaced, string_of, text_equal,
};

verus! {

/// The template token for the whole matched value.
pub open spec fn token_zero() -> Seq<char> {
    seq!['$', '0']
}

/// The template token for the searched-for substring.
pub open spec fn token_one() -> Seq<char> {
    seq!['$', '1']
}

/// A predicate over a string: equality, substring, or regular expression.
#[derive(Clone, Debug)]
pub enum MatchValue {
    Exact(String),
    Contains(String),
    Regex(Pattern),
}

/// Two predicates are the same when they are of the same kind over the same
/// text; regular expressions compare by their source.
pub open spec fn same_match_value(a: MatchValue, b: MatchValue) -> bool {
    match (a, b) {
        (MatchValue::Exact(x), MatchValue::Exact(y)) => x@ == y@,
        (MatchValue::Contains(x), MatchValue::Contains(y)) => x@ == y@,
        (MatchValue::Regex(x), MatchValue::Regex(y)) => x.pattern() == y.pattern(),
        _ => false,
    }
}

impl PartialEq for MatchValue {
    fn eq(&self, other: &MatchValue) -> (r: bool)
        ensures
            r == same_match_value(*self, *other),
    {
        match (self, other) {
            (MatchValue::Exact(x), MatchValue::Exact(y)) => text_equal(x.as_str(), y.as_str()),
            (MatchValue::Contains(x), MatchValue::Contains(y)) => text_equal(x.as_str(), y.as_str()),
            (MatchValue::Regex(x), MatchValue::Regex(y)) => text_equal(x.as_str(), y.as_str()),
            _ => false,
        }
    }
}

impl vstd::std_specs::cmp::PartialEqSpecImpl for MatchValue {
    open spec fn obeys_eq_spec() -> bool {
        true
    }

    open spec fn eq_spec(&self, other: &MatchValue) -> bool {
        same_match_value(*self, *other)
    }
}

/// The expansion of an exact predicate over `pat`: `$0` is `pat`; empty
/// when `value` is not `pat`.
pub open spec fn exact_expand(pat: Seq<char>, value: Seq<char>, template: Seq<char>) -> Seq<char> {
    if value == pat {
        replaced(template, token_zero(), pat)
    } else {
        Seq::empty()
    }
}

/// The expansion of a substring predicate over `pat`: `$0` is the value,
/// then `$1` is `pat`; empty when `value` does not contain `pat`.
pub open spec fn contains_expand(pat: Seq<char>, value: Seq<char>, template: Seq<char>) -> Seq<char> {
    if contains_seq(value, pat) {
        replaced(replaced(template, token_zero(), value), token_one(), pat)
    } else {
        Seq::empty()
    }
}

/// The expansion of a regular expression: without groups every match is
/// replaced (`value` stays as it is when there is none); with groups the
/// template is filled from the first match, and is empty without one.
pub open spec fn pattern_expand(p: Pattern, value: Seq<char>, template: Seq<char>) -> Seq<char> {
    if regex_group_count(p.pattern()) == 1 {
        regex_replace_all(p.pattern(), value, template)
    } else if regex_is_match(p.pattern(), value) {
        regex_expand_first(p.pattern(), value, template)
    } else {
        Seq::empty()
    }
}

fn expand_exact(pat: &str, value: &str, template: &str) -> (r: String)
    ensures
        r@ == exact_expand(pat@, value@, template@),
{
    if !text_equal(value, pat) {
        return String::new();
    }
    let zero = vec!['$', '0'];
    assert(zero@ =~= token_zero());
    let t = chars_of(template);
    let e = chars_of(pat);
    let out = replace_chars(t.as_slice(), zero.as_slice(), e.as_slice());
    string_of(out.as_slice())
}

fn contains_text(value: &str, pat: &str) -> (r: bool)
    ensures
        r == contains_seq(value@, pat@),
{
    let v = chars_of(value);
    let e = chars_of(pat);
    contains_chars(v.as_slice(), e.as_slice())
}

fn expand_contains(pat: &str, value: &str, template: &str) -> (r: String)
    ensures
        r@ == contains_expand(pat@, value@, template@),
{
    if !contains_text(value, pat) {
        return String::new();
    }
    let zero = vec!['$', '0'];
    let one = vec!['$', '1'];
    assert(zero@ =~= token_zero());
    assert(one@ =~= token_one());
    let t = chars_of(template);
    let v = chars_of(value);
    let e = chars_of(pat);
    let first = replace_chars(t.as_slice(), zero.as_slice(), v.as_slice());
    let out = replace_chars(first.as_slice(), one.as_slice(), e.as_slice());
    string_of(out.as_slice())
}

fn expand_pattern(p: &Pattern, value: &str, template: &str) -> (r: String)
    ensures
        r@ == pattern_expand(*p, value@, template@),
{
    if p.captures_len() == 1 {
        p.replace_all(value, template)
    } else {
        p.expand_first(value, template)
    }
}

impl MatchValue {
    /// Whether `value` satisfies the predicate.
    pub open spec fn spec_matches(&self, value: Seq<char>) -> bool {
        match self {
            MatchValue::Exact(s) => value == s@,
            MatchValue::Contains(s) => contains_seq(value, s@),
            MatchValue::Regex(r) => regex_is_match(r.pattern(), value),
        }
    }

    /// The replacement text produced from `template` for `value`. A regular
    /// expression without groups replaces every match (leaving `value` as it
    /// is when there is none); otherwise the result is empty when the
    /// predicate does not hold of `value`.
    pub open spec fn spec_expand(&self, value: Seq<char>, template: Seq<char>) -> Seq<char> {
        match self {
            MatchValue::Exact(s) => exact_expand(s@, value, template),
            MatchValue::Contains(s) => contains_expand(s@, value, template),
            MatchValue::Regex(r) => pattern_expand(*r, value, template),
        }
    }

    /// Whether a lower-case header name satisfies the predicate used on
    /// names: exact and substring texts are compared in lower case too.
    pub open spec fn spec_name_matches(&self, lowered: Seq<char>) -> bool {
        match self {
            MatchValue::Exact(s) => lowered == lower_of(s@),
            MatchValue::Contains(s) => contains_seq(lowered, lower_of(s@)),
            MatchValue::Regex(r) => regex_is_match(r.pattern(), lowered),
        }
    }

    /// The expansion used on a lower-case header name, with exact and
    /// substring texts in lower case.
    pub open spec fn spec_name_expand(&self, lowered: Seq<char>, template: Seq<char>) -> Seq<char> {
        match self {
            MatchValue::Exact(s) => exact_expand(lower_of(s@), lowered, template),
            MatchValue::Contains(s) => contains_expand(lower_of(s@), lowered, template),
            MatchValue::Regex(r) => pattern_expand(*r, lowered, template),
        }
    }

    /// Whether `value` satisfies the predicate.
    pub fn matches(&self, value: &str) -> (r: bool)
        ensures
            r == self.spec_matches(value@),
    {
        match self {
            MatchValue::Exact(s) => text_equal(value, s.as_str()),
            MatchValue::Contains(s) => contains_text(value, s.as_str()),
            MatchValue::Regex(r) => r.is_match(value),
        }
    }

    /// Expands `replace_with` against `value`: `$0` is the exact string, or
    /// the value for a substring match, where `$1` is the substring; a
    /// regular expression without groups replaces every match in `value`,
    /// one with groups fills the template from its first match, or gives
    /// nothing when there is no match.
    pub fn expand(&self, value: &str, replace_with: &str) -> (r: String)
        ensures
            r@ == self.spec_expand(value@, replace_with@),
    {
        match self {
            MatchValue::Exact(s) => expand_exact(s.as_str(), value, replace_with),
            MatchValue::Contains(s) => expand_contains(s.as_str(), value, replace_with),
            MatchValue::Regex(r) => expand_pattern(r, value, replace_with),
        }
    }

    /// Whether a lower-case header name satisfies the predicate, the exact
    /// or substring text taken in lower case.
    pub fn name_matches(&self, lowered: &str) -> (r: bool)
        ensures
            r == self.spec_name_matches(lowered@),
    {
        match self {
            MatchValue::Exact(s) => {
                let l = lowercase(s.as_str());
                text_equal(lowered, l.as_str())
            },
            MatchValue::Contains(s) => {
                let l = lowercase(s.as_str());
                contains_text(lowered, l.as_str())
            },
            MatchValue::Regex(r) => r.is_match(lowered),
        }
    }

    /// Expands `replace_with` against a lower-case header name, the exact or
    /// substring text taken in lower case.
    pub fn name_expand(&self, lowered: &str, replace_with: &str) -> (r: String)
        ensures
            r@ == self.spec_name_expand(lowered@, replace_with@),
    {
        match self {
            MatchValue::Exact(s) => {
                let l = lowercase(s.as_str());
                expand_exact(l.as_str(), lowered, replace_with)
            },
            MatchValue::Contains(s) => {
                let l = lowercase(s.as_str());
                expand_contains(l.as_str(), lowered, replace_with)
            },
            MatchValue::Regex(r) => expand_pattern(r, lowered, replace_with),
        }
    }
}

/// A predicate over one header entry: its name and its value.
#[derive(Clone, Debug)]
pub struct HeaderMatch {
    pub header_name: MatchValue,
    pub header_value: MatchValue,
}

impl HeaderMatch {
    /// Whether an entry satisfies the predicates, given its name already in
    /// lower case.
    pub fn matches_lowered(&self, lowered_name: &str, value: &str) -> (r: bool)
        ensures
            r == (self.header_name.spec_name_matches(lowered_name@) && self.header_value.spec_matches(value@)),
    {
        self.header_name.name_matches(lowered_name) && self.header_value.matches(value)
    }
}

/// The entry `(name, value)` satisfies `m`; names compare in lower case.
pub open spec fn header_entry_matches(m: HeaderMatch, name: Seq<char>, value: Seq<char>) -> bool {
    m.header_name.spec_name_matches(lower_of(name)) && m.header_value.spec_matches(value)
}

/// `i` is the first entry of `h` that satisfies `m`.
pub open spec fn is_first_match(m: HeaderMatch, h: HeadersView, i: int) -> bool {
    &&& 0 <= i < h.len()
    &&& header_entry_matches(m, h[i].0, h[i].1)
    &&& forall|j: int| 0 <= j < i ==> !header_entry_matches(m, #[trigger] h[j].0, h[j].1)
}

proof fn lemma_first_match_unique(m: HeaderMatch, h: HeadersView, i: int, k: int)
    requires
        is_first_match(m, h, i),
        is_first_match(m, h, k),
    ensures
        i == k,
{
    if i < k {
        assert(!header_entry_matches(m, h[i].0, h[i].1));
    } else if k < i {
        assert(!header_entry_matches(m, h[k].0, h[k].1));
    }
}

/// Rewrites the first header entry that matches into a new name and value.
#[derive(Clone, Debug)]
pub struct HeaderRewrite {
    pub header_match: HeaderMatch,
    pub new_header_name: String,
    pub new_header_value: String,
}

impl HeaderRewrite {
    /// The headers after the rewrite: the first matching entry becomes the
    /// expanded name and value, when both are valid in HTTP; nothing else changes.
    pub open spec fn spec_rewrite(&self, h: HeadersView) -> HeadersView {
        if exists|i: int| is_first_match(self.header_match, h, i) {
            let i = choose|i: int| is_first_match(self.header_match, h, i);
            let name = self.header_match.header_name.spec_name_expand(lower_of(h[i].0), self.new_header_name@);
            let value = self.header_match.header_value.spec_expand(h[i].1, self.new_header_value@);
            if is_header_name(name) && is_header_value(value) {
                h.update(i, (name, value))
            } else {
                h
            }
        } else {
            h
        }
    }

    /// Rewrites the first entry whose name and value both match.
    pub fn do_rewrite(&self, headers: &mut Vec<(String, String)>)
        ensures
            headers_view(final(headers)@) == self.spec_rewrite(headers_view(old(headers)@)),
    {
        let ghost h = headers_view(headers@);
        let mut i: usize = 0;
        while i < headers.len()
            invariant
                i <= headers@.len(),
                h == headers_view(headers@),
                h == headers_view(old(headers)@),
                forall|j: int| 0 <= j < i ==> !header_entry_matches(self.header_match, #[trigger] h[j].0, h[j].1),
            decreases headers@.len() - i,
        {
            let lower = lowercase(headers[i].0.as_str());
            if self.header_match.matches_lowered(lower.as_str(), headers[i].1.as_str()) {
                proof {
                    assert(is_first_match(self.header_match, h, i as int));
                    let k = choose|k: int| is_first_match(self.header_match, h, k);
                    lemma_first_match_unique(self.header_match, h, i as int, k);
                }
                let name = self.header_match.header_name.name_expand(lower.as_str(), self.new_header_name.as_str());
                let value = self.header_match.header_value.expand(headers[i].1.as_str(), self.new_header_value.as_str());
                if header_name_is_valid(name.as_str()) && header_value_is_valid(value.as_str()) {
                    headers.set(i, (name, value));
                    assert(headers_view(headers@) =~= self.spec_rewrite(h));
                }
                return;
            }
            i = i + 1;
        }
        assert(!exists|k: int| is_first_match(self.header_match, h, k));
    }
}

/// Replaces a body wholesale.
#[derive(Clone, Debug)]
pub struct BodyRewrite {
    pub replace_with: Vec<u8>,
}

/// Replaces a response status that matches with the expanded new status.
#[derive(Clone, Debug)]
pub struct StatusRewrite {
    pub status: MatchValue,
    pub new_status: String,
}

/// The change a rule makes once it fires.
#[derive(Clone, Debug)]
pub enum Rewrite {
    Header(HeaderRewrite),
    Body(BodyRewrite),
    Status(StatusRewrite),
}

/// `req` with new headers.
pub open spec fn request_with_headers(req: RequestView, headers: HeadersView) -> RequestView {
    RequestView {
        path: req.path,
        authority: req.authority,
        host: req.host,
        scheme: req.scheme,
        version: req.version,
        headers,
        method: req.method,
        body: req.body,
    }
}

/// `req` with a new body and headers.
pub open spec fn request_with_body(req: RequestView, body: Seq<u8>, headers: HeadersView) -> RequestView {
    RequestView {
        path: req.path,
        authority: req.authority,
        host: req.host,
        scheme: req.scheme,
        version: req.version,
        headers,
        method: req.method,
        body,
    }
}

/// `resp` with new status, body and headers.
pub open spec fn response_with(resp: ResponseView, status: u16, body: Seq<u8>, headers: HeadersView) -> ResponseView {
    ResponseView { headers, status, body, request: resp.request }
}

fn copy_bytes(v: &Vec<u8>) -> (r: Vec<u8>)
    ensures
        r@ == v@,
{
    let mut r: Vec<u8> = Vec::new();
    let mut i: usize = 0;
    while i < v.len()
        invariant
            i <= v@.len(),
            r@ == v@.subrange(0, i as int),
        decreases v@.len() - i,
    {
        r.push(v[i]);
        i = i + 1;
    }
    r
}

impl Rewrite {
    /// The request after this rewrite; a status rewrite leaves it unchanged.
    pub open spec fn spec_rewrite_req(&self, req: RequestView) -> RequestView {
        match self {
            Rewrite::Body(b) => request_with_body(
                req,
                b.replace_with@,
                with_content_length(req.headers, b.replace_with@.len()),
            ),
            Rewrite::Header(h) => request_with_headers(req, h.spec_rewrite(req.headers)),
            Rewrite::Status(_) => req,
        }
    }

    /// The response after this rewrite. A status rewrite applies when the
    /// decimal status matches and the expansion parses as a `u16`.
    pub open spec fn spec_rewrite_resp(&self, resp: ResponseView) -> ResponseView {
        match self {
            Rewrite::Status(s) => {
                let current = decimal(resp.status as nat);
                if s.status.spec_matches(current) {
                    match parse_u16(s.status.spec_expand(current, s.new_status@)) {
                        Some(n) => response_with(resp, n, resp.body, resp.headers),
                        None => resp,
                    }
                } else {
                    resp
                }
            },
            Rewrite::Body(b) => response_with(
                resp,
                resp.status,
                b.replace_with@,
                with_content_length(resp.headers, b.replace_with@.len()),
            ),
            Rewrite::Header(h) => response_with(resp, resp.status, resp.body, h.spec_rewrite(resp.headers)),
        }
    }

    /// Applies the rewrite to a request.
    pub fn rewrite_req(&self, req: HttpRequestResult) -> (r: HttpRequestResult)
        ensures
            r@ == self.spec_rewrite_req(req@),
    {
        let mut req = req;
        match self {
            Rewrite::Body(rewrite) => {
                req.body = copy_bytes(&rewrite.replace_with);
                let len = req.body.len();
                set_content_length(&mut req.headers, len);
                req
            },
            Rewrite::Header(rewrite) => {
                rewrite.do_rewrite(&mut req.headers);
                req
            },
            Rewrite::Status(_) => req,
        }
    }

    /// Applies the rewrite to a response.
    pub fn rewrite_resp(&self, resp: &mut HttpResponse)
        ensures
            final(resp)@ == self.spec_rewrite_resp(old(resp)@),
    {
        match self {
            Rewrite::Status(rewrite) => {
                let status = decimal_string(resp.status as u64);
                if rewrite.status.matches(status.as_str()) {
                    let expanded = rewrite.status.expand(status.as_str(), rewrite.new_status.as_str());
                    let digits = chars_of(expanded.as_str());
                    if let Some(new_status) = parse_u16_chars(digits.as_slice()) {
                        resp.status = new_status;
                    }
                }
            },
            Rewrite::Body(rewrite) => {
                resp.body = copy_bytes(&rewrite.replace_with);
                let len = resp.body.len();
                set_content_length(&mut resp.headers, len);
            },
            Rewrite::Header(rewrite) => {
                rewrite.do_rewrite(&mut resp.headers);
            },
        }
    }
}

/// A condition of a rule: on the request path, or on one header entry.
#[derive(Clone, Debug)]
pub enum RuleMatch {
    PathMatch(MatchValue),
    HeaderMatch(HeaderMatch),
}

impl RuleMatch {
    /// Whether the condition holds of `req`: the path (with its query)
    /// matches, or some header entry matches in both name and value.
    pub open spec fn spec_matches(&self, req: RequestView) -> bool {
        match self {
            RuleMatch::PathMatch(p) => p.spec_matches(req.path),
            RuleMatch::HeaderMatch(m) => exists|i: int|
                0 <= i < req.headers.len() && header_entry_matches(*m, #[trigger] req.headers[i].0, req.headers[i].1),
        }
    }

    /// Whether the condition holds of `req`.
    pub fn matches(&self, req: &HttpRequestResult) -> (r: bool)
        ensures
            r == self.spec_matches(req@),
    {
        match self {
            RuleMatch::PathMatch(path) => path.matches(req.path.as_str()),
            RuleMatch::HeaderMatch(m) => {
                let ghost h = req@.headers;
                let mut i: usize = 0;
                while i < req.headers.len()
                    invariant
                        i <= req.headers@.len(),
                        *self == RuleMatch::HeaderMatch(*m),
                        h == headers_view(req.headers@),
                        forall|j: int| 0 <= j < i ==> !header_entry_matches(*m, #[trigger] h[j].0, h[j].1),
                    decreases req.headers@.len() - i,
                {
                    let lower = lowercase(req.headers[i].0.as_str());
                    if m.matches_lowered(lower.as_str(), req.headers[i].1.as_str()) {
                        assert(header_entry_matches(*m, req@.headers[i as int].0, req@.headers[i as int].1));
                        assert(self.spec_matches(req@));
                        return true;
                    }
                    i = i + 1;
                }
                false
            },
        }
    }
}

/// Every condition of `conds` holds of `req`.
pub open spec fn all_match(conds: Seq<RuleMatch>, req: RequestView) -> bool {
    forall|i: int| 0 <= i < conds.len() ==> (#[trigger] conds[i]).spec_matches(req)
}

fn all_conditions_hold(conds: &Vec<RuleMatch>, req: &HttpRequestResult) -> (r: bool)
    ensures
        r == all_match(conds@, req@),
{
    let mut i: usize = 0;
    while i < conds.len()
        invariant
            i <= conds@.len(),
            forall|j: int| 0 <= j < i ==> (#[trigger] conds@[j]).spec_matches(req@),
        decreases conds@.len() - i,
    {
        if !conds[i].matches(req) {
            return false;
        }
        i = i + 1;
    }
    true
}

/// A rule over requests: when all conditions hold, the rewrite applies.
#[derive(Clone, Debug)]
pub struct RequestRewrite {
    pub when: Vec<RuleMatch>,
    pub rewrite: Rewrite,
}

impl RequestRewrite {
    /// Whether every condition holds of `req`.
    pub fn should_rewrite_request(&self, req: &HttpRequestResult) -> (r: bool)
        ensures
            r == all_match(self.when@, req@),
    {
        all_conditions_hold(&self.when, req)
    }

    /// Applies the rewrite, whatever the conditions say.
    pub fn rewrite(&self, req: HttpRequestResult) -> (r: HttpRequestResult)
        ensures
            r@ == self.rewrite.spec_rewrite_req(req@),
    {
        self.rewrite.rewrite_req(req)
    }
}

/// A rule over responses, whose conditions are read on the request.
#[derive(Clone, Debug)]
pub struct ResponseRewrite {
    pub when: Vec<RuleMatch>,
    pub rewrite: Rewrite,
}

impl ResponseRewrite {
    /// Whether every condition holds of the request that led to the response.
    pub fn should_rewrite_response(&self, req: &HttpRequestResult) -> (r: bool)
        ensures
            r == all_match(self.when@, req@),
    {
        all_conditions_hold(&self.when, req)
    }

    /// Applies the rewrite, whatever the conditions say.
    pub fn rewrite(&self, resp: &mut HttpResponse)
        ensures
            final(resp)@ == self.rewrite.spec_rewrite_resp(old(resp)@),
    {
        self.rewrite.rewrite_resp(resp);
    }
}

/// The request after the rules in order, each one firing on the request
/// as the earlier ones left it.
pub open spec fn request_rewrites_applied(rules: Seq<RequestRewrite>, req: RequestView) -> RequestView
    decreases rules.len(),
{
    if rules.len() == 0 {
        req
    } else {
        let before = request_rewrites_applied(rules.drop_last(), req);
        if all_match(rules.last().when@, before) {
            rules.last().rewrite.spec_rewrite_req(before)
        } else {
            before
        }
    }
}

/// Applies the rules in order; later rules see earlier rules' effects.
pub fn rewrite_request(rules: &Vec<RequestRewrite>, req: HttpRequestResult) -> (r: HttpRequestResult)
    ensures
        r@ == request_rewrites_applied(rules@, req@),
{
    let ghost start = req@;
    let mut req = req;
    let mut i: usize = 0;
    while i < rules.len()
        invariant
            i <= rules@.len(),
            req@ == request_rewrites_applied(rules@.subrange(0, i as int), start),
        decreases rules@.len() - i,
    {
        assert(rules@.subrange(0, i + 1).drop_last() =~= rules@.subrange(0, i as int));
        if rules[i].should_rewrite_request(&req) {
            req = rules[i].rewrite(req);
        }
        i = i + 1;
    }
    assert(rules@.subrange(0, rules@.len() as int) =~= rules@);
    req
}

/// The response after the rules in order, among those whose conditions
/// hold of the request `req`.
pub open spec fn response_rewrites_applied(rules: Seq<ResponseRewrite>, req: RequestView, resp: ResponseView) -> ResponseView
    decreases rules.len(),
{
    if rules.len() == 0 {
        resp
    } else {
        let before = response_rewrites_applied(rules.drop_last(), req, resp);
        if all_match(rules.last().when@, req) {
            rules.last().rewrite.spec_rewrite_resp(before)
        } else {
            before
        }
    }
}

/// Applies, in order, the rules whose conditions hold of `req`.
pub fn rewrite_response(rules: &Vec<ResponseRewrite>, req: &HttpRequestResult, resp: &mut HttpResponse)
    ensures
        final(resp)@ == response_rewrites_applied(rules@, req@, old(resp)@),
{
    let mut i: usize = 0;
    while i < rules.len()
        invariant
            i <= rules@.len(),
            resp@ == response_rewrites_applied(rules@.subrange(0, i as int), req@, old(resp)@),
        decreases rules@.len() - i,
    {
        assert(rules@.subrange(0, i + 1).drop_last() =~= rules@.subrange(0, i as int));
        if rules[i].should_rewrite_response(req) {
            rules[i].rewrite(resp);
        }
        i = i + 1;
    }
    assert(rules@.subrange(0, rules@.len() as int) =~= rules@);
}

/// When no rule fires on a request, applying the rules leaves it as it is.
pub proof fn lemma_no_rule_fires(rules: Seq<RequestRewrite>, req: RequestView)
    requires
        forall|i: int| 0 <= i < rules.len() ==> !all_match(#[trigger] rules[i].when@, req),
    ensures
        request_rewrites_applied(rules, req) == req,
    decreases rules.len(),
{
    if rules.len() > 0 {
        let prefix = rules.drop_last();
        assert forall|i: int| 0 <= i < prefix.len() implies !all_match(#[trigger] prefix[i].when@, req) by {
            assert(prefix[i] == rules[i]);
        }
        lemma_no_rule_fires(prefix, req);
        assert(!all_match(rules[rules.len() - 1].when@, req));
    }
}

/// Applying the rules is a function of the rules and the request, and a
/// second pass changes nothing when no rule's conditions hold after the first.
pub proof fn lemma_rewrite_twice_is_once(rules: Seq<RequestRewrite>, req: RequestView)
    requires
        forall|i: int| 0 <= i < rules.len() ==> !all_match(
            #[trigger] rules[i].when@,
            request_rewrites_applied(rules, req),
        ),
    ensures
        request_rewrites_applied(rules, request_rewrites_applied(rules, req)) == request_rewrites_applied(rules, req),
{
    lemma_no_rule_fires(rules, request_rewrites_applied(rules, req));
}

/// A header rewrite keeps the number of entries and changes at most the
/// first entry that matches; every other entry, duplicates included, stays
/// as it was.
pub proof fn lemma_header_rewrite_touches_first_match_only(rw: HeaderRewrite, h: HeadersView)
    ensures
        rw.spec_rewrite(h).len() == h.len(),
        forall|j: int| 0 <= j < h.len() && rw.spec_rewrite(h)[j] != h[j] ==> is_first_match(rw.header_match, h, j),
{
}

/// Header names compare without regard to case: two names with the same
/// lower-case form match the same entries.
pub proof fn lemma_header_name_match_ignores_case(m: HeaderMatch, a: Seq<char>, b: Seq<char>, value: Seq<char>)
    requires
        lower_of(a) == lower_of(b),
    ensures
        header_entry_matches(m, a, value) == header_entry_matches(m, b, value),
{
}

/// Expanding against a value that the predicate rejects gives the empty
/// string, unless the predicate is a regular expression without groups:
/// a template whose references cannot be resolved expands to nothing.
pub proof fn lemma_expand_unmatched_is_empty(mv: MatchValue, value: Seq<char>, template: Seq<char>)
    requires
        !mv.spec_matches(value),
        !(mv matches MatchValue::Regex(p) && regex_group_count(p.pattern()) == 1),
    ensures
        mv.spec_expand(value, template) == Seq::<char>::empty(),
{
}

/// A regular expression without capture groups expands by replacing every
/// match in the value, whether or not there is one.
pub proof fn lemma_expand_without_groups_replaces_all(p: Pattern, value: Seq<char>, template: Seq<char>)
    requires
        regex_group_count(p.pattern()) == 1,
    ensures
        MatchValue::Regex(p).spec_expand(value, template) == regex_replace_all(p.pattern(), value, template),
{
}

/// After a body rewrite of a request or a response there is a
/// `content-length` entry (in any case), and every such entry holds the new
/// body's length in decimal.
pub proof fn lemma_body_rewrite_sets_content_length(b: BodyRewrite, req: RequestView, resp: ResponseView)
    ensures
        ({
            let r = Rewrite::Body(b).spec_rewrite_req(req);
            &&& has_content_length(r.headers)
            &&& forall|i: int|
                0 <= i < r.headers.len() && is_content_length(#[trigger] r.headers[i].0) ==> r.headers[i].1 == decimal(
                    r.body.len(),
                )
        }),
        ({
            let r = Rewrite::Body(b).spec_rewrite_resp(resp);
            &&& has_content_length(r.headers)
            &&& forall|i: int|
                0 <= i < r.headers.len() && is_content_length(#[trigger] r.headers[i].0) ==> r.headers[i].1 == decimal(
                    r.body.len(),
                )
        }),
{
    let len = b.replace_with@.len();
    let rq = Rewrite::Body(b).spec_rewrite_req(req);
    let rs = Rewrite::Body(b).spec_rewrite_resp(resp);
    assert(rq.headers == with_content_length(req.headers, len) && rq.body.len() == len);
    assert(rs.headers == with_content_length(resp.headers, len) && rs.body.len() == len);
    lemma_content_length_matches_body(req.headers, len);
    lemma_content_length_matches_body(resp.headers, len);
}

} // verus!
