//! Redirects: sending a request to another origin, or answering it from a
//! file whose path is derived from the request path.
use vstd::prelude::*;
use crate::header::content_length_name;
use crate::message::{clone_headers, headers_view, HttpRequestResult, HttpResponse, RequestView, ResponseView};
use crate::rewrite::{all_match, RuleMatch};
use crate::text::{chars_of, decimal, decimal_string, string_of};
use crate::uri::{uri_authority_of, uri_host_of, uri_scheme_of, Url};

verus! {

/// `p` without one leading `/`.
pub open spec fn strip_leading_slash(p: Seq<char>) -> Seq<char> {
    if p.len() > 0 && p[0] == '/' {
        p.subrange(1, p.len() as int)
    } else {
        p
    }
}

/// `rel` joined onto `base` as a Unix path: an absolute `rel` replaces
/// `base`, otherwise a separator goes between them unless `base` is empty
/// or already ends with one.
pub open spec fn join_path(base: Seq<char>, rel: Seq<char>) -> Seq<char> {
    if rel.len() > 0 && rel[0] == '/' {
        rel
    } else if base.len() == 0 || base.last() == '/' {
        base + rel
    } else {
        base.push('/') + rel
    }
}

/// `p` ends with a `/`.
pub open spec fn ends_with_slash(p: Seq<char>) -> bool {
    p.len() > 0 && p.last() == '/'
}

/// `p` without its trailing separators and trailing `.` components, the
/// way `Path::components` reads the end of a path; a lone `/` or `.` stays.
pub open spec fn trim_path_end(p: Seq<char>) -> Seq<char>
    decreases p.len(),
{
    if p.len() >= 2 && (p.last() == '/' || (p.last() == '.' && p[p.len() - 2] == '/')) {
        trim_path_end(p.drop_last())
    } else {
        p
    }
}

/// The text after the last `/` of `p`.
pub open spec fn last_component(p: Seq<char>) -> Seq<char>
    decreases p.len(),
{
    if p.len() == 0 || p.last() == '/' {
        Seq::empty()
    } else {
        last_component(p.drop_last()).push(p.last())
    }
}

/// A file name: not empty, and neither `.` nor `..`.
pub open spec fn is_file_name(c: Seq<char>) -> bool {
    c.len() > 0 && c != seq!['.'] && c != seq!['.', '.']
}

/// `p` with `suffix` appended to its final component, as
/// `PathBuf::set_file_name` does with the suffixed `PathBuf::file_name`:
/// trailing separators and `.` components are skipped, and the named
/// component is put back onto its parent. A path whose final component is
/// no file name (`/`, `.`, `..`, empty) is left as it is.
pub open spec fn with_file_suffix(p: Seq<char>, suffix: Seq<char>) -> Seq<char> {
    let t = trim_path_end(p);
    let name = last_component(t);
    if is_file_name(name) {
        join_path(trim_path_end(t.subrange(0, t.len() - name.len())), name + suffix)
    } else {
        p
    }
}

/// The name appended to a directory request when serving its index.
pub open spec fn index_name() -> Seq<char> {
    seq!['i', 'n', 'd', 'e', 'x']
}

/// Where a file redirect finds the file for a request.
#[derive(Clone, Debug)]
pub struct FileDestination {
    pub path: String,
    /// Whether a request path ending in `/` is served from its `index` file.
    pub root_index: bool,
    /// Whether the request path is joined onto `path`
    /// (`/path/a` under `/usr/local/www` is `/usr/local/www/path/a`).
    pub replace_path: bool,
    /// Text appended to the final component, for example `.html`.
    pub file_suffix: Option<String>,
    /// The content type of the file.
    pub content_type: String,
}

/// Errors of a file redirect.
#[derive(Clone, Debug)]
pub enum FileDestinationError {
    IoError(String),
}

fn strip_leading(p: &Vec<char>) -> (r: Vec<char>)
    ensures
        r@ == strip_leading_slash(p@),
{
    let start: usize = if p.len() > 0 && p[0] == '/' { 1 } else { 0 };
    let mut r: Vec<char> = Vec::new();
    let mut i: usize = start;
    while i < p.len()
        invariant
            start <= i <= p@.len(),
            r@ == p@.subrange(start as int, i as int),
        decreases p@.len() - i,
    {
        r.push(p[i]);
        i = i + 1;
    }
    r
}

fn append_all(out: &mut Vec<char>, tail: &Vec<char>)
    ensures
        final(out)@ == old(out)@ + tail@,
{
    let mut i: usize = 0;
    while i < tail.len()
        invariant
            i <= tail@.len(),
            out@ == old(out)@ + tail@.subrange(0, i as int),
        decreases tail@.len() - i,
    {
        out.push(tail[i]);
        i = i + 1;
    }
    assert(tail@.subrange(0, tail@.len() as int) =~= tail@);
}

fn join(base: &Vec<char>, rel: &Vec<char>) -> (r: Vec<char>)
    ensures
        r@ == join_path(base@, rel@),
{
    if rel.len() > 0 && rel[0] == '/' {
        return rel.clone();
    }
    let mut r = base.clone();
    if !(base.len() == 0 || base[base.len() - 1] == '/') {
        r.push('/');
    }
    append_all(&mut r, rel);
    r
}

fn take(p: &Vec<char>, n: usize) -> (r: Vec<char>)
    requires
        n <= p@.len(),
    ensures
        r@ == p@.subrange(0, n as int),
{
    let mut r: Vec<char> = Vec::new();
    let mut i: usize = 0;
    while i < n
        invariant
            i <= n <= p@.len(),
            r@ == p@.subrange(0, i as int),
        decreases n - i,
    {
        r.push(p[i]);
        i = i + 1;
    }
    r
}

fn trim_end(p: &Vec<char>) -> (r: Vec<char>)
    ensures
        r@ == trim_path_end(p@),
{
    let mut end: usize = p.len();
    assert(p@.subrange(0, p@.len() as int) =~= p@);
    while end >= 2 && (p[end - 1] == '/' || (p[end - 1] == '.' && p[end - 2] == '/'))
        invariant
            end <= p@.len(),
            trim_path_end(p@.subrange(0, end as int)) == trim_path_end(p@),
        decreases end,
    {
        assert(p@.subrange(0, end as int).drop_last() =~= p@.subrange(0, end - 1));
        end = end - 1;
    }
    take(p, end)
}

/// The index where the final component of `p` (the text after its last
/// `/`) starts.
fn final_component_start(p: &Vec<char>) -> (start: usize)
    ensures
        start <= p@.len(),
        p@.subrange(start as int, p@.len() as int) == last_component(p@),
{
    let mut start: usize = p.len();
    assert(p@.subrange(0, p@.len() as int) =~= p@);
    assert(p@.subrange(p@.len() as int, p@.len() as int) =~= Seq::<char>::empty());
    while start > 0 && p[start - 1] != '/'
        invariant
            start <= p@.len(),
            last_component(p@) == last_component(p@.subrange(0, start as int)) + p@.subrange(start as int, p@.len() as int),
        decreases start,
    {
        let ghost q = p@.subrange(0, start as int);
        assert(q.drop_last() =~= p@.subrange(0, start - 1));
        assert(last_component(p@.subrange(0, start - 1)).push(q.last()) + p@.subrange(start as int, p@.len() as int)
            =~= last_component(p@.subrange(0, start - 1)) + p@.subrange(start - 1, p@.len() as int));
        start = start - 1;
    }
    assert(last_component(p@.subrange(0, start as int)) =~= Seq::<char>::empty());
    assert(last_component(p@) =~= p@.subrange(start as int, p@.len() as int));
    start
}

fn append_suffix(p: &Vec<char>, suffix: &Vec<char>) -> (r: Vec<char>)
    ensures
        r@ == with_file_suffix(p@, suffix@),
{
    let t = trim_end(p);
    let start = final_component_start(&t);
    let mut c: Vec<char> = Vec::new();
    let mut i: usize = start;
    while i < t.len()
        invariant
            start <= i <= t@.len(),
            c@ == t@.subrange(start as int, i as int),
        decreases t@.len() - i,
    {
        c.push(t[i]);
        i = i + 1;
    }
    let is_name = c.len() > 0 && !(c.len() == 1 && c[0] == '.') && !(c.len() == 2 && c[0] == '.' && c[1] == '.');
    assert(is_name == is_file_name(c@)) by {
        if c@.len() == 1 && c@ == seq!['.'] {
            assert(c@[0] == '.');
        }
        if c@.len() == 2 && c@ == seq!['.', '.'] {
            assert(c@[0] == '.' && c@[1] == '.');
        }
        if c@.len() == 1 && c@[0] == '.' {
            assert(c@ =~= seq!['.']);
        }
        if c@.len() == 2 && c@[0] == '.' && c@[1] == '.' {
            assert(c@ =~= seq!['.', '.']);
        }
    }
    if is_name {
        let head = take(&t, start);
        assert(t@.subrange(0, t@.len() - c@.len()) =~= head@);
        let parent = trim_end(&head);
        let mut named = c;
        append_all(&mut named, suffix);
        join(&parent, &named)
    } else {
        p.clone()
    }
}

impl FileDestination {
    /// The file path for a request path: the configured path when
    /// `replace_path` is off; otherwise the request path without its leading
    /// `/` joined onto it, then `index` for a path ending in `/` when
    /// `root_index` is on, then the suffix on the final component.
    pub open spec fn spec_path_for(&self, req_path: Seq<char>) -> Seq<char> {
        if !self.replace_path {
            self.path@
        } else {
            let joined = join_path(self.path@, strip_leading_slash(req_path));
            let indexed = if self.root_index && ends_with_slash(req_path) {
                join_path(joined, index_name())
            } else {
                joined
            };
            match self.file_suffix {
                Some(s) => with_file_suffix(indexed, s@),
                None => indexed,
            }
        }
    }

    /// The path of the file that answers `req`.
    pub fn path_for_request(&self, req: &HttpRequestResult) -> (r: String)
        ensures
            r@ == self.spec_path_for(req@.path),
    {
        let base = chars_of(self.path.as_str());
        if !self.replace_path {
            return string_of(base.as_slice());
        }
        let req_path = chars_of(req.path.as_str());
        let rel = strip_leading(&req_path);
        let joined = join(&base, &rel);
        let ends = req_path.len() > 0 && req_path[req_path.len() - 1] == '/';
        let indexed = if self.root_index && ends {
            let index = vec!['i', 'n', 'd', 'e', 'x'];
            assert(index@ =~= index_name());
            join(&joined, &index)
        } else {
            joined
        };
        let result = match &self.file_suffix {
            Some(s) => {
                let sfx = chars_of(s.as_str());
                append_suffix(&indexed, &sfx)
            },
            None => indexed,
        };
        string_of(result.as_slice())
    }

    /// The response that serves a file whose contents were read (or not)
    /// from [`FileDestination::path_for_request`]: status 200 with the
    /// configured content type and the content length, or the read error.
    pub fn resp(&self, req: &HttpRequestResult, contents: Result<Vec<u8>, FileDestinationError>) -> (r: Result<
        HttpResponse,
        FileDestinationError,
    >)
        ensures
            contents is Err <==> r is Err,
            contents is Err ==> r->Err_0 == contents->Err_0,
            contents is Ok ==> file_response_of(r->Ok_0@, self.content_type@, contents->Ok_0@, req@),
    {
        match contents {
            Err(e) => Err(e),
            Ok(body) => {
                proof {
                    reveal_strlit("content-type");
                    reveal_strlit("content-length");
                }
                let len = body.len();
                let mut headers: Vec<(String, String)> = Vec::new();
                let ctype_key = String::from_str("content-type");
                let clen_key = String::from_str("content-length");
                assert(ctype_key@ =~= content_type_name());
                assert(clen_key@ =~= content_length_name());
                headers.push((ctype_key, self.content_type.clone()));
                headers.push((clen_key, decimal_string(len as u64)));
                let resp = HttpResponse {
                    headers,
                    status: 200,
                    body,
                    request_path: req.path.clone(),
                    request_authority: req.authority.clone(),
                    request_host: req.host.clone(),
                    request_scheme: req.scheme.clone(),
                    request_version: req.version.clone(),
                    request_headers: clone_headers(&req.headers),
                    request_method: req.method.clone(),
                };
                assert(headers_view(resp.headers@) =~= seq![
                    (content_type_name(), self.content_type@),
                    (content_length_name(), decimal(len as nat)),
                ]);
                Ok(resp)
            },
        }
    }
}

/// The name `content-type`.
pub open spec fn content_type_name() -> Seq<char> {
    seq!['c', 'o', 'n', 't', 'e', 'n', 't', '-', 't', 'y', 'p', 'e']
}

/// `resp` serves `body` with status 200, its content type and length, for `req`.
pub open spec fn file_response_of(resp: ResponseView, content_type: Seq<char>, body: Seq<u8>, req: RequestView) -> bool {
    &&& resp.status == 200
    &&& resp.body == body
    &&& resp.headers == seq![(content_type_name(), content_type), (content_length_name(), decimal(body.len()))]
    &&& resp.request.path == req.path
    &&& resp.request.authority == req.authority
    &&& resp.request.host == req.host
    &&& resp.request.scheme == req.scheme
    &&& resp.request.version == req.version
    &&& resp.request.method == req.method
    &&& resp.request.headers == req.headers
}

/// Sends a request to another origin.
#[derive(Clone, Debug)]
pub struct UrlDestination {
    pub url: Url,
    /// Whether the request keeps its path and query
    /// (`https://google.com/path/a` becomes `https://duckduckgo.com/path/a`).
    pub replace_path_and_query: bool,
}

/// Where a redirect sends a request.
#[derive(Clone, Debug)]
pub enum RedirectDestination {
    File(FileDestination),
    Url(UrlDestination),
}

/// A redirect that applies when all of its conditions hold.
#[derive(Clone, Debug)]
pub struct RequestRedirect {
    pub when: Vec<RuleMatch>,
    pub to: RedirectDestination,
}

impl RequestRedirect {
    /// The request after the redirect: for a URL destination with a scheme,
    /// an authority and a host, those three are replaced and the path is
    /// kept or cleared; otherwise nothing changes.
    pub open spec fn spec_redirect(&self, req: RequestView) -> RequestView {
        if !all_match(self.when@, req) {
            req
        } else {
            match self.to {
                RedirectDestination::File(_) => req,
                RedirectDestination::Url(dest) => {
                    let text = dest.url.text();
                    if uri_scheme_of(text) is Some && uri_authority_of(text) is Some && uri_host_of(text) is Some {
                        RequestView {
                            path: if dest.replace_path_and_query { req.path } else { Seq::empty() },
                            authority: uri_authority_of(text)->Some_0,
                            host: uri_host_of(text)->Some_0,
                            scheme: uri_scheme_of(text)->Some_0,
                            version: req.version,
                            headers: req.headers,
                            method: req.method,
                            body: req.body,
                        }
                    } else {
                        req
                    }
                },
            }
        }
    }

    /// Whether every condition holds of `req`.
    pub fn should_redirect_request(&self, req: &HttpRequestResult) -> (r: bool)
        ensures
            r == all_match(self.when@, req@),
    {
        let mut i: usize = 0;
        while i < self.when.len()
            invariant
                i <= self.when@.len(),
                forall|j: int| 0 <= j < i ==> (#[trigger] self.when@[j]).spec_matches(req@),
            decreases self.when@.len() - i,
        {
            if !self.when[i].matches(req) {
                return false;
            }
            i = i + 1;
        }
        true
    }

    /// Points the request at the destination, when the conditions hold.
    pub fn redirect_request(&self, req: &mut HttpRequestResult)
        ensures
            final(req)@ == self.spec_redirect(old(req)@),
    {
        if !self.should_redirect_request(req) {
            return;
        }
        match &self.to {
            RedirectDestination::File(_) => {},
            RedirectDestination::Url(dest) => {
                let scheme = dest.url.scheme();
                let authority = dest.url.authority();
                let host = dest.url.host();
                match (scheme, authority, host) {
                    (Some(scheme), Some(authority), Some(host)) => {
                        req.authority = authority;
                        req.scheme = scheme;
                        req.host = host;
                        if !dest.replace_path_and_query {
                            req.path = String::new();
                        }
                    },
                    _ => {},
                }
            },
        }
    }

    /// A fresh request for a URL destination that has an authority and a
    /// scheme: version `HTTP/1.1`, no headers, an empty body.
    pub fn request(&self, method: &str, path_and_query: &str) -> (r: Option<HttpRequestResult>)
        ensures
            r is Some <==> (self.to is Url && uri_authority_of(self.to->Url_0.url.text()) is Some
                && uri_scheme_of(self.to->Url_0.url.text()) is Some),
            r is Some ==> ({
                let text = self.to->Url_0.url.text();
                let v = r->Some_0@;
                &&& v.path == path_and_query@
                &&& v.authority == uri_authority_of(text)->Some_0
                &&& v.host == uri_authority_of(text)->Some_0
                &&& v.scheme == uri_scheme_of(text)->Some_0
                &&& v.version == "HTTP/1.1"@
                &&& v.headers.len() == 0
                &&& v.method == method@
                &&& v.body.len() == 0
            }),
    {
        match &self.to {
            RedirectDestination::Url(destination) => {
                let authority = match destination.url.authority() {
                    Some(a) => a,
                    None => {
                        return None;
                    },
                };
                let scheme = match destination.url.scheme() {
                    Some(s) => s,
                    None => {
                        return None;
                    },
                };
                let req = HttpRequestResult {
                    path: path_and_query.to_owned(),
                    host: authority.clone(),
                    authority,
                    scheme,
                    version: String::from_str("HTTP/1.1"),
                    headers: Vec::new(),
                    method: method.to_owned(),
                    body: Vec::new(),
                };
                Some(req)
            },
            RedirectDestination::File(_) => None,
        }
    }
}

} // verus!
