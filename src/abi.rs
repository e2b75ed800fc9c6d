//! The host side of the hook interface: the record each invocation works
//! on, and the operations a hook may call on it. Every string and byte
//! slice is copied in and out.
use vstd::prelude::*;
use crate::hostname::Hostname;
use crate::message::{
    clone_headers, headers_view, HeadersView, HttpPreRequest, HttpRequestResult, HttpResponse, ProxyMode,
    RequestView, ResponseView,
};
use crate::rewrite::request_with_headers;
use crate::pipeline::{spec_version, spec_version_text, version_text, HttpVersion};
use crate::text::{chars_equal, chars_of};
use crate::uri::{uri_authority_of, uri_host_of, uri_parses, uri_path_of, uri_scheme_of, Url};

verus! {

/// The pre-request operations a hook may call.
pub trait PreRequest: Sized {
    fn http_request_get(&mut self) -> HttpPreRequest;

    fn http_set_proxy_mode(&mut self, mode: ProxyMode);
}

/// The request operations a hook may call.
pub trait Request: Sized {
    fn http_request_get(&mut self) -> Result<HttpRequestResult, String>;

    fn http_request_set(&mut self, request: HttpRequestParam<'_>);

    fn http_request_set_method(&mut self, method: &str) -> Result<(), String>;

    fn http_request_set_header(&mut self, header: &str, value: &str) -> Result<(), String>;

    fn http_request_set_uri(&mut self, uri: &str) -> Result<(), String>;

    fn http_request_set_version(&mut self, version: &str) -> Result<(), String>;

    fn http_request_set_body(&mut self, body: &[u8]) -> Result<(), String>;

    fn http_request_rm_header(&mut self, header: &str) -> Result<(), String>;
}

/// The response operations a hook may call.
pub trait Response: Sized {
    fn http_response_get(&mut self) -> Result<HttpResponse, String>;

    fn http_response_set_status(&mut self, status: u16) -> Result<(), String>;

    fn http_response_set_body(&mut self, body: &[u8]) -> Result<(), String>;

    fn http_response_set_headers(&mut self, headers: Vec<(&str, &str)>) -> Result<(), String>;
}

/// The configuration operations a hook may call.
pub trait Config: Sized {
    fn get_config_data(&mut self) -> Vec<u8>;

    fn set_invalid_data(&mut self, error: &str);
}

/// A whole request as a hook hands it back, borrowed from the hook.
#[derive(Clone, Debug)]
pub struct HttpRequestParam<'a> {
    pub path: &'a str,
    pub authority: &'a str,
    pub host: &'a str,
    pub scheme: &'a str,
    pub version: &'a str,
    pub headers: Vec<(&'a str, &'a str)>,
    pub method: &'a str,
    pub body: &'a [u8],
}

/// The status and headers of a response, as a hook hands them back.
#[derive(Clone, Debug)]
pub struct HttpResponseParam<'a> {
    pub headers: Vec<(&'a str, &'a str)>,
    pub status: u16,
}

/// The status and headers of a response, as the host hands them out.
#[derive(Clone, Debug)]
pub struct HttpResponseResult {
    pub headers: Vec<(String, String)>,
    pub status: u16,
}

/// The view of a borrowed header list.
pub open spec fn borrowed_headers_view(h: Seq<(&str, &str)>) -> HeadersView {
    Seq::new(h.len(), |i: int| (h[i].0@, h[i].1@))
}

/// An owned copy of a borrowed header list.
pub fn own_headers(h: &Vec<(&str, &str)>) -> (r: Vec<(String, String)>)
    ensures
        headers_view(r@) == borrowed_headers_view(h@),
{
    let mut r: Vec<(String, String)> = Vec::new();
    let mut i: usize = 0;
    while i < h.len()
        invariant
            i <= h@.len(),
            headers_view(r@) == borrowed_headers_view(h@).subrange(0, i as int),
        decreases h@.len() - i,
    {
        let name = h[i].0.to_owned();
        let value = h[i].1.to_owned();
        let ghost before = r@;
        assert(headers_view(before).len() == before.len());
        assert(before.len() == i);
        r.push((name, value));
        assert(headers_view(r@) =~= borrowed_headers_view(h@).subrange(0, i + 1)) by {
            assert forall|j: int| 0 <= j <= i implies #[trigger] headers_view(r@)[j]
                == borrowed_headers_view(h@)[j] by {
                if j < i {
                    assert(r@[j] == before[j]);
                    assert(headers_view(before)[j] == borrowed_headers_view(h@).subrange(0, i as int)[j]);
                }
            }
        }
        i = i + 1;
    }
    assert(borrowed_headers_view(h@).subrange(0, h@.len() as int) =~= borrowed_headers_view(h@));
    r
}

fn copy_slice(b: &[u8]) -> (r: Vec<u8>)
    ensures
        r@ == b@,
{
    let mut r: Vec<u8> = Vec::new();
    let mut i: usize = 0;
    while i < b.len()
        invariant
            i <= b@.len(),
            r@ == b@.subrange(0, i as int),
        decreases b@.len() - i,
    {
        r.push(b[i]);
        i = i + 1;
    }
    r
}

/// A copy of a request record.
pub fn clone_request(r: &HttpRequestResult) -> (c: HttpRequestResult)
    ensures
        c@ == r@,
{
    HttpRequestResult {
        path: r.path.clone(),
        authority: r.authority.clone(),
        host: r.host.clone(),
        scheme: r.scheme.clone(),
        version: r.version.clone(),
        headers: clone_headers(&r.headers),
        method: r.method.clone(),
        body: copy_slice(r.body.as_slice()),
    }
}

/// `i` is the first entry of `h` named exactly `name`.
pub open spec fn is_first_exact(h: HeadersView, name: Seq<char>, i: int) -> bool {
    &&& 0 <= i < h.len()
    &&& h[i].0 == name
    &&& forall|j: int| 0 <= j < i ==> (#[trigger] h[j]).0 != name
}

/// `h` with the value of its first entry named `name` replaced, or with the
/// entry appended when there is none.
pub open spec fn spec_set_header(h: HeadersView, name: Seq<char>, value: Seq<char>) -> HeadersView {
    if exists|i: int| is_first_exact(h, name, i) {
        let i = choose|i: int| is_first_exact(h, name, i);
        h.update(i, (h[i].0, value))
    } else {
        h.push((name, value))
    }
}

/// `h` without its first entry named `name`.
pub open spec fn spec_remove_header(h: HeadersView, name: Seq<char>) -> HeadersView {
    if exists|i: int| is_first_exact(h, name, i) {
        h.remove(choose|i: int| is_first_exact(h, name, i))
    } else {
        h
    }
}

fn find_exact(headers: &Vec<(String, String)>, name: &str) -> (r: Option<usize>)
    ensures
        r is Some ==> is_first_exact(headers_view(headers@), name@, r->Some_0 as int),
        r is None ==> !exists|i: int| is_first_exact(headers_view(headers@), name@, i),
        r is None ==> forall|j: int| 0 <= j < headers@.len() ==> (#[trigger] headers_view(headers@)[j]).0 != name@,
{
    let ghost h = headers_view(headers@);
    let wanted = chars_of(name);
    let mut i: usize = 0;
    while i < headers.len()
        invariant
            i <= headers@.len(),
            h == headers_view(headers@),
            wanted@ == name@,
            forall|j: int| 0 <= j < i ==> (#[trigger] h[j]).0 != name@,
        decreases headers@.len() - i,
    {
        let current = chars_of(headers[i].0.as_str());
        if chars_equal(current.as_slice(), wanted.as_slice()) {
            assert(is_first_exact(h, name@, i as int));
            return Some(i);
        }
        i = i + 1;
    }
    None
}

/// The host's state for one pre-request invocation.
#[derive(Debug)]
pub struct ProxyHttpPreRequest {
    pub request: HttpPreRequest,
    pub mode: ProxyMode,
}

impl ProxyHttpPreRequest {
    /// The tentative request for a CONNECT target, with path `/`; a hook
    /// that says nothing lets the connection pass.
    pub fn new(hostname: Hostname) -> (r: Self)
        ensures
            r.request.path@ == "/"@,
            r.request.authority@ == hostname.authority@,
            r.request.host@ == hostname.host@,
            r.request.scheme@ == hostname.scheme@,
            r.mode == ProxyMode::Pass,
    {
        ProxyHttpPreRequest {
            request: HttpPreRequest {
                path: String::from_str("/"),
                authority: hostname.authority,
                host: hostname.host,
                scheme: hostname.scheme,
            },
            mode: ProxyMode::Pass,
        }
    }
}

impl ProxyHttpPreRequest {
    /// A copy of the tentative request.
    pub fn get(&self) -> (r: HttpPreRequest)
        ensures
            r == self.request,
    {
        HttpPreRequest {
            path: self.request.path.clone(),
            authority: self.request.authority.clone(),
            host: self.request.host.clone(),
            scheme: self.request.scheme.clone(),
        }
    }

    /// Records the hook's decision.
    pub fn set_mode(&mut self, mode: ProxyMode)
        ensures
            final(self).mode == mode,
            final(self).request == old(self).request,
    {
        self.mode = mode;
    }
}

impl PreRequest for ProxyHttpPreRequest {
    fn http_request_get(&mut self) -> HttpPreRequest {
        self.get()
    }

    fn http_set_proxy_mode(&mut self, mode: ProxyMode) {
        self.set_mode(mode);
    }
}

/// The text of an optional part, or the fallback where there is none.
fn or_else_text(part: Option<String>, fallback: &str) -> (r: String)
    ensures
        part is Some ==> r == part->Some_0,
        part is None ==> r@ == fallback@,
{
    match part {
        Some(p) => p,
        None => fallback.to_owned(),
    }
}

/// The record of an inbound request: host, authority and scheme are the
/// URI's own; where the URI has none the host is empty and the authority
/// and the scheme are the listener's.
pub fn request_record(
    uri_host: Option<String>,
    uri_authority: Option<String>,
    uri_scheme: Option<String>,
    path: String,
    scheme: &str,
    authority: &str,
    method: String,
    version: HttpVersion,
    headers: Vec<(String, String)>,
    body: Vec<u8>,
) -> (r: HttpRequestResult)
    ensures
        uri_host is Some ==> r.host == uri_host->Some_0,
        uri_host is None ==> r.host@ == Seq::<char>::empty(),
        uri_authority is Some ==> r.authority == uri_authority->Some_0,
        uri_authority is None ==> r.authority@ == authority@,
        uri_scheme is Some ==> r.scheme == uri_scheme->Some_0,
        uri_scheme is None ==> r.scheme@ == scheme@,
        r.path == path,
        r.method == method,
        r.version@ == spec_version_text(version),
        r.headers == headers,
        r.body == body,
{
    proof {
        reveal_strlit("");
    }
    HttpRequestResult {
        path,
        authority: or_else_text(uri_authority, authority),
        host: or_else_text(uri_host, ""),
        scheme: or_else_text(uri_scheme, scheme),
        version: version_text(version),
        headers,
        method,
        body,
    }
}

/// The record of an upstream response, with an echo of the request that
/// produced it: its method, authority, host, scheme, version and path; the
/// echoed header list is left empty.
pub fn response_record(
    status: u16,
    headers: Vec<(String, String)>,
    body: Vec<u8>,
    request: &HttpRequestResult,
) -> (r: HttpResponse)
    ensures
        r.status == status,
        r.headers == headers,
        r.body == body,
        r@.request == (RequestView { headers: Seq::empty(), body: Seq::empty(), ..request@ }),
{
    let r = HttpResponse {
        headers,
        status,
        body,
        request_path: request.path.clone(),
        request_authority: request.authority.clone(),
        request_host: request.host.clone(),
        request_scheme: request.scheme.clone(),
        request_version: request.version.clone(),
        request_headers: Vec::new(),
        request_method: request.method.clone(),
    };
    assert(headers_view(r.request_headers@) =~= Seq::<(Seq<char>, Seq<char>)>::empty());
    r
}

/// The host's state for one request invocation.
#[derive(Debug)]
pub struct ProxyHttpRequest {
    pub request: HttpRequestResult,
}

/// `v` with a new method.
pub open spec fn with_method(v: RequestView, method: Seq<char>) -> RequestView {
    RequestView { method, ..v }
}

/// `v` with a new version.
pub open spec fn with_version(v: RequestView, version: Seq<char>) -> RequestView {
    RequestView { version, ..v }
}

/// `v` with a new body.
pub open spec fn with_body(v: RequestView, body: Seq<u8>) -> RequestView {
    RequestView { body, ..v }
}

/// The record a hook hands back, as owned values.
pub open spec fn param_view(p: HttpRequestParam) -> RequestView {
    RequestView {
        path: p.path@,
        authority: p.authority@,
        host: p.host@,
        scheme: p.scheme@,
        version: p.version@,
        headers: borrowed_headers_view(p.headers@),
        method: p.method@,
        body: p.body@,
    }
}

/// The message for a version a hook may not set.
pub open spec fn invalid_version_message(v: Seq<char>) -> Seq<char> {
    "Invalid version: "@ + v
}

/// The message for a URI that does not parse.
pub open spec fn invalid_uri_message(u: Seq<char>) -> Seq<char> {
    "Invalid uri: "@ + u
}

impl ProxyHttpRequest {
    /// Wraps a request for a hook invocation.
    pub fn new(request: HttpRequestResult) -> (r: Self)
        ensures
            r.request@ == request@,
    {
        ProxyHttpRequest { request }
    }

    /// Sets the value of the first header with exactly this name, or adds it.
    pub fn set_header(&mut self, header: &str, value: &str)
        ensures
            final(self).request@ == request_with_headers(
                old(self).request@,
                spec_set_header(old(self).request@.headers, header@, value@),
            ),
    {
        let ghost h = self.request@.headers;
        match find_exact(&self.request.headers, header) {
            Some(i) => {
                let name = self.request.headers[i].0.clone();
                self.request.headers.set(i, (name, value.to_owned()));
                proof {
                    let k = choose|k: int| is_first_exact(h, header@, k);
                    if k < i {
                        assert(h[k].0 != header@);
                    } else if i < k {
                        assert(h[i as int].0 != header@);
                    }
                }
                assert(self.request@.headers =~= spec_set_header(h, header@, value@));
            },
            None => {
                self.request.headers.push((header.to_owned(), value.to_owned()));
                assert(self.request@.headers =~= spec_set_header(h, header@, value@));
            },
        }
    }

    /// Removes the first header with exactly this name.
    pub fn rm_header(&mut self, header: &str)
        ensures
            final(self).request@ == request_with_headers(
                old(self).request@,
                spec_remove_header(old(self).request@.headers, header@),
            ),
    {
        let ghost h = self.request@.headers;
        match find_exact(&self.request.headers, header) {
            Some(i) => {
                self.request.headers.remove(i);
                proof {
                    let k = choose|k: int| is_first_exact(h, header@, k);
                    if k < i {
                        assert(h[k].0 != header@);
                    } else if i < k {
                        assert(h[i as int].0 != header@);
                    }
                }
                assert(self.request@.headers =~= spec_remove_header(h, header@));
            },
            None => {},
        }
    }

    /// Points the request at a URI: its host, authority, path and scheme,
    /// each empty where the URI has none; a URI that does not parse is refused.
    pub fn set_uri(&mut self, uri: &str) -> (r: Result<(), String>)
        ensures
            r is Err <==> !uri_parses(uri@),
            r is Err ==> r->Err_0@ == invalid_uri_message(uri@) && final(self).request@ == old(self).request@,
            r is Ok ==> ({
                let v = final(self).request@;
                &&& v.host == (match uri_host_of(uri@) { Some(x) => x, None => Seq::empty() })
                &&& v.authority == (match uri_authority_of(uri@) { Some(x) => x, None => Seq::empty() })
                &&& v.path == uri_path_of(uri@)
                &&& v.scheme == (match uri_scheme_of(uri@) { Some(x) => x, None => Seq::empty() })
                &&& v.method == old(self).request@.method
                &&& v.version == old(self).request@.version
                &&& v.headers == old(self).request@.headers
                &&& v.body == old(self).request@.body
            }),
    {
        let parsed = match Url::parse(uri) {
            Some(u) => u,
            None => {
                let mut message = String::from_str("Invalid uri: ");
                message.append(uri);
                return Err(message);
            },
        };
        self.request.host = match parsed.host() {
            Some(h) => h,
            None => String::new(),
        };
        self.request.authority = match parsed.authority() {
            Some(a) => a,
            None => String::new(),
        };
        self.request.path = parsed.path();
        self.request.scheme = match parsed.scheme() {
            Some(s) => s,
            None => String::new(),
        };
        Ok(())
    }

    /// Sets the version, one of `HTTP/0.9`, `HTTP/1.0`, `HTTP/1.1`,
    /// `HTTP/2.0` and `HTTP/3.0`; any other is refused.
    pub fn set_version(&mut self, version: &str) -> (r: Result<(), String>)
        ensures
            r is Ok <==> spec_version(version@) is Some,
            r is Ok ==> final(self).request@ == with_version(old(self).request@, version@),
            r is Err ==> r->Err_0@ == invalid_version_message(version@) && final(self).request@ == old(self).request@,
    {
        match crate::pipeline::convert_version(version) {
            Ok(_) => {
                self.request.version = version.to_owned();
                Ok(())
            },
            Err(_) => {
                let mut message = String::from_str("Invalid version: ");
                message.append(version);
                Err(message)
            },
        }
    }
}

impl ProxyHttpRequest {
    /// A copy of the request.
    pub fn get(&self) -> (r: HttpRequestResult)
        ensures
            r@ == self.request@,
    {
        clone_request(&self.request)
    }

    /// Replaces the whole request with owned copies of the hook's record.
    pub fn set_request(&mut self, request: &HttpRequestParam<'_>)
        ensures
            final(self).request@ == param_view(*request),
    {
        self.request = HttpRequestResult {
            path: request.path.to_owned(),
            authority: request.authority.to_owned(),
            host: request.host.to_owned(),
            scheme: request.scheme.to_owned(),
            version: request.version.to_owned(),
            headers: own_headers(&request.headers),
            method: request.method.to_owned(),
            body: copy_slice(request.body),
        };
    }

    /// Sets the method.
    pub fn set_method(&mut self, method: &str)
        ensures
            final(self).request@ == with_method(old(self).request@, method@),
    {
        self.request.method = method.to_owned();
    }

    /// Sets the body to a copy of `body`.
    pub fn set_body(&mut self, body: &[u8])
        ensures
            final(self).request@ == with_body(old(self).request@, body@),
    {
        self.request.body = copy_slice(body);
    }
}

impl Request for ProxyHttpRequest {
    fn http_request_get(&mut self) -> Result<HttpRequestResult, String> {
        Ok(self.get())
    }

    fn http_request_set(&mut self, request: HttpRequestParam<'_>) {
        self.set_request(&request);
    }

    fn http_request_set_method(&mut self, method: &str) -> Result<(), String> {
        self.set_method(method);
        Ok(())
    }

    fn http_request_set_header(&mut self, header: &str, value: &str) -> Result<(), String> {
        self.set_header(header, value);
        Ok(())
    }

    fn http_request_set_uri(&mut self, uri: &str) -> Result<(), String> {
        self.set_uri(uri)
    }

    fn http_request_set_version(&mut self, version: &str) -> Result<(), String> {
        self.set_version(version)
    }

    fn http_request_set_body(&mut self, body: &[u8]) -> Result<(), String> {
        self.set_body(body);
        Ok(())
    }

    fn http_request_rm_header(&mut self, header: &str) -> Result<(), String> {
        self.rm_header(header);
        Ok(())
    }
}

/// The host's state for one response invocation.
#[derive(Debug)]
pub struct ProxyHttpResponse {
    pub response: HttpResponse,
}

impl ProxyHttpResponse {
    /// Wraps a response for a hook invocation.
    pub fn new(response: HttpResponse) -> (r: Self)
        ensures
            r.response@ == response@,
    {
        ProxyHttpResponse { response }
    }

    /// Replaces the headers with owned copies of `headers`.
    pub fn set_headers(&mut self, headers: &Vec<(&str, &str)>)
        ensures
            final(self).response@.headers == borrowed_headers_view(headers@),
            final(self).response@.status == old(self).response@.status,
            final(self).response@.body == old(self).response@.body,
            final(self).response@.request == old(self).response@.request,
    {
        self.response.headers = own_headers(headers);
    }

    /// Sets the status.
    pub fn set_status(&mut self, status: u16)
        ensures
            final(self).response@ == (ResponseView { status, ..old(self).response@ }),
    {
        self.response.status = status;
    }

    /// Sets the body to a copy of `body`.
    pub fn set_body(&mut self, body: &[u8])
        ensures
            final(self).response@ == (ResponseView { body: body@, ..old(self).response@ }),
    {
        self.response.body = copy_slice(body);
    }

    /// A copy of the response.
    pub fn get(&self) -> (r: HttpResponse)
        ensures
            r@ == self.response@,
    {
        let r = &self.response;
        HttpResponse {
            headers: clone_headers(&r.headers),
            status: r.status,
            body: copy_slice(r.body.as_slice()),
            request_path: r.request_path.clone(),
            request_authority: r.request_authority.clone(),
            request_host: r.request_host.clone(),
            request_scheme: r.request_scheme.clone(),
            request_version: r.request_version.clone(),
            request_headers: clone_headers(&r.request_headers),
            request_method: r.request_method.clone(),
        }
    }
}

impl Response for ProxyHttpResponse {
    fn http_response_get(&mut self) -> Result<HttpResponse, String> {
        Ok(self.get())
    }

    fn http_response_set_status(&mut self, status: u16) -> Result<(), String> {
        self.set_status(status);
        Ok(())
    }

    fn http_response_set_body(&mut self, body: &[u8]) -> Result<(), String> {
        self.set_body(body);
        Ok(())
    }

    fn http_response_set_headers(&mut self, headers: Vec<(&str, &str)>) -> Result<(), String> {
        self.set_headers(&headers);
        Ok(())
    }
}

/// The host's configuration state for one invocation: the listener's
/// configuration bytes, and the message a hook reported about them, if it
/// reported one (an empty message is still a report).
#[derive(Debug)]
pub struct ProxyConfig {
    pub config: Option<Vec<u8>>,
    pub error: Option<String>,
}

impl ProxyConfig {
    /// The configuration bytes, empty when the listener has none.
    pub fn config_data(&self) -> (r: Vec<u8>)
        ensures
            self.config is Some ==> r@ == self.config->Some_0@,
            self.config is None ==> r@.len() == 0,
    {
        match &self.config {
            Some(bytes) => copy_slice(bytes.as_slice()),
            None => Vec::new(),
        }
    }
}

impl ProxyConfig {
    /// The message a hook reported about its configuration, if it reported one.
    pub fn reported_error(&self) -> (r: Option<String>)
        ensures
            r == self.error,
    {
        match &self.error {
            Some(message) => Some(message.clone()),
            None => None,
        }
    }

    /// Records the message a hook reports about its configuration.
    pub fn set_error(&mut self, error: &str)
        ensures
            final(self).error is Some,
            final(self).error->Some_0@ == error@,
            final(self).config == old(self).config,
    {
        self.error = Some(error.to_owned());
    }
}

impl Config for ProxyConfig {
    fn get_config_data(&mut self) -> Vec<u8> {
        self.config_data()
    }

    fn set_invalid_data(&mut self, error: &str) {
        self.set_error(error);
    }
}

/// What a pre-request invocation decided: the message the hook reported,
/// if it reported one, else its decision (to pass, when it made none).
pub fn pre_request_outcome(state: &ProxyHttpPreRequest, config: &ProxyConfig) -> (r: Result<ProxyMode, String>)
    ensures
        config.error is Some ==> r is Err && r->Err_0 == config.error->Some_0,
        config.error is None ==> r == Ok::<ProxyMode, String>(state.mode),
{
    match config.reported_error() {
        Some(message) => Err(message),
        None => Ok(state.mode),
    }
}

/// What a request invocation produced: the message the hook reported, if
/// it reported one, else the request as the hook left it.
pub fn request_outcome(state: ProxyHttpRequest, config: &ProxyConfig) -> (r: Result<HttpRequestResult, String>)
    ensures
        config.error is Some ==> r is Err && r->Err_0 == config.error->Some_0,
        config.error is None ==> r is Ok && r->Ok_0 == state.request,
{
    match config.reported_error() {
        Some(message) => Err(message),
        None => Ok(state.request),
    }
}

/// What a response invocation produced: the message the hook reported, if
/// it reported one, else the response as the hook left it.
pub fn response_outcome(state: ProxyHttpResponse, config: &ProxyConfig) -> (r: Result<HttpResponse, String>)
    ensures
        config.error is Some ==> r is Err && r->Err_0 == config.error->Some_0,
        config.error is None ==> r is Ok && r->Ok_0 == state.response,
{
    match config.reported_error() {
        Some(message) => Err(message),
        None => Ok(state.response),
    }
}

} // verus!
