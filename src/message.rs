//! The records that cross the host/hook boundary, and their mathematical views.
use vstd::prelude::*;

verus! {

/// A header list as name/value character sequences, in order.
pub type HeadersView = Seq<(Seq<char>, Seq<char>)>;

/// The view of a header list.
pub open spec fn headers_view(h: Seq<(String, String)>) -> HeadersView {
    Seq::new(h.len(), |i: int| (h[i].0@, h[i].1@))
}

/// A copy of a header list, entry by entry.
pub fn clone_headers(h: &Vec<(String, String)>) -> (r: Vec<(String, String)>)
    ensures
        headers_view(r@) == headers_view(h@),
{
    let mut r: Vec<(String, String)> = Vec::new();
    let mut i: usize = 0;
    while i < h.len()
        invariant
            i <= h@.len(),
            headers_view(r@) == headers_view(h@).subrange(0, i as int),
        decreases h@.len() - i,
    {
        let name = h[i].0.clone();
        let value = h[i].1.clone();
        assert(name@ == h@[i as int].0@ && value@ == h@[i as int].1@);
        let ghost before = r@;
        assert(headers_view(before).len() == before.len());
        assert(before.len() == i);
        r.push((name, value));
        assert(r@ == before.push((name, value)));
        assert forall|j: int| 0 <= j < i implies #[trigger] r@[j] == before[j] by {}
        assert(headers_view(r@) =~= headers_view(h@).subrange(0, i + 1)) by {
            assert forall|j: int| 0 <= j <= i implies #[trigger] headers_view(r@)[j] == headers_view(h@)[j] by {
                if j < i {
                    assert(headers_view(before)[j] == headers_view(h@).subrange(0, i as int)[j]);
                }
            }
        }
        i = i + 1;
    }
    assert(headers_view(h@).subrange(0, h@.len() as int) =~= headers_view(h@));
    r
}

/// A parsed HTTP request as handed to the request hook.
#[derive(Clone, Debug)]
pub struct HttpRequestResult {
    pub path: String,
    pub authority: String,
    pub host: String,
    pub scheme: String,
    pub version: String,
    pub headers: Vec<(String, String)>,
    pub method: String,
    pub body: Vec<u8>,
}

/// The request record under the name the host side uses.
pub type HttpRequest = HttpRequestResult;

/// Mathematical view of a request.
pub struct RequestView {
    pub path: Seq<char>,
    pub authority: Seq<char>,
    pub host: Seq<char>,
    pub scheme: Seq<char>,
    pub version: Seq<char>,
    pub headers: HeadersView,
    pub method: Seq<char>,
    pub body: Seq<u8>,
}

impl View for HttpRequestResult {
    type V = RequestView;

    open spec fn view(&self) -> RequestView {
        RequestView {
            path: self.path@,
            authority: self.authority@,
            host: self.host@,
            scheme: self.scheme@,
            version: self.version@,
            headers: headers_view(self.headers@),
            method: self.method@,
            body: self.body@,
        }
    }
}

/// A response as handed to the response hook, with an echo of the request
/// that produced it.
#[derive(Clone, Debug)]
pub struct HttpResponse {
    pub headers: Vec<(String, String)>,
    pub status: u16,
    pub body: Vec<u8>,
    pub request_path: String,
    pub request_authority: String,
    pub request_host: String,
    pub request_scheme: String,
    pub request_version: String,
    pub request_headers: Vec<(String, String)>,
    pub request_method: String,
}

/// Mathematical view of a response.
pub struct ResponseView {
    pub headers: HeadersView,
    pub status: u16,
    pub body: Seq<u8>,
    pub request: RequestView,
}

impl View for HttpResponse {
    type V = ResponseView;

    open spec fn view(&self) -> ResponseView {
        ResponseView {
            headers: headers_view(self.headers@),
            status: self.status,
            body: self.body@,
            request: RequestView {
                path: self.request_path@,
                authority: self.request_authority@,
                host: self.request_host@,
                scheme: self.request_scheme@,
                version: self.request_version@,
                headers: headers_view(self.request_headers@),
                method: self.request_method@,
                body: Seq::empty(),
            },
        }
    }
}

/// What the pre-request hook sees of a CONNECT target.
#[derive(Clone, Debug)]
pub struct HttpPreRequest {
    pub path: String,
    pub authority: String,
    pub host: String,
    pub scheme: String,
}

/// The pre-request hook's decision for a CONNECT target.
#[derive(Clone, Copy, Debug, PartialEq, Eq, Structural)]
pub enum ProxyMode {
    Intercept,
    Pass,
}

impl ProxyMode {
    /// The decision a hook passes across the interface: 0 intercepts, 1
    /// passes, any other value is no decision.
    pub fn from_abi(v: i32) -> (r: Option<ProxyMode>)
        ensures
            v == 0 ==> r == Some(ProxyMode::Intercept),
            v == 1 ==> r == Some(ProxyMode::Pass),
            v != 0 && v != 1 ==> r is None,
    {
        if v == 0 {
            Some(ProxyMode::Intercept)
        } else if v == 1 {
            Some(ProxyMode::Pass)
        } else {
            None
        }
    }
}

} // verus!
