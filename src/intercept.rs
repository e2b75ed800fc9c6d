//! Per-host rewrite configuration and the decisions of the three reference
//! hooks: whether to intercept a CONNECT target, and how to rewrite a
//! request or a response.
use vstd::prelude::*;
use crate::message::{clone_headers, HttpPreRequest, HttpRequestResult, HttpResponse, ProxyMode, RequestView, ResponseView};
use crate::redirect::{FileDestination, RedirectDestination, RequestRedirect};
use crate::rewrite::{
    all_match, request_rewrites_applied, response_rewrites_applied, rewrite_request, rewrite_response,
    RequestRewrite, ResponseRewrite,
};
use crate::text::{chars_equal, chars_of};

verus! {

/// The rewrites and redirect configured for one host.
#[derive(Clone, Debug)]
pub struct HostConfig {
    pub scheme: String,
    pub response_rewrites: Vec<ResponseRewrite>,
    pub request_rewrites: Vec<RequestRewrite>,
    pub redirect: Option<RequestRedirect>,
}

/// Host configurations by host name.
#[derive(Clone, Debug)]
pub struct InterceptConfig {
    pub hosts: Vec<(String, HostConfig)>,
}

/// `i` is the first entry of `hosts` for `name`.
pub open spec fn is_first_host(hosts: Seq<(String, HostConfig)>, name: Seq<char>, i: int) -> bool {
    &&& 0 <= i < hosts.len()
    &&& hosts[i].0@ == name
    &&& forall|j: int| 0 <= j < i ==> (#[trigger] hosts[j].0)@ != name
}

/// The message a hook reports when its host has no configuration.
pub open spec fn missing_host_message() -> Seq<char> {
    "No host configuration found."@
}

impl InterceptConfig {
    /// No two entries are for the same host.
    pub open spec fn hosts_unique(&self) -> bool {
        forall|i: int, j: int|
            0 <= i < j < self.hosts@.len() ==> (#[trigger] self.hosts@[i].0)@ != (#[trigger] self.hosts@[j].0)@
    }

    /// A configuration from entries by host name, refused when two entries
    /// are for the same host.
    pub fn new(hosts: Vec<(String, HostConfig)>) -> (r: Option<InterceptConfig>)
        ensures
            r is Some <==> (InterceptConfig { hosts }).hosts_unique(),
            r is Some ==> r->Some_0.hosts == hosts,
    {
        let candidate = InterceptConfig { hosts };
        let ghost given = candidate;
        let mut j: usize = 0;
        while j < candidate.hosts.len()
            invariant
                candidate == given,
                given == (InterceptConfig { hosts }),
                j <= candidate.hosts@.len(),
                forall|a: int, b: int|
                    0 <= a < b < j ==> (#[trigger] candidate.hosts@[a].0)@ != (#[trigger] candidate.hosts@[b].0)@,
            decreases candidate.hosts@.len() - j,
        {
            match candidate.find_host(candidate.hosts[j].0.as_str()) {
                Some(k) => {
                    if k < j {
                        assert(candidate.hosts@[k as int].0@ == candidate.hosts@[j as int].0@);
                        assert(!candidate.hosts_unique());
                        return None;
                    }
                },
                None => {},
            }
            j = j + 1;
        }
        Some(candidate)
    }

    /// Whether some entry is for `name`.
    pub open spec fn spec_has_host(&self, name: Seq<char>) -> bool {
        exists|i: int| 0 <= i < self.hosts@.len() && (#[trigger] self.hosts@[i].0)@ == name
    }

    /// The configuration of the first entry for `name`.
    pub open spec fn spec_host_config(&self, name: Seq<char>) -> Option<HostConfig> {
        if exists|i: int| is_first_host(self.hosts@, name, i) {
            Some(self.hosts@[choose|i: int| is_first_host(self.hosts@, name, i)].1)
        } else {
            None
        }
    }

    fn find_host(&self, hostname: &str) -> (r: Option<usize>)
        ensures
            r is Some <==> self.spec_has_host(hostname@),
            r is Some ==> is_first_host(self.hosts@, hostname@, r->Some_0 as int),
    {
        let wanted = chars_of(hostname);
        let mut i: usize = 0;
        while i < self.hosts.len()
            invariant
                i <= self.hosts@.len(),
                wanted@ == hostname@,
                forall|j: int| 0 <= j < i ==> (#[trigger] self.hosts@[j].0)@ != hostname@,
            decreases self.hosts@.len() - i,
        {
            let key = chars_of(self.hosts[i].0.as_str());
            if chars_equal(key.as_slice(), wanted.as_slice()) {
                assert(is_first_host(self.hosts@, hostname@, i as int));
                return Some(i);
            }
            i = i + 1;
        }
        None
    }

    /// The configuration for a host, if there is one.
    pub fn host_config(&self, hostname: &str) -> (r: Option<&HostConfig>)
        ensures
            r is Some <==> self.spec_host_config(hostname@) is Some,
            r is Some ==> *r->Some_0 == self.spec_host_config(hostname@)->Some_0,
    {
        match self.find_host(hostname) {
            Some(i) => {
                proof {
                    let k = choose|k: int| is_first_host(self.hosts@, hostname@, k);
                    if k < i {
                        assert(self.hosts@[k].0@ != hostname@);
                    } else if i < k {
                        assert(self.hosts@[i as int].0@ != hostname@);
                    }
                }
                Some(&self.hosts[i].1)
            },
            None => {
                proof {
                    if exists|k: int| is_first_host(self.hosts@, hostname@, k) {
                        let k = choose|k: int| is_first_host(self.hosts@, hostname@, k);
                        assert(self.spec_has_host(hostname@));
                    }
                }
                None
            },
        }
    }

    /// Whether the host has a configuration, and so is intercepted.
    pub fn should_intercept(&self, hostname: &str) -> (r: bool)
        ensures
            r == self.spec_has_host(hostname@),
    {
        self.find_host(hostname).is_some()
    }
}

/// The pre-request decision: intercept exactly the configured hosts.
pub open spec fn spec_pre_request_mode(config: InterceptConfig, host: Seq<char>) -> ProxyMode {
    if config.spec_has_host(host) {
        ProxyMode::Intercept
    } else {
        ProxyMode::Pass
    }
}

/// The pre-request hook: a configuration that could not be read is
/// reported back with its message; otherwise the configured hosts are
/// intercepted and all others pass.
pub fn pre_request_mode(config: &Result<InterceptConfig, String>, request: &HttpPreRequest) -> (r: Result<ProxyMode, String>)
    ensures
        config is Err ==> r is Err && r->Err_0@ == config->Err_0@,
        config is Ok ==> r == Ok::<ProxyMode, String>(spec_pre_request_mode(config->Ok_0, request.host@)),
{
    match config {
        Err(message) => Err(message.clone()),
        Ok(config) => {
            if config.should_intercept(request.host.as_str()) {
                Ok(ProxyMode::Intercept)
            } else {
                Ok(ProxyMode::Pass)
            }
        },
    }
}

/// The pre-request decision is a function of the configuration and the
/// target host alone.
pub proof fn lemma_pre_request_deterministic(a: InterceptConfig, b: InterceptConfig, host_a: Seq<char>, host_b: Seq<char>)
    requires
        a == b,
        host_a == host_b,
    ensures
        spec_pre_request_mode(a, host_a) == spec_pre_request_mode(b, host_b),
{
}

/// The request after the host's redirect, if any, then its request rewrites in order.
pub open spec fn spec_request_hook(hc: HostConfig, req: RequestView) -> RequestView {
    let redirected = match hc.redirect {
        Some(r) => r.spec_redirect(req),
        None => req,
    };
    request_rewrites_applied(hc.request_rewrites@, redirected)
}

/// The request hook: looks up the request's host, applies its redirect and
/// its request rewrites, or reports that the host has no configuration.
pub fn request_hook(config: &InterceptConfig, request: HttpRequestResult) -> (r: Result<HttpRequestResult, String>)
    ensures
        config.spec_host_config(request@.host) is None ==> r is Err && r->Err_0@ == missing_host_message(),
        config.spec_host_config(request@.host) is Some ==> r is Ok && r->Ok_0@ == spec_request_hook(
            config.spec_host_config(request@.host)->Some_0,
            request@,
        ),
{
    let mut request = request;
    let host_config = match config.host_config(request.host.as_str()) {
        Some(c) => c,
        None => {
            return Err(String::from_str("No host configuration found."));
        },
    };
    if let Some(redirect) = &host_config.redirect {
        redirect.redirect_request(&mut request);
    }
    Ok(rewrite_request(&host_config.request_rewrites, request))
}

/// The file destination that answers `req` in place of the upstream: the
/// request's host has a redirect to a file whose conditions hold.
pub open spec fn spec_file_redirect(config: InterceptConfig, req: RequestView) -> Option<FileDestination> {
    match config.spec_host_config(req.host) {
        Some(hc) => match hc.redirect {
            Some(r) => match r.to {
                RedirectDestination::File(d) => if all_match(r.when@, req) {
                    Some(d)
                } else {
                    None
                },
                RedirectDestination::Url(_) => None,
            },
            None => None,
        },
        None => None,
    }
}

/// The file destination that answers `req` without an upstream, if any.
pub fn file_redirect_for<'a>(config: &'a InterceptConfig, req: &HttpRequestResult) -> (r: Option<&'a FileDestination>)
    ensures
        r is Some <==> spec_file_redirect(*config, req@) is Some,
        r is Some ==> *r->Some_0 == spec_file_redirect(*config, req@)->Some_0,
{
    let host_config = match config.host_config(req.host.as_str()) {
        Some(c) => c,
        None => {
            return None;
        },
    };
    match &host_config.redirect {
        Some(redirect) => match &redirect.to {
            RedirectDestination::File(dest) => {
                if redirect.should_redirect_request(req) {
                    Some(dest)
                } else {
                    None
                }
            },
            RedirectDestination::Url(_) => None,
        },
        None => None,
    }
}

/// The response after the host's response rewrites whose conditions hold of
/// the request echoed in it.
pub open spec fn spec_response_hook(hc: HostConfig, resp: ResponseView) -> ResponseView {
    response_rewrites_applied(hc.response_rewrites@, resp.request, resp)
}

/// The response hook: looks up the host of the originating request and
/// applies the response rewrites whose conditions hold of that request.
pub fn response_hook(config: &InterceptConfig, response: HttpResponse) -> (r: Result<HttpResponse, String>)
    ensures
        config.spec_host_config(response@.request.host) is None ==> r is Err && r->Err_0@ == missing_host_message(),
        config.spec_host_config(response@.request.host) is Some ==> r is Ok && r->Ok_0@ == spec_response_hook(
            config.spec_host_config(response@.request.host)->Some_0,
            response@,
        ),
{
    let mut response = response;
    let host_config = match config.host_config(response.request_host.as_str()) {
        Some(c) => c,
        None => {
            return Err(String::from_str("No host configuration found."));
        },
    };
    let request = HttpRequestResult {
        path: response.request_path.clone(),
        authority: response.request_authority.clone(),
        host: response.request_host.clone(),
        scheme: response.request_scheme.clone(),
        version: response.request_version.clone(),
        headers: clone_headers(&response.request_headers),
        method: response.request_method.clone(),
        body: Vec::new(),
    };
    rewrite_response(&host_config.response_rewrites, &request, &mut response);
    Ok(response)
}

} // verus!
