//! Decisions of the HTTP pipeline: which upstream client serves a protocol
//! version, what a failed request answers, and how a forward-proxy
//! connection is treated once the pre-request hook has spoken.
use vstd::prelude::*;
use crate::config::{runs_message_hooks, Proxy};
use crate::hostname::Hostname;
use crate::message::ProxyMode;
use crate::text::text_equal;

verus! {

/// HTTP protocol versions that a request record can name.
#[derive(Clone, Copy, Debug, PartialEq, Eq, Structural)]
pub enum HttpVersion {
    Http09,
    Http10,
    Http11,
    Http2,
    Http3,
}

/// Errors of the HTTP pipeline.
#[derive(Clone, Debug)]
pub enum ProxyHttpError {
    HyperError(String),
    HttpError(String),
    InvalidVersion(String),
}

/// The version a request record's version string names.
pub open spec fn spec_version(v: Seq<char>) -> Option<HttpVersion> {
    if v == "HTTP/0.9"@ {
        Some(HttpVersion::Http09)
    } else if v == "HTTP/1.0"@ {
        Some(HttpVersion::Http10)
    } else if v == "HTTP/1.1"@ {
        Some(HttpVersion::Http11)
    } else if v == "HTTP/2.0"@ {
        Some(HttpVersion::Http2)
    } else if v == "HTTP/3.0"@ {
        Some(HttpVersion::Http3)
    } else {
        None
    }
}

/// Reads a version string; an unknown one is an `InvalidVersion` error
/// that carries it.
pub fn convert_version(version: &str) -> (r: Result<HttpVersion, ProxyHttpError>)
    ensures
        spec_version(version@) is Some ==> r == Ok::<HttpVersion, ProxyHttpError>(spec_version(version@)->Some_0),
        spec_version(version@) is None ==> (r matches Err(ProxyHttpError::InvalidVersion(s)) && s@ == version@),
{
    if text_equal(version, "HTTP/0.9") {
        Ok(HttpVersion::Http09)
    } else if text_equal(version, "HTTP/1.0") {
        Ok(HttpVersion::Http10)
    } else if text_equal(version, "HTTP/1.1") {
        Ok(HttpVersion::Http11)
    } else if text_equal(version, "HTTP/2.0") {
        Ok(HttpVersion::Http2)
    } else if text_equal(version, "HTTP/3.0") {
        Ok(HttpVersion::Http3)
    } else {
        Err(ProxyHttpError::InvalidVersion(version.to_owned()))
    }
}

/// The version string of a version, as a request record writes it.
pub open spec fn spec_version_text(v: HttpVersion) -> Seq<char> {
    match v {
        HttpVersion::Http09 => "HTTP/0.9"@,
        HttpVersion::Http10 => "HTTP/1.0"@,
        HttpVersion::Http11 => "HTTP/1.1"@,
        HttpVersion::Http2 => "HTTP/2.0"@,
        HttpVersion::Http3 => "HTTP/3.0"@,
    }
}

/// The version string of a version.
pub fn version_text(v: HttpVersion) -> (r: String)
    ensures
        r@ == spec_version_text(v),
{
    match v {
        HttpVersion::Http09 => String::from_str("HTTP/0.9"),
        HttpVersion::Http10 => String::from_str("HTTP/1.0"),
        HttpVersion::Http11 => String::from_str("HTTP/1.1"),
        HttpVersion::Http2 => String::from_str("HTTP/2.0"),
        HttpVersion::Http3 => String::from_str("HTTP/3.0"),
    }
}

/// The two upstream clients.
#[derive(Clone, Copy, Debug, PartialEq, Eq, Structural)]
pub enum UpstreamClient {
    Http1,
    Http2,
}

/// The client that carries a request of a version: HTTP/1 for 0.9, 1.0
/// and 1.1, HTTP/2 for 2; any other version is not supported and gives
/// the message `<version> not supported`.
pub fn client_for_version(v: HttpVersion) -> (r: Result<UpstreamClient, String>)
    ensures
        (v == HttpVersion::Http09 || v == HttpVersion::Http10 || v == HttpVersion::Http11) ==> r
            == Ok::<UpstreamClient, String>(UpstreamClient::Http1),
        v == HttpVersion::Http2 ==> r == Ok::<UpstreamClient, String>(UpstreamClient::Http2),
        v == HttpVersion::Http3 ==> r is Err && r->Err_0@ == spec_version_text(v) + " not supported"@,
{
    match v {
        HttpVersion::Http09 | HttpVersion::Http10 | HttpVersion::Http11 => Ok(UpstreamClient::Http1),
        HttpVersion::Http2 => Ok(UpstreamClient::Http2),
        HttpVersion::Http3 => {
            let mut message = version_text(v);
            message.append(" not supported");
            Err(message)
        },
    }
}

/// The ALPN protocols offered to the client: `h2` and `http/1.1` when the
/// upstream speaks HTTP/2, `http/1.1` alone otherwise.
pub fn alpn_protocols(negotiated: HttpVersion) -> (r: Vec<Vec<u8>>)
    ensures
        negotiated == HttpVersion::Http2 ==> r@.len() == 2 && r@[0]@ == seq![104u8, 50u8]
            && r@[1]@ == seq![104u8, 116u8, 116u8, 112u8, 47u8, 49u8, 46u8, 49u8],
        negotiated != HttpVersion::Http2 ==> r@.len() == 1 && r@[0]@ == seq![104u8, 116u8, 116u8, 112u8, 47u8, 49u8, 46u8, 49u8],
{
    let http1: Vec<u8> = vec![104u8, 116u8, 116u8, 112u8, 47u8, 49u8, 46u8, 49u8];
    let mut r: Vec<Vec<u8>> = Vec::new();
    if negotiated == HttpVersion::Http2 {
        let h2: Vec<u8> = vec![104u8, 50u8];
        r.push(h2);
    }
    r.push(http1);
    r
}

/// The status of a response that reports a failed request.
pub const ERROR_STATUS: u16 = 500;

/// The body of a response that reports a failed request.
pub fn error_payload(detail: &str) -> (r: String)
    ensures
        r@ == "Error making request: "@ + detail@,
{
    let mut r = String::from_str("Error making request: ");
    r.append(detail);
    r
}

/// The scheme used towards the upstream of a reverse proxy.
pub fn upstream_scheme(tls: bool) -> (r: String)
    ensures
        r@ == (if tls { "https"@ } else { "http"@ }),
{
    if tls {
        String::from_str("https")
    } else {
        String::from_str("http")
    }
}

/// The path and query sent upstream: the request's own, or `/`.
pub fn upstream_path_and_query(path_and_query: Option<&str>) -> (r: String)
    ensures
        path_and_query is Some ==> r@ == path_and_query->Some_0@,
        path_and_query is None ==> r@ == "/"@,
{
    match path_and_query {
        Some(p) => p.to_owned(),
        None => String::from_str("/"),
    }
}

/// What a CONNECT turns into: without a pre-request hook, or when the hook
/// fails or reports bad configuration, the connection is tunnelled.
pub fn connect_mode(hook: Option<Result<ProxyMode, String>>) -> (r: ProxyMode)
    ensures
        hook matches Some(Ok(m)) ==> r == m,
        !(hook matches Some(Ok(_))) ==> r == ProxyMode::Pass,
{
    match hook {
        Some(Ok(m)) => m,
        _ => ProxyMode::Pass,
    }
}

/// The listener configuration a plain forward-proxy request is served
/// with: the target becomes the upstream, without TLS. A request that
/// passes through is shown to no request or response hook: the listener
/// keeps neither those modules nor its rewrite configuration.
pub fn forward_proxy_for(proxy: &Proxy, target: &Hostname, mode: ProxyMode) -> (r: Proxy)
    ensures
        r.upstream_address@ == target.host@,
        r.upstream_port == target.port,
        !r.tls,
        r.protocol == proxy.protocol,
        r.port == proxy.port,
        r.address@ == proxy.address@,
        r.pre_request_wasi_module_path == proxy.pre_request_wasi_module_path,
        mode == ProxyMode::Pass ==> r.request_wasi_module_path is None && r.response_wasi_module_path is None
            && r.wasi_configuration_path is None && r.wasi_configuration_bytes is None,
        mode == ProxyMode::Pass ==> !runs_message_hooks(r),
        mode == ProxyMode::Intercept ==> r.request_wasi_module_path == proxy.request_wasi_module_path
            && r.response_wasi_module_path == proxy.response_wasi_module_path
            && r.wasi_configuration_path == proxy.wasi_configuration_path,
        mode == ProxyMode::Intercept ==> (r.wasi_configuration_bytes is Some <==> proxy.wasi_configuration_bytes is Some),
        mode == ProxyMode::Intercept && r.wasi_configuration_bytes is Some ==> r.wasi_configuration_bytes->Some_0@
            == proxy.wasi_configuration_bytes->Some_0@,
{
    let mut r = proxy.clone_config();
    r.upstream_address = target.host.clone();
    r.upstream_port = target.port;
    r.tls = false;
    if mode == ProxyMode::Pass {
        r.request_wasi_module_path = None;
        r.response_wasi_module_path = None;
        r.wasi_configuration_path = None;
        r.wasi_configuration_bytes = None;
    }
    r
}

/// The version to speak upstream after the `HEAD /` probe over HTTP/2:
/// the version of the probe's response, or HTTP/1.1 when the probe failed.
pub fn negotiated_version(probe: Result<HttpVersion, String>) -> (r: HttpVersion)
    ensures
        probe is Ok ==> r == probe->Ok_0,
        probe is Err ==> r == HttpVersion::Http11,
{
    match probe {
        Ok(v) => v,
        Err(_) => HttpVersion::Http11,
    }
}

/// Where one request stands in the pipeline.
#[derive(Clone, Copy, Debug, PartialEq, Eq, Structural)]
pub enum PipelineStage {
    /// The request hook, if any, is running.
    RequestHook,
    /// The upstream version is being negotiated.
    Negotiation,
    /// The request is with the upstream.
    Upstream,
    /// The response hook, if any, is running.
    ResponseHook,
    /// A response has been handed to the client.
    Done,
}

/// What the outside world reports to the pipeline.
#[derive(Debug)]
pub enum PipelineEvent {
    /// The request hook finished, or failed with a message.
    RequestHookDone(Result<(), String>),
    /// The version probe answered with a version, or failed.
    Negotiated(Result<HttpVersion, String>),
    /// The upstream answered, or the exchange failed with a message.
    UpstreamDone(Result<(), String>),
    /// The response hook finished, or failed with a message.
    ResponseHookDone(Result<(), String>),
}

/// What the pipeline asks the outside world to do next.
#[derive(Clone, Debug)]
pub enum PipelineAction {
    /// Probe the upstream for its version.
    Negotiate,
    /// Send the request with this client.
    Send(UpstreamClient),
    /// Run the response hook over the upstream's response.
    RunResponseHook,
    /// Hand the (possibly rewritten) response to the client.
    Respond,
    /// Answer 500 with this body.
    RespondError(String),
    /// Nothing: the event does not belong to this stage.
    Ignore,
}

/// The event that `stage` waits for; any other is ignored there, and a
/// finished request waits for none.
pub open spec fn event_fits(stage: PipelineStage, event: PipelineEvent) -> bool {
    match stage {
        PipelineStage::RequestHook => event is RequestHookDone,
        PipelineStage::Negotiation => event is Negotiated,
        PipelineStage::Upstream => event is UpstreamDone,
        PipelineStage::ResponseHook => event is ResponseHookDone,
        PipelineStage::Done => false,
    }
}

/// `r` sends the request with the client that speaks `v` (HTTP/1 for 0.9,
/// 1.0 and 1.1, HTTP/2 for 2), or ends it with a 500 naming `v` as not
/// supported.
pub open spec fn sends_with(v: HttpVersion, r: (PipelineStage, PipelineAction)) -> bool {
    if v == HttpVersion::Http09 || v == HttpVersion::Http10 || v == HttpVersion::Http11 {
        r.0 == PipelineStage::Upstream && r.1 == PipelineAction::Send(UpstreamClient::Http1)
    } else if v == HttpVersion::Http2 {
        r.0 == PipelineStage::Upstream && r.1 == PipelineAction::Send(UpstreamClient::Http2)
    } else {
        r.0 == PipelineStage::Done && (r.1 matches PipelineAction::RespondError(b) && b@ == "Error making request: "@
            + spec_version_text(v) + " not supported"@)
    }
}

/// One step of the request pipeline. A failing hook or upstream ends the
/// request with a 500 carrying `Error making request: <detail>`; a version
/// that no client speaks does so too; otherwise the stages follow in order.
/// `known` is the version fixed by an earlier negotiation, if any.
pub fn pipeline_step(stage: PipelineStage, known: Option<HttpVersion>, event: PipelineEvent) -> (r: (PipelineStage, PipelineAction))
    ensures
        !event_fits(stage, event) ==> r.0 == stage && r.1 is Ignore,
        stage == PipelineStage::RequestHook ==> (event matches PipelineEvent::RequestHookDone(Err(m)) ==> (r.0
            == PipelineStage::Done && (r.1 matches PipelineAction::RespondError(b) && b@ == "Error making request: "@ + m@))),
        stage == PipelineStage::RequestHook ==> (event matches PipelineEvent::RequestHookDone(Ok(_)) ==> (known is None
            ==> r.0 == PipelineStage::Negotiation && r.1 is Negotiate)),
        stage == PipelineStage::RequestHook ==> (event matches PipelineEvent::RequestHookDone(Ok(_)) ==> (known matches Some(
            v,
        ) ==> sends_with(v, r))),
        stage == PipelineStage::Negotiation ==> (event matches PipelineEvent::Negotiated(Ok(v)) ==> sends_with(v, r)),
        stage == PipelineStage::Negotiation ==> (event matches PipelineEvent::Negotiated(Err(_)) ==> sends_with(
            HttpVersion::Http11,
            r,
        )),
        stage == PipelineStage::Upstream ==> (event matches PipelineEvent::UpstreamDone(Err(m)) ==> (r.0
            == PipelineStage::Done && (r.1 matches PipelineAction::RespondError(b) && b@ == "Error making request: "@ + m@))),
        stage == PipelineStage::Upstream ==> (event matches PipelineEvent::UpstreamDone(Ok(_)) ==> (r.0
            == PipelineStage::ResponseHook && r.1 is RunResponseHook)),
        stage == PipelineStage::ResponseHook ==> (event matches PipelineEvent::ResponseHookDone(Ok(_)) ==> (r.0
            == PipelineStage::Done && r.1 is Respond)),
        stage == PipelineStage::ResponseHook ==> (event matches PipelineEvent::ResponseHookDone(Err(m)) ==> (r.0
            == PipelineStage::Done && (r.1 matches PipelineAction::RespondError(b) && b@ == "Error making request: "@ + m@))),
{
    match (stage, event) {
        (PipelineStage::RequestHook, PipelineEvent::RequestHookDone(Err(m))) => (
            PipelineStage::Done,
            PipelineAction::RespondError(error_payload(m.as_str())),
        ),
        (PipelineStage::RequestHook, PipelineEvent::RequestHookDone(Ok(()))) => match known {
            None => (PipelineStage::Negotiation, PipelineAction::Negotiate),
            Some(v) => send_with(v),
        },
        (PipelineStage::Negotiation, PipelineEvent::Negotiated(probe)) => send_with(negotiated_version(probe)),
        (PipelineStage::Upstream, PipelineEvent::UpstreamDone(Err(m))) => (
            PipelineStage::Done,
            PipelineAction::RespondError(error_payload(m.as_str())),
        ),
        (PipelineStage::Upstream, PipelineEvent::UpstreamDone(Ok(()))) => (
            PipelineStage::ResponseHook,
            PipelineAction::RunResponseHook,
        ),
        (PipelineStage::ResponseHook, PipelineEvent::ResponseHookDone(Ok(()))) => (
            PipelineStage::Done,
            PipelineAction::Respond,
        ),
        (PipelineStage::ResponseHook, PipelineEvent::ResponseHookDone(Err(m))) => (
            PipelineStage::Done,
            PipelineAction::RespondError(error_payload(m.as_str())),
        ),
        (s, _) => (s, PipelineAction::Ignore),
    }
}

fn send_with(v: HttpVersion) -> (r: (PipelineStage, PipelineAction))
    ensures
        sends_with(v, r),
{
    match client_for_version(v) {
        Ok(client) => (PipelineStage::Upstream, PipelineAction::Send(client)),
        Err(m) => {
            let body = error_payload(m.as_str());
            assert(body@ =~= "Error making request: "@ + spec_version_text(v) + " not supported"@);
            (PipelineStage::Done, PipelineAction::RespondError(body))
        },
    }
}

} // verus!
