//! The proxy's configuration: listeners, their protocols and hooks, and
//! the command line.
use vstd::prelude::*;
use crate::text::{decimal, decimal_string, text_equal};

verus! {

/// What a listener speaks.
#[derive(Clone, Copy, Debug, PartialEq, Eq, Structural)]
pub enum Protocol {
    Tcp,
    Http,
    HttpForward,
}

/// A protocol name that is none of `tcp`, `http` and `httpforward`.
#[derive(Clone, Debug, PartialEq, Eq, Structural)]
pub struct InvalidProtocol;

/// The protocol a lower-case name stands for.
pub open spec fn spec_protocol(s: Seq<char>) -> Option<Protocol> {
    if s == "tcp"@ {
        Some(Protocol::Tcp)
    } else if s == "http"@ {
        Some(Protocol::Http)
    } else if s == "httpforward"@ {
        Some(Protocol::HttpForward)
    } else {
        None
    }
}

impl Protocol {
    /// Reads `tcp`, `http` or `httpforward`.
    pub fn parse(s: &str) -> (r: Result<Protocol, InvalidProtocol>)
        ensures
            spec_protocol(s@) is Some ==> r == Ok::<Protocol, InvalidProtocol>(spec_protocol(s@)->Some_0),
            spec_protocol(s@) is None ==> r is Err,
    {
        if text_equal(s, "tcp") {
            Ok(Protocol::Tcp)
        } else if text_equal(s, "http") {
            Ok(Protocol::Http)
        } else if text_equal(s, "httpforward") {
            Ok(Protocol::HttpForward)
        } else {
            Err(InvalidProtocol)
        }
    }
}

impl std::str::FromStr for Protocol {
    type Err = InvalidProtocol;

    fn from_str(s: &str) -> Result<Protocol, InvalidProtocol> {
        Protocol::parse(s)
    }
}

/// One listener.
#[derive(Debug)]
pub struct Proxy {
    pub pre_request_wasi_module_path: Option<String>,
    pub request_wasi_module_path: Option<String>,
    pub response_wasi_module_path: Option<String>,
    pub wasi_configuration_path: Option<String>,
    pub wasi_configuration_bytes: Option<Vec<u8>>,
    pub port: u16,
    pub protocol: Protocol,
    pub tls: bool,
    pub address: String,
    pub upstream_address: String,
    pub upstream_port: u16,
}

fn clone_text(s: &Option<String>) -> (r: Option<String>)
    ensures
        r == *s,
{
    match s {
        Some(t) => Some(t.clone()),
        None => None,
    }
}

fn clone_bytes(b: &Option<Vec<u8>>) -> (r: Option<Vec<u8>>)
    ensures
        r is Some <==> b is Some,
        r is Some ==> r->Some_0@ == b->Some_0@,
{
    match b {
        Some(v) => {
            let mut c: Vec<u8> = Vec::new();
            let mut i: usize = 0;
            while i < v.len()
                invariant
                    i <= v@.len(),
                    c@ == v@.subrange(0, i as int),
                decreases v@.len() - i,
            {
                c.push(v[i]);
                i = i + 1;
            }
            Some(c)
        },
        None => None,
    }
}

/// `host:port`.
pub open spec fn host_port(host: Seq<char>, port: u16) -> Seq<char> {
    host + seq![':'] + decimal(port as nat)
}

impl Proxy {
    /// A plain HTTP listener on port 8080, without hooks.
    pub fn new() -> (r: Proxy)
        ensures
            r.port == 8080,
            r.upstream_port == 8080,
            r.protocol == Protocol::Http,
            !r.tls,
            r.pre_request_wasi_module_path is None,
            r.request_wasi_module_path is None,
            r.response_wasi_module_path is None,
            r.wasi_configuration_path is None,
            r.wasi_configuration_bytes is None,
            r.address@ == "blah"@,
            r.upstream_address@ == "blah"@,
    {
        Proxy {
            pre_request_wasi_module_path: None,
            request_wasi_module_path: None,
            response_wasi_module_path: None,
            wasi_configuration_path: None,
            wasi_configuration_bytes: None,
            port: 8080,
            protocol: Protocol::Http,
            tls: false,
            address: String::from_str("blah"),
            upstream_address: String::from_str("blah"),
            upstream_port: 8080,
        }
    }

    /// A copy of this listener's configuration.
    pub fn clone_config(&self) -> (r: Proxy)
        ensures
            r.pre_request_wasi_module_path == self.pre_request_wasi_module_path,
            r.request_wasi_module_path == self.request_wasi_module_path,
            r.response_wasi_module_path == self.response_wasi_module_path,
            r.wasi_configuration_path == self.wasi_configuration_path,
            r.wasi_configuration_bytes is Some <==> self.wasi_configuration_bytes is Some,
            r.wasi_configuration_bytes is Some ==> r.wasi_configuration_bytes->Some_0@
                == self.wasi_configuration_bytes->Some_0@,
            r.port == self.port,
            r.protocol == self.protocol,
            r.tls == self.tls,
            r.address == self.address,
            r.upstream_address == self.upstream_address,
            r.upstream_port == self.upstream_port,
    {
        Proxy {
            pre_request_wasi_module_path: clone_text(&self.pre_request_wasi_module_path),
            request_wasi_module_path: clone_text(&self.request_wasi_module_path),
            response_wasi_module_path: clone_text(&self.response_wasi_module_path),
            wasi_configuration_path: clone_text(&self.wasi_configuration_path),
            wasi_configuration_bytes: clone_bytes(&self.wasi_configuration_bytes),
            port: self.port,
            protocol: self.protocol,
            tls: self.tls,
            address: self.address.clone(),
            upstream_address: self.upstream_address.clone(),
            upstream_port: self.upstream_port,
        }
    }

    /// The address the listener binds, `address:port`.
    pub fn address(&self) -> (r: String)
        ensures
            r@ == host_port(self.address@, self.port),
    {
        let mut addr = self.address.clone();
        addr.append(":");
        let port = decimal_string(self.port as u64);
        addr.append(port.as_str());
        proof {
            reveal_strlit(":");
        }
        assert(addr@ =~= host_port(self.address@, self.port));
        addr
    }

    /// The upstream address, `upstream_address:upstream_port`.
    pub fn upstream_address(&self) -> (r: String)
        ensures
            r@ == host_port(self.upstream_address@, self.upstream_port),
    {
        let mut addr = self.upstream_address.clone();
        addr.append(":");
        let port = decimal_string(self.upstream_port as u64);
        addr.append(port.as_str());
        proof {
            reveal_strlit(":");
        }
        assert(addr@ =~= host_port(self.upstream_address@, self.upstream_port));
        addr
    }

    /// A forward proxy that names a rewrite configuration but no hook of its
    /// own runs the reference hooks.
    pub fn uses_default_hooks(&self) -> (r: bool)
        ensures
            r == (self.protocol == Protocol::HttpForward && self.pre_request_wasi_module_path is None
                && self.request_wasi_module_path is None && self.response_wasi_module_path is None
                && self.wasi_configuration_path is Some),
    {
        self.protocol == Protocol::HttpForward && self.pre_request_wasi_module_path.is_none()
            && self.request_wasi_module_path.is_none() && self.response_wasi_module_path.is_none()
            && self.wasi_configuration_path.is_some()
    }
}

impl Default for Proxy {
    fn default() -> (r: Proxy)
        ensures
            r.port == 8080,
            r.upstream_port == 8080,
            r.protocol == Protocol::Http,
            !r.tls,
            r.pre_request_wasi_module_path is None,
            r.request_wasi_module_path is None,
            r.response_wasi_module_path is None,
            r.wasi_configuration_path is None,
            r.wasi_configuration_bytes is None,
    {
        Proxy::new()
    }
}

/// A path answer: an empty answer means no path.
pub fn optional_path(answer: String) -> (r: Option<String>)
    ensures
        answer@.len() == 0 ==> r is None,
        answer@.len() > 0 ==> r == Some(answer),
{
    if answer.as_str().is_empty() {
        None
    } else {
        Some(answer)
    }
}

impl Proxy {
    /// A listener from the answers to the interactive questions. A forward
    /// proxy has no fixed upstream: its upstream is empty, on port 9999.
    pub fn from_answers(
        address: String,
        port: u16,
        protocol: Protocol,
        tls: bool,
        upstream_address: String,
        upstream_port: u16,
        hooks: (Option<String>, Option<String>, Option<String>),
        wasi_configuration_path: Option<String>,
    ) -> (r: Proxy)
        ensures
            r.address == address,
            r.port == port,
            r.protocol == protocol,
            r.tls == tls,
            protocol == Protocol::HttpForward ==> r.upstream_address@ == Seq::<char>::empty() && r.upstream_port == 9999,
            protocol != Protocol::HttpForward ==> r.upstream_address == upstream_address && r.upstream_port == upstream_port,
            r.pre_request_wasi_module_path == hooks.0,
            r.request_wasi_module_path == hooks.1,
            r.response_wasi_module_path == hooks.2,
            r.wasi_configuration_path == wasi_configuration_path,
            r.wasi_configuration_bytes is None,
    {
        let forward = protocol == Protocol::HttpForward;
        Proxy {
            pre_request_wasi_module_path: hooks.0,
            request_wasi_module_path: hooks.1,
            response_wasi_module_path: hooks.2,
            wasi_configuration_path,
            wasi_configuration_bytes: None,
            port,
            protocol,
            tls,
            address,
            upstream_address: if forward { String::new() } else { upstream_address },
            upstream_port: if forward { 9999 } else { upstream_port },
        }
    }
}

/// Whether a file-system event concerns the watched configuration file:
/// events for any other path are ignored.
pub fn config_event_applies(event_path: &str, watched_path: &str) -> (r: bool)
    ensures
        r == (event_path@ == watched_path@),
{
    text_equal(event_path, watched_path)
}

/// The configuration bytes after a reload: the new bytes when the file was
/// read, the previous ones when reading failed.
pub fn reloaded_config(previous: Option<Vec<u8>>, read: Result<Vec<u8>, String>) -> (r: Option<Vec<u8>>)
    ensures
        read is Ok ==> r == Some(read->Ok_0),
        read is Err ==> r == previous,
{
    match read {
        Ok(bytes) => Some(bytes),
        Err(_) => previous,
    }
}

/// Which hooks a listener runs.
#[derive(Clone, Copy, Debug, PartialEq, Eq, Structural)]
pub enum HookSource {
    /// No hook: every phase passes through.
    Nothing,
    /// The reference hooks over the listener's rewrite configuration.
    Reference,
    /// User-supplied sandbox modules.
    Modules,
}

/// The reference hooks for a forward proxy that names a rewrite
/// configuration and no module; no hook when no module is named; otherwise
/// the named modules.
pub open spec fn spec_hook_source(p: Proxy) -> HookSource {
    if p.protocol == Protocol::HttpForward && p.pre_request_wasi_module_path is None
        && p.request_wasi_module_path is None && p.response_wasi_module_path is None
        && p.wasi_configuration_path is Some {
        HookSource::Reference
    } else if p.pre_request_wasi_module_path is None && p.request_wasi_module_path is None
        && p.response_wasi_module_path is None {
        HookSource::Nothing
    } else {
        HookSource::Modules
    }
}

/// Whether a listener shows requests or responses to a hook: it runs the
/// reference hooks, or names a request or a response module.
pub open spec fn runs_message_hooks(p: Proxy) -> bool {
    spec_hook_source(p) == HookSource::Reference || p.request_wasi_module_path is Some
        || p.response_wasi_module_path is Some
}

impl Proxy {
    /// Which hooks this listener runs.
    pub fn hook_source(&self) -> (r: HookSource)
        ensures
            r == spec_hook_source(*self),
    {
        if self.uses_default_hooks() {
            HookSource::Reference
        } else if self.pre_request_wasi_module_path.is_none() && self.request_wasi_module_path.is_none()
            && self.response_wasi_module_path.is_none() {
            HookSource::Nothing
        } else {
            HookSource::Modules
        }
    }
}

/// The listeners and where the certificate authority lives.
#[derive(Debug)]
pub struct Config {
    pub proxy: Vec<Proxy>,
    pub ca_path: Option<String>,
}

impl Config {
    /// Whether some listener is a forward proxy.
    pub fn has_forward_proxy(&self) -> (r: bool)
        ensures
            r == exists|i: int| 0 <= i < self.proxy@.len() && (#[trigger] self.proxy@[i]).protocol == Protocol::HttpForward,
    {
        let mut i: usize = 0;
        while i < self.proxy.len()
            invariant
                i <= self.proxy@.len(),
                forall|j: int| 0 <= j < i ==> (#[trigger] self.proxy@[j]).protocol != Protocol::HttpForward,
            decreases self.proxy@.len() - i,
        {
            if self.proxy[i].protocol == Protocol::HttpForward {
                return true;
            }
            i = i + 1;
        }
        false
    }
}

/// The forward proxy that `http` adds when none is configured: on
/// `localhost:port`, with TLS, running the reference hooks over the
/// rewrite configuration at `configuration_path`.
pub fn default_forward_proxy(port: u16, configuration_path: String) -> (r: Proxy)
    ensures
        r.port == port,
        r.protocol == Protocol::HttpForward,
        r.tls,
        r.address@ == "localhost"@,
        r.upstream_address@ == Seq::<char>::empty(),
        r.upstream_port == 9999,
        r.wasi_configuration_path == Some(configuration_path),
        r.pre_request_wasi_module_path is None,
        r.request_wasi_module_path is None,
        r.response_wasi_module_path is None,
        r.wasi_configuration_bytes is None,
{
    Proxy {
        pre_request_wasi_module_path: None,
        request_wasi_module_path: None,
        response_wasi_module_path: None,
        wasi_configuration_path: Some(configuration_path),
        wasi_configuration_bytes: None,
        port,
        protocol: Protocol::HttpForward,
        tls: true,
        address: String::from_str("localhost"),
        upstream_address: String::new(),
        upstream_port: 9999,
    }
}

/// Subcommands of the command line.
#[derive(Clone, Debug)]
pub enum Commands {
    /// Generates a certificate authority.
    GenerateCa { path: Option<String>, force: bool },
    /// Creates an empty configuration file.
    Init { path: Option<String> },
    /// Adds a listener to the configuration.
    AddProxy { path: Option<String> },
    /// Ensures a configuration, an authority and a forward proxy, then runs.
    Http { config_path: Option<String>, http_proxy_configuration_path: Option<String>, port: u16 },
}

/// The command line.
#[derive(Clone, Debug)]
pub struct Args {
    /// Location of the configuration file.
    pub config_path: Option<String>,
    pub commands: Option<Commands>,
}

} // verus!
