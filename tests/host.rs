use proxysaur::abi::{
    Config, HttpRequestParam, PreRequest, ProxyConfig, ProxyHttpPreRequest, ProxyHttpRequest, ProxyHttpResponse,
    Request, Response,
};
use proxysaur::ca::{leaf_file_names, parse_generator_output, root_action, should_clear, CaError, RootAction};
use proxysaur::once::{OnceCache, OnceStep};
use proxysaur::hostname::Hostname;
use proxysaur::message::{HttpRequest, HttpResponse, ProxyMode};
use proxysaur::text::{decimal_string, parse_u16_chars};
use proxysaur::abi::{pre_request_outcome, request_outcome, request_record, response_outcome};
use proxysaur::pipeline::HttpVersion;
use proxysaur::rewrite::{HeaderMatch, MatchValue};

fn request() -> HttpRequest {
    HttpRequest {
        path: "/".into(),
        authority: "localhost:8000".into(),
        host: "localhost".into(),
        scheme: "http".into(),
        version: "HTTP/1.1".into(),
        headers: vec![("a".into(), "1".into()), ("b".into(), "2".into()), ("a".into(), "3".into())],
        method: "get".into(),
        body: b"hello".to_vec(),
    }
}

#[test]
fn pre_request_state() {
    let hostname = Hostname::parse(Some("localhost:8000"), Some("https")).unwrap();
    let mut state = ProxyHttpPreRequest::new(hostname);
    assert_eq!(state.mode, ProxyMode::Pass);
    let seen = state.http_request_get();
    assert_eq!(seen.path, "/");
    assert_eq!(seen.authority, "localhost:8000");
    assert_eq!(seen.host, "localhost");
    state.http_set_proxy_mode(ProxyMode::Intercept);
    assert_eq!(state.mode, ProxyMode::Intercept);
}

#[test]
fn request_state_operations() {
    let mut state = ProxyHttpRequest::new(request());
    state.http_request_set_method("post").unwrap();
    state.http_request_set_body(b"haha!").unwrap();
    state.http_request_set_header("a", "9").unwrap();
    state.http_request_set_header("c", "4").unwrap();
    let r = state.http_request_get().unwrap();
    assert_eq!(r.method, "post");
    assert_eq!(r.body, b"haha!".to_vec());
    assert_eq!(
        r.headers,
        vec![
            ("a".to_string(), "9".to_string()),
            ("b".to_string(), "2".to_string()),
            ("a".to_string(), "3".to_string()),
            ("c".to_string(), "4".to_string())
        ]
    );
    state.http_request_rm_header("a").unwrap();
    state.http_request_rm_header("zzz").unwrap();
    assert_eq!(state.request.headers.len(), 3);
    assert_eq!(state.request.headers[0], ("b".to_string(), "2".to_string()));
    assert!(state.http_request_set_version("HTTP/2.0").is_ok());
    assert_eq!(state.request.version, "HTTP/2.0");
    assert_eq!(state.http_request_set_version("HTTP/9").unwrap_err(), "Invalid version: HTTP/9");
    assert_eq!(state.request.version, "HTTP/2.0");
    state.http_request_set_uri("https://example.com:444/x/y?z=1").unwrap();
    assert_eq!(state.request.host, "example.com");
    assert_eq!(state.request.authority, "example.com:444");
    assert_eq!(state.request.path, "/x/y");
    assert_eq!(state.request.scheme, "https");
    assert!(state.http_request_set_uri("ht tp://bad").is_err());
    assert_eq!(state.request.host, "example.com");
}

#[test]
fn request_state_whole_record() {
    let mut state = ProxyHttpRequest::new(request());
    let body = b"new".to_vec();
    state.http_request_set(HttpRequestParam {
        path: "/p",
        authority: "a:1",
        host: "a",
        scheme: "http",
        version: "HTTP/1.0",
        headers: vec![("x", "y")],
        method: "PUT",
        body: &body,
    });
    assert_eq!(state.request.path, "/p");
    assert_eq!(state.request.headers, vec![("x".to_string(), "y".to_string())]);
    assert_eq!(state.request.body, b"new".to_vec());
}

#[test]
fn response_state_operations() {
    let mut state = ProxyHttpResponse::new(HttpResponse {
        headers: vec![],
        status: 200,
        body: b"hello".to_vec(),
        request_path: "/".into(),
        request_authority: "a".into(),
        request_host: "a".into(),
        request_scheme: "https".into(),
        request_version: "HTTP/1.1".into(),
        request_headers: vec![],
        request_method: "GET".into(),
    });
    state.http_response_set_status(500).unwrap();
    state.http_response_set_body(b"broken!").unwrap();
    state.http_response_set_headers(vec![("k", "v")]).unwrap();
    let r = state.http_response_get().unwrap();
    assert_eq!(r.status, 500);
    assert_eq!(r.body, b"broken!".to_vec());
    assert_eq!(r.headers, vec![("k".to_string(), "v".to_string())]);
}

#[test]
fn config_state() {
    let mut c = ProxyConfig { config: Some(b"hosts: {}".to_vec()), error: None };
    assert_eq!(c.get_config_data(), b"hosts: {}".to_vec());
    c.set_invalid_data("bad");
    assert_eq!(c.error.as_deref(), Some("bad"));
    let mut empty = ProxyConfig { config: None, error: None };
    assert!(empty.get_config_data().is_empty());
}

#[test]
fn generator_output() {
    let (cert, key) = parse_generator_output("  /d/a.crt /d/a.key\n\n").expect("should parse");
    assert_eq!(cert, "/d/a.crt");
    assert_eq!(key, "/d/a.key");
    assert!(matches!(parse_generator_output("/d/a.crt"), Err(CaError::CustomError(_))));
    assert!(matches!(parse_generator_output("a  b"), Err(CaError::CustomError(_))));
    assert!(matches!(parse_generator_output("a b c"), Err(CaError::CustomError(_))));
    assert!(matches!(parse_generator_output(" \n"), Err(CaError::CustomError(_))));
}

#[test]
fn authority_files() {
    for name in ["myca.crt", "myca.key", "myca.pem", "a.csr", "a.ext", "a.srl", "generateca.sh", "config"] {
        assert!(should_clear(name), "{name}");
    }
    for name in ["notes.txt", ".sh", "crt", "config.bak", "..", "a.tar.gz"] {
        assert!(!should_clear(name), "{name}");
    }
    assert!(should_clear("a.b.pem"));
    assert_eq!(leaf_file_names("a.example"), ("a.example.crt".to_string(), "a.example.key".to_string()));
}

#[test]
fn root_decisions() {
    assert_eq!(root_action(false, false, 10, 0, 100), RootAction::Generate);
    assert_eq!(root_action(true, true, 10, 0, 100), RootAction::WipeAndGenerate);
    assert_eq!(root_action(true, false, 101, 0, 100), RootAction::WipeAndGenerate);
    assert_eq!(root_action(true, false, -1, 0, 100), RootAction::KeepNotYetValid);
    assert_eq!(root_action(true, false, 50, 0, 100), RootAction::Keep);
    assert_eq!(root_action(true, false, 100, 0, 100), RootAction::Keep);
}

#[test]
fn leaf_minted_once_per_host() {
    let mut cache = OnceCache::new();
    assert_eq!(cache.begin("a.example"), OnceStep::Build);
    assert_eq!(cache.begin("a.example"), OnceStep::Wait);
    assert_eq!(cache.begin("b.example"), OnceStep::Build);
    cache.finish("a.example", Some(7));
    assert_eq!(cache.begin("a.example"), OnceStep::Cached(7));
    assert_eq!(cache.begin("a.example"), OnceStep::Cached(7));
    assert_eq!(cache.begin("b.example"), OnceStep::Wait);
    cache.finish("b.example", None);
    assert_eq!(cache.begin("b.example"), OnceStep::Build);
}

#[test]
fn decimal_and_status_parsing() {
    assert_eq!(decimal_string(0), "0");
    assert_eq!(decimal_string(303), "303");
    assert_eq!(decimal_string(u64::MAX), u64::MAX.to_string());
    let chars = |s: &str| s.chars().collect::<Vec<char>>();
    assert_eq!(parse_u16_chars(&chars("200")), Some(200));
    assert_eq!(parse_u16_chars(&chars("+7")), Some(7));
    assert_eq!(parse_u16_chars(&chars("0065535")), Some(65535));
    assert_eq!(parse_u16_chars(&chars("65536")), None);
    assert_eq!(parse_u16_chars(&chars("")), None);
    assert_eq!(parse_u16_chars(&chars("+")), None);
    assert_eq!(parse_u16_chars(&chars("-1")), None);
    assert_eq!(parse_u16_chars(&chars("2 0")), None);
}

#[test]
fn request_record_defaults() {
    let r = request_record(None, None, None, "/x?y".into(), "http", "up:80", "GET".into(), HttpVersion::Http10, vec![], vec![]);
    assert_eq!(r.host, "");
    assert_eq!(r.authority, "up:80");
    assert_eq!(r.scheme, "http");
    assert_eq!(r.version, "HTTP/1.0");
    assert_eq!(r.path, "/x?y");
    let r = request_record(Some("h".into()), Some("h:1".into()), Some("https".into()), "/".into(), "http", "up:80", "POST".into(), HttpVersion::Http2, vec![("a".into(), "b".into())], b"x".to_vec());
    assert_eq!((r.host.as_str(), r.authority.as_str(), r.scheme.as_str()), ("h", "h:1", "https"));
    assert_eq!(r.version, "HTTP/2.0");
}

#[test]
fn lowered_header_match() {
    let m = HeaderMatch { header_name: MatchValue::Exact("x-a".into()), header_value: MatchValue::Contains("b".into()) };
    assert!(m.matches_lowered("x-a", "abc"));
    assert!(!m.matches_lowered("X-A", "abc"));
    assert!(!m.matches_lowered("x-a", "xyz"));
}

#[test]
fn response_record_echoes_the_request() {
    let req = request();
    let r = proxysaur::abi::response_record(404, vec![("k".into(), "v".into())], b"nope".to_vec(), &req);
    assert_eq!(r.status, 404);
    assert_eq!(r.request_method, "get");
    assert_eq!(r.request_authority, "localhost:8000");
    assert_eq!(r.request_path, "/");
    assert!(r.request_headers.is_empty());
}

#[test]
fn abi_decisions() {
    assert_eq!(ProxyMode::from_abi(0), Some(ProxyMode::Intercept));
    assert_eq!(ProxyMode::from_abi(1), Some(ProxyMode::Pass));
    assert_eq!(ProxyMode::from_abi(2), None);
    let mut c = ProxyConfig { config: None, error: None };
    assert_eq!(c.reported_error(), None);
    c.set_invalid_data("No host configuration found.");
    assert_eq!(c.reported_error(), Some("No host configuration found.".to_string()));
    let mut quiet = ProxyConfig { config: None, error: None };
    quiet.set_invalid_data("");
    assert_eq!(quiet.reported_error(), Some(String::new()));
}

#[test]
fn hook_outcomes() {
    let hostname = Hostname::parse(Some("localhost:8000"), Some("https")).unwrap();
    let state = ProxyHttpPreRequest::new(hostname);
    let quiet = ProxyConfig { config: None, error: None };
    assert_eq!(pre_request_outcome(&state, &quiet), Ok(ProxyMode::Pass));
    let mut reported = ProxyConfig { config: None, error: None };
    reported.set_invalid_data("bad config");
    assert_eq!(pre_request_outcome(&state, &reported), Err("bad config".to_string()));
    let req = request_outcome(ProxyHttpRequest::new(request()), &quiet).expect("no report");
    assert_eq!(req.method, "get");
    assert_eq!(request_outcome(ProxyHttpRequest::new(request()), &reported).unwrap_err(), "bad config");
    let resp = proxysaur::abi::response_record(200, vec![], vec![], &request());
    assert_eq!(response_outcome(ProxyHttpResponse::new(resp.clone()), &quiet).unwrap().status, 200);
    assert_eq!(response_outcome(ProxyHttpResponse::new(resp), &reported).unwrap_err(), "bad config");
}
