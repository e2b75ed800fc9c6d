use proxysaur::intercept::{file_redirect_for, pre_request_mode, request_hook, response_hook, HostConfig, InterceptConfig};
use proxysaur::message::{HttpPreRequest, HttpRequest, HttpResponse, ProxyMode};
use proxysaur::redirect::{FileDestination, RedirectDestination, RequestRedirect, UrlDestination};
use proxysaur::rewrite::{
    HeaderMatch, HeaderRewrite, MatchValue, RequestRewrite, ResponseRewrite, Rewrite, RuleMatch, StatusRewrite,
};
use proxysaur::uri::Url;

fn test_config() -> InterceptConfig {
    let req_rewrite = RequestRewrite {
        when: vec![RuleMatch::PathMatch(MatchValue::Exact("/".into()))],
        rewrite: Rewrite::Header(HeaderRewrite {
            header_match: HeaderMatch {
                header_name: MatchValue::Exact("access-control-allow-origin".into()),
                header_value: MatchValue::Contains("".into()),
            },
            new_header_name: "$0".into(),
            new_header_value: "*".into(),
        }),
    };
    let resp_rewrite = ResponseRewrite {
        when: vec![RuleMatch::PathMatch(MatchValue::Exact("/".into()))],
        rewrite: Rewrite::Status(StatusRewrite {
            status: MatchValue::Exact("303".into()),
            new_status: "200".into(),
        }),
    };
    let redirect_host = HostConfig {
        scheme: "https".into(),
        response_rewrites: vec![],
        request_rewrites: vec![],
        redirect: Some(RequestRedirect {
            when: vec![],
            to: RedirectDestination::Url(UrlDestination {
                url: Url::parse("https://duckduckgo.com").expect("should parse"),
                replace_path_and_query: true,
            }),
        }),
    };
    InterceptConfig {
        hosts: vec![
            (
                "test.com".into(),
                HostConfig {
                    scheme: "https".into(),
                    response_rewrites: vec![resp_rewrite],
                    request_rewrites: vec![req_rewrite],
                    redirect: None,
                },
            ),
            ("test3.com".into(), redirect_host),
        ],
    }
}

fn request(host: &str, path: &str) -> HttpRequest {
    HttpRequest {
        path: path.into(),
        authority: host.into(),
        host: host.into(),
        scheme: "https".into(),
        version: "HTTP/1.1".into(),
        headers: vec![("access-control-allow-origin".into(), "https://foo.com".into())],
        method: "GET".into(),
        body: vec![],
    }
}

fn pre(host: &str) -> HttpPreRequest {
    HttpPreRequest { path: "/".into(), authority: format!("{host}:443"), host: host.into(), scheme: "https".into() }
}

#[test]
fn pre_request_intercepts_configured_hosts() {
    let config = Ok(test_config());
    assert_eq!(pre_request_mode(&config, &pre("test.com")).unwrap(), ProxyMode::Intercept);
    assert_eq!(pre_request_mode(&config, &pre("other.com")).unwrap(), ProxyMode::Pass);
    assert_eq!(
        pre_request_mode(&config, &pre("test.com")).unwrap(),
        pre_request_mode(&config, &pre("test.com")).unwrap()
    );
    let broken: Result<InterceptConfig, String> = Err("bad yaml".into());
    assert_eq!(pre_request_mode(&broken, &pre("test.com")).unwrap_err(), "bad yaml");
}

#[test]
fn host_lookup() {
    let config = test_config();
    assert!(config.should_intercept("test.com"));
    assert!(!config.should_intercept("TEST.com"));
    assert_eq!(config.host_config("test3.com").expect("should exist").request_rewrites.len(), 0);
    assert!(config.host_config("nope").is_none());
}

#[test]
fn request_hook_rewrites_headers() {
    let out = request_hook(&test_config(), request("test.com", "/")).expect("should rewrite");
    assert_eq!(out.headers, vec![("access-control-allow-origin".to_string(), "*".to_string())]);
}

#[test]
fn request_hook_redirects() {
    let out = request_hook(&test_config(), request("test3.com", "/my/path?q=1")).expect("should redirect");
    assert_eq!(format!("{}://{}{}", out.scheme, out.authority, out.path), "https://duckduckgo.com/my/path?q=1");
}

#[test]
fn request_hook_reports_unknown_host() {
    let err = request_hook(&test_config(), request("unknown.com", "/")).unwrap_err();
    assert_eq!(err, "No host configuration found.");
}

#[test]
fn response_hook_rewrites_status() {
    let resp = HttpResponse {
        headers: vec![("content-length".into(), "5".into())],
        status: 303,
        body: b"hello".to_vec(),
        request_path: "/".into(),
        request_authority: "test.com".into(),
        request_host: "test.com".into(),
        request_scheme: "https".into(),
        request_version: "HTTP/1.1".into(),
        request_headers: vec![],
        request_method: "GET".into(),
    };
    let out = response_hook(&test_config(), resp.clone()).expect("should rewrite");
    assert_eq!(out.status, 200);
    assert_eq!(out.body, b"hello".to_vec());
    assert_eq!(out.headers, vec![("content-length".to_string(), "5".to_string())]);
    let mut elsewhere = resp.clone();
    elsewhere.request_path = "/else".into();
    assert_eq!(response_hook(&test_config(), elsewhere).expect("should pass").status, 303);
    let mut unknown = resp;
    unknown.request_host = "unknown.com".into();
    assert_eq!(response_hook(&test_config(), unknown).unwrap_err(), "No host configuration found.");
}

#[test]
fn file_redirect_answers_matching_requests() {
    let mut config = test_config();
    config.hosts.push((
        "test2.com".into(),
        HostConfig {
            scheme: "https".into(),
            response_rewrites: vec![],
            request_rewrites: vec![],
            redirect: Some(RequestRedirect {
                when: vec![RuleMatch::PathMatch(MatchValue::Contains("/site".into()))],
                to: RedirectDestination::File(FileDestination {
                    path: "/usr/local/www".into(),
                    root_index: true,
                    replace_path: true,
                    file_suffix: Some(".html".into()),
                    content_type: "text/html; charset=UTF-8".into(),
                }),
            }),
        },
    ));
    let req = request("test2.com", "/site/");
    let dest = file_redirect_for(&config, &req).expect("should answer from a file");
    assert_eq!(dest.path_for_request(&req), "/usr/local/www/site/index.html");
    assert!(file_redirect_for(&config, &request("test2.com", "/elsewhere")).is_none());
    assert!(file_redirect_for(&config, &request("test3.com", "/site/")).is_none());
    assert!(file_redirect_for(&config, &request("nobody.com", "/site/")).is_none());
}

#[test]
fn configuration_refuses_a_host_twice() {
    let twice = vec![
        ("a.com".to_string(), test_config().hosts[0].1.clone()),
        ("a.com".to_string(), test_config().hosts[1].1.clone()),
    ];
    assert!(InterceptConfig::new(twice).is_none());
    assert!(InterceptConfig::new(test_config().hosts).is_some());
}
