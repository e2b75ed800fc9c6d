use proxysaur::message::HttpRequest;
use proxysaur::redirect::{FileDestination, FileDestinationError, RedirectDestination, RequestRedirect, UrlDestination};
use proxysaur::rewrite::{MatchValue, RuleMatch};
use proxysaur::uri::Url;

fn request_for(path: &str) -> HttpRequest {
    HttpRequest {
        path: path.into(),
        authority: "foo.com".into(),
        host: "foo.com".into(),
        scheme: "https".into(),
        version: "HTTP/1.1".into(),
        headers: vec![(
            http::header::ACCESS_CONTROL_ALLOW_ORIGIN.to_string(),
            "https://foo.com".to_string(),
        )],
        method: "GET".into(),
        body: vec![],
    }
}

fn file_destination(replace_path: bool, root_index: bool, path: &str, file_suffix: Option<String>) -> FileDestination {
    FileDestination {
        replace_path,
        root_index,
        path: path.into(),
        file_suffix,
        content_type: "application/json".into(),
    }
}

#[test]
fn test_redirect_to_remote() {
    let mut request = request_for("/my/path?and=query");
    let redirect = RequestRedirect {
        when: vec![],
        to: RedirectDestination::Url(UrlDestination {
            url: Url::parse("https://duckduckgo.com").expect("should build the url"),
            replace_path_and_query: true,
        }),
    };
    redirect.redirect_request(&mut request);
    let uri = format!("{}://{}{}", request.scheme, request.host, request.path);
    assert_eq!(uri, "https://duckduckgo.com/my/path?and=query");
}

#[test]
fn redirect_without_path_clears_it() {
    let mut request = request_for("/my/path?and=query");
    let redirect = RequestRedirect {
        when: vec![],
        to: RedirectDestination::Url(UrlDestination {
            url: Url::parse("http://example.org:8080").expect("should build the url"),
            replace_path_and_query: false,
        }),
    };
    redirect.redirect_request(&mut request);
    assert_eq!(request.scheme, "http");
    assert_eq!(request.authority, "example.org:8080");
    assert_eq!(request.host, "example.org");
    assert_eq!(request.path, "");
}

#[test]
fn redirect_respects_conditions() {
    let mut request = request_for("/other");
    let redirect = RequestRedirect {
        when: vec![RuleMatch::PathMatch(MatchValue::Exact("/".into()))],
        to: RedirectDestination::Url(UrlDestination {
            url: Url::parse("https://duckduckgo.com").expect("should build the url"),
            replace_path_and_query: true,
        }),
    };
    assert!(!redirect.should_redirect_request(&request));
    redirect.redirect_request(&mut request);
    assert_eq!(request.host, "foo.com");
}

#[test]
fn redirect_request_builds_fresh_request() {
    let redirect = RequestRedirect {
        when: vec![],
        to: RedirectDestination::Url(UrlDestination {
            url: Url::parse("https://duckduckgo.com").expect("should build the url"),
            replace_path_and_query: true,
        }),
    };
    let req = redirect.request("POST", "/a?b=c").expect("should build");
    assert_eq!(req.authority, "duckduckgo.com");
    assert_eq!(req.host, "duckduckgo.com");
    assert_eq!(req.scheme, "https");
    assert_eq!(req.version, "HTTP/1.1");
    assert_eq!(req.path, "/a?b=c");
    assert_eq!(req.method, "POST");
    let relative = RequestRedirect {
        when: vec![],
        to: RedirectDestination::Url(UrlDestination {
            url: Url::parse("/only/a/path").expect("should build the url"),
            replace_path_and_query: true,
        }),
    };
    assert!(relative.request("GET", "/").is_none());
    let file = RequestRedirect {
        when: vec![],
        to: RedirectDestination::File(file_destination(false, false, "/x", None)),
    };
    assert!(file.request("GET", "/").is_none());
}

#[test]
fn file_redirect_rewrite_relative_path() {
    let dest = file_destination(true, false, "/usr/local/www", Some(".json".to_string()));
    let req = request_for("/search/api/3");
    assert_eq!(dest.path_for_request(&req), "/usr/local/www/search/api/3.json");
}

#[test]
fn file_redirect_rewrite_index() {
    let dest = file_destination(true, true, "/usr/local/www", Some(".json".to_string()));
    let req = request_for("/search/api/");
    assert_eq!(dest.path_for_request(&req), "/usr/local/www/search/api/index.json");
}

#[test]
fn file_redirect_rewrite_without_replacing() {
    let dest = file_destination(false, false, "/usr/local/www/file.json", None);
    for path in ["/search/api/", "/", "/anything/else?q=1"] {
        let req = request_for(path);
        assert_eq!(dest.path_for_request(&req), "/usr/local/www/file.json");
    }
}

#[test]
fn file_redirect_suffix_on_directory_path() {
    let dest = file_destination(true, false, "/srv/", Some(".html".to_string()));
    assert_eq!(dest.path_for_request(&request_for("/docs/")), "/srv/docs.html");
    assert_eq!(dest.path_for_request(&request_for("/")), "/srv.html");
}

#[test]
fn redirects_to_file() {
    let dir = "/tmp/redirect";
    let dest = FileDestination {
        path: dir.into(),
        replace_path: true,
        root_index: true,
        file_suffix: Some(".html".into()),
        content_type: "text/html; charset=UTF-8".into(),
    };
    let req = request_for("/");
    assert_eq!(dest.path_for_request(&req), "/tmp/redirect/index.html");
    let contents = "<html><body><h1>hi</h1></body></html>".as_bytes().to_vec();
    let resp = dest.resp(&req, Ok(contents)).expect("should fetch the response");
    let resp_str = std::str::from_utf8(&resp.body).expect("should serialize to string");
    assert_eq!(resp_str, "<html><body><h1>hi</h1></body></html>");
    let content_type_header = resp
        .headers
        .iter()
        .find(|(h, _v)| h == http::header::CONTENT_TYPE.as_str())
        .expect("should have the header");
    let content_length_header = resp
        .headers
        .iter()
        .find(|(h, _v)| h == http::header::CONTENT_LENGTH.as_str())
        .expect("should have the header");
    assert_eq!(content_type_header.1, "text/html; charset=UTF-8");
    assert_eq!(content_length_header.1, resp.body.len().to_string());
    assert_eq!(resp.status, 200);
    assert_eq!(resp.request_headers, req.headers);
}

#[test]
fn file_redirect_reports_read_error() {
    let dest = file_destination(true, false, "/srv", None);
    let req = request_for("/missing");
    let r = dest.resp(&req, Err(FileDestinationError::IoError("not found".into())));
    match r {
        Err(FileDestinationError::IoError(m)) => assert_eq!(m, "not found"),
        Ok(_) => panic!("expected the read error"),
    }
}

#[test]
fn url_parts_come_from_http() {
    assert!(Url::parse("not a uri at all").is_none());
    let u = Url::parse("https://user@example.com:8443/p?q").expect("should parse");
    assert_eq!(u.as_str(), "https://user@example.com:8443/p?q");
}

#[test]
fn file_suffix_skips_trailing_dot_components() {
    let dest = file_destination(true, false, "/srv", Some(".html".to_string()));
    assert_eq!(dest.path_for_request(&request_for("/foo.txt/.")), "/srv/foo.txt.html");
    assert_eq!(dest.path_for_request(&request_for("/a/./b/./")), "/srv/a/b.html");
    assert_eq!(dest.path_for_request(&request_for("/a//b")), "/srv/a/b.html");
    assert_eq!(dest.path_for_request(&request_for("/a/..")), "/srv/a/..");
    let relative = file_destination(true, false, "", Some(".html".to_string()));
    assert_eq!(relative.path_for_request(&request_for("/x/.")), "x.html");
}
