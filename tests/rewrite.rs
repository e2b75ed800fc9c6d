use proxysaur::message::{HttpRequest, HttpResponse};
use proxysaur::pattern::Pattern;
use proxysaur::rewrite::{
    rewrite_request, BodyRewrite, HeaderMatch, HeaderRewrite, MatchValue, RequestRewrite, ResponseRewrite, Rewrite,
    RuleMatch, StatusRewrite,
};

fn sample_request() -> HttpRequest {
    HttpRequest {
        path: "/".into(),
        authority: "foo.com".into(),
        host: "foo.com".into(),
        scheme: "https".into(),
        version: "HTTP/1.1".into(),
        headers: vec![(
            http::header::ACCESS_CONTROL_ALLOW_ORIGIN.to_string(),
            "https://foo.com".to_string(),
        )],
        method: "GET".into(),
        body: vec![],
    }
}

fn sample_response(req: &HttpRequest, headers: Vec<(String, String)>) -> HttpResponse {
    HttpResponse {
        headers,
        status: http::status::StatusCode::SEE_OTHER.as_u16(),
        body: vec![],
        request_path: req.path.clone(),
        request_authority: req.authority.clone(),
        request_host: req.host.clone(),
        request_scheme: req.scheme.clone(),
        request_version: req.version.clone(),
        request_headers: vec![],
        request_method: "GET".into(),
    }
}

#[test]
fn expand_exact() {
    let value = MatchValue::Exact("exactly this and nothing else".into());
    let template = "matched this: $0";
    let expanded = value.expand("exactly this and nothing else", template);
    assert_eq!("matched this: exactly this and nothing else", expanded);
}

#[test]
fn expand_contains() {
    let value = MatchValue::Contains("exactly this".into());
    let template = "matched this: $1 in this: $0";
    let expanded = value.expand("exactly this and nothing else", template);
    assert_eq!(
        "matched this: exactly this in this: exactly this and nothing else",
        expanded
    );
}

#[test]
fn expand_regex_named() {
    let regex = Pattern::new("/api/v1/(?P<path>[A-Za-z0-9]+)/(?P<slug>[A-Za-z]+)")
        .expect("should compile the regex");
    let value = MatchValue::Regex(regex);
    let template = "matched path: $path and slug: $slug";
    let expanded = value.expand("/api/v1/resource/book", template);
    assert_eq!("matched path: resource and slug: book", expanded);
}

#[test]
fn expand_regex_missing() {
    let regex = Pattern::new("/api/v1/([A-Za-z0-9]+)/([A-Za-z]+)").expect("should compile the regex");
    let value = MatchValue::Regex(regex);
    let template = "matched path: $1 and slug: $2";
    let expanded = value.expand("/api/v2/resource/book", template);
    assert_eq!("", expanded);
}

#[test]
fn expand_regex_no_groups() {
    let regex = Pattern::new("v[0-5]").expect("should compile the regex");
    let value = MatchValue::Regex(regex);
    let template = "v8";
    let expanded = value.expand("/api/v2/resource/v3/book", template);
    assert_eq!("/api/v8/resource/v8/book", expanded);
}

#[test]
fn request_header_rewrite() {
    let rewrite = RequestRewrite {
        when: vec![RuleMatch::PathMatch(MatchValue::Exact("/".into()))],
        rewrite: Rewrite::Header(HeaderRewrite {
            header_match: HeaderMatch {
                header_name: MatchValue::Exact("access-control-allow-origin".into()),
                header_value: MatchValue::Contains("".into()),
            },
            new_header_name: "$0".into(),
            new_header_value: "*".into(),
        }),
    };
    let req = sample_request();
    assert!(rewrite.should_rewrite_request(&req));
    let new_req = rewrite.rewrite(req);
    let new_value = new_req
        .headers
        .iter()
        .find(|(h, _v)| h == http::header::ACCESS_CONTROL_ALLOW_ORIGIN.as_str())
        .expect("should have a header");
    assert_eq!(new_value.1, "*");
}

#[test]
fn request_body_rewrite() {
    let rewrite = RequestRewrite {
        when: vec![RuleMatch::PathMatch(MatchValue::Exact("/".into()))],
        rewrite: Rewrite::Body(BodyRewrite { replace_with: "hey!".into() }),
    };
    let req = sample_request();
    assert!(rewrite.should_rewrite_request(&req));
    let new_req = rewrite.rewrite(req);
    let content_length_value = new_req
        .headers
        .iter()
        .find(|(h, _v)| h == http::header::CONTENT_LENGTH.as_str())
        .expect("should have a content length");
    let content_length: usize = content_length_value.1.parse().expect("should parse to a number");
    assert_eq!(content_length, 4);
}

#[test]
fn response_status_rewrite() {
    let rewrite = ResponseRewrite {
        when: vec![RuleMatch::PathMatch(MatchValue::Exact("/".into()))],
        rewrite: Rewrite::Status(StatusRewrite {
            status: MatchValue::Exact("303".into()),
            new_status: "200".into(),
        }),
    };
    let req = sample_request();
    let mut resp = sample_response(&req, vec![]);
    assert!(rewrite.should_rewrite_response(&req));
    rewrite.rewrite(&mut resp);
    assert_eq!(resp.status, http::StatusCode::OK.as_u16());
}

#[test]
fn response_body_rewrite() {
    let rewrite = ResponseRewrite {
        when: vec![RuleMatch::PathMatch(MatchValue::Exact("/".into()))],
        rewrite: Rewrite::Body(BodyRewrite { replace_with: "hey!".into() }),
    };
    let req = sample_request();
    let mut resp = sample_response(&req, vec![]);
    assert!(rewrite.should_rewrite_response(&req));
    rewrite.rewrite(&mut resp);
    let content_length_value = resp
        .headers
        .iter()
        .find(|(h, _v)| h == http::header::CONTENT_LENGTH.as_str())
        .expect("should have a content length");
    let content_length: usize = content_length_value.1.parse().expect("should parse to a number");
    assert_eq!(content_length, 4);
}

#[test]
fn response_header_rewrite() {
    let regex = Pattern::new("Bearer (?P<token>[0-9A-Za-z]+)").expect("should compile the regex");
    let rewrite = ResponseRewrite {
        when: vec![RuleMatch::PathMatch(MatchValue::Exact("/".into()))],
        rewrite: Rewrite::Header(HeaderRewrite {
            header_match: HeaderMatch {
                header_name: MatchValue::Exact("x-my-header".into()),
                header_value: MatchValue::Regex(regex),
            },
            new_header_name: "$0".into(),
            new_header_value: "Basic $token".into(),
        }),
    };
    let req = sample_request();
    let mut resp = sample_response(&req, vec![("x-my-header".into(), "Bearer abcd1234".into())]);
    assert!(rewrite.should_rewrite_response(&req));
    rewrite.rewrite(&mut resp);
    let rewritten_header = resp
        .headers
        .iter()
        .find(|(h, _v)| h == "x-my-header")
        .expect("X-My-Header should exist");
    let rewritten_header_text = &rewritten_header.1;
    assert_eq!(rewritten_header_text, "Basic abcd1234");
}

#[test]
fn body_rewrite_updates_existing_content_length() {
    let mut req = sample_request();
    req.headers.push(("content-length".into(), "0".into()));
    req.headers.push(("content-length".into(), "7".into()));
    let rewrite = Rewrite::Body(BodyRewrite { replace_with: "hello world".into() });
    let new_req = rewrite.rewrite_req(req);
    assert_eq!(new_req.body, b"hello world".to_vec());
    assert_eq!(new_req.headers.len(), 3);
    assert_eq!(new_req.headers[1], ("content-length".to_string(), "11".to_string()));
    assert_eq!(new_req.headers[2], ("content-length".to_string(), "11".to_string()));
}

#[test]
fn body_rewrite_twice_keeps_one_content_length() {
    let rewrite = Rewrite::Body(BodyRewrite { replace_with: "hey!".into() });
    let once = rewrite.rewrite_req(sample_request());
    let twice = rewrite.rewrite_req(once.clone());
    assert_eq!(once.headers, twice.headers);
    assert_eq!(once.body, twice.body);
}

#[test]
fn header_rewrite_changes_only_first_match() {
    let rewrite = HeaderRewrite {
        header_match: HeaderMatch {
            header_name: MatchValue::Exact("x-a".into()),
            header_value: MatchValue::Contains("1".into()),
        },
        new_header_name: "$0".into(),
        new_header_value: "changed".into(),
    };
    let mut headers = vec![
        ("x-b".to_string(), "1".to_string()),
        ("x-a".to_string(), "2".to_string()),
        ("X-A".to_string(), "1".to_string()),
        ("x-a".to_string(), "1".to_string()),
    ];
    rewrite.do_rewrite(&mut headers);
    assert_eq!(headers[0], ("x-b".to_string(), "1".to_string()));
    assert_eq!(headers[1], ("x-a".to_string(), "2".to_string()));
    assert_eq!(headers[2], ("x-a".to_string(), "changed".to_string()));
    assert_eq!(headers[3], ("x-a".to_string(), "1".to_string()));
}

#[test]
fn header_name_match_ignores_case() {
    let m = RuleMatch::HeaderMatch(HeaderMatch {
        header_name: MatchValue::Exact("x-token".into()),
        header_value: MatchValue::Exact("abc".into()),
    });
    let mut req = sample_request();
    req.headers.push(("X-Token".into(), "abc".into()));
    assert!(m.matches(&req));
    req.headers[1].1 = "abd".into();
    assert!(!m.matches(&req));
}

#[test]
fn header_match_needs_name_and_value_on_one_entry() {
    let m = RuleMatch::HeaderMatch(HeaderMatch {
        header_name: MatchValue::Exact("x-a".into()),
        header_value: MatchValue::Exact("2".into()),
    });
    let mut req = sample_request();
    req.headers = vec![("x-a".into(), "1".into()), ("x-b".into(), "2".into())];
    assert!(!m.matches(&req));
    req.headers.push(("x-a".into(), "2".into()));
    assert!(m.matches(&req));
}

#[test]
fn invalid_expanded_header_is_skipped() {
    let rewrite = HeaderRewrite {
        header_match: HeaderMatch {
            header_name: MatchValue::Exact("x-a".into()),
            header_value: MatchValue::Contains("".into()),
        },
        new_header_name: "bad name".into(),
        new_header_value: "v".into(),
    };
    let mut headers = vec![("x-a".to_string(), "1".to_string())];
    rewrite.do_rewrite(&mut headers);
    assert_eq!(headers, vec![("x-a".to_string(), "1".to_string())]);
    let rewrite = HeaderRewrite {
        header_match: HeaderMatch {
            header_name: MatchValue::Exact("x-a".into()),
            header_value: MatchValue::Contains("".into()),
        },
        new_header_name: "$0".into(),
        new_header_value: "line\nbreak".into(),
    };
    rewrite.do_rewrite(&mut headers);
    assert_eq!(headers, vec![("x-a".to_string(), "1".to_string())]);
}

#[test]
fn status_rewrite_keeps_status_when_expansion_does_not_parse() {
    let rewrite = Rewrite::Status(StatusRewrite {
        status: MatchValue::Exact("303".into()),
        new_status: "seventy".into(),
    });
    let req = sample_request();
    let mut resp = sample_response(&req, vec![]);
    rewrite.rewrite_resp(&mut resp);
    assert_eq!(resp.status, 303);
    let rewrite = Rewrite::Status(StatusRewrite {
        status: MatchValue::Regex(Pattern::new("^30[0-9]$").expect("should compile")),
        new_status: "+201".into(),
    });
    rewrite.rewrite_resp(&mut resp);
    assert_eq!(resp.status, 201);
    let rewrite = Rewrite::Status(StatusRewrite {
        status: MatchValue::Exact("201".into()),
        new_status: "70000".into(),
    });
    rewrite.rewrite_resp(&mut resp);
    assert_eq!(resp.status, 201);
}

#[test]
fn expand_without_match_is_empty() {
    assert_eq!(MatchValue::Exact("a".into()).expand("b", "$0"), "");
    assert_eq!(MatchValue::Contains("zz".into()).expand("abc", "$1"), "");
    let regex = Pattern::new("x(y)").expect("should compile");
    assert_eq!(MatchValue::Regex(regex).expand("abc", "$1"), "");
}

#[test]
fn contains_expansion_replaces_zero_then_one() {
    let value = MatchValue::Contains("b".into());
    assert_eq!(value.expand("a$1c b", "[$0]"), "[a$1c b]".replace("$1", "b"));
    assert_eq!(value.expand("abc", "$0$0-$1$1"), "abcabc-bb");
}

#[test]
fn rules_apply_in_order_and_settle() {
    let rules = vec![
        RequestRewrite {
            when: vec![RuleMatch::PathMatch(MatchValue::Exact("/".into()))],
            rewrite: Rewrite::Body(BodyRewrite { replace_with: "one".into() }),
        },
        RequestRewrite {
            when: vec![RuleMatch::HeaderMatch(HeaderMatch {
                header_name: MatchValue::Exact("content-length".into()),
                header_value: MatchValue::Exact("3".into()),
            })],
            rewrite: Rewrite::Body(BodyRewrite { replace_with: "second".into() }),
        },
    ];
    let once = rewrite_request(&rules, sample_request());
    assert_eq!(once.body, b"second".to_vec());
    let settled_rules = vec![RequestRewrite {
        when: vec![RuleMatch::PathMatch(MatchValue::Exact("/nowhere".into()))],
        rewrite: Rewrite::Body(BodyRewrite { replace_with: "x".into() }),
    }];
    let a = rewrite_request(&settled_rules, once.clone());
    assert_eq!(a.body, once.body);
    assert_eq!(a.headers, once.headers);
}

#[test]
fn pattern_reports_bad_expressions() {
    assert!(Pattern::new("(unclosed").is_err());
    let p = Pattern::new("a+").expect("should compile");
    assert_eq!(p.as_str(), "a+");
}

#[test]
fn match_values_compare_by_kind_and_text() {
    assert!(MatchValue::Exact("a".into()) == MatchValue::Exact("a".into()));
    assert!(MatchValue::Exact("a".into()) != MatchValue::Contains("a".into()));
    assert!(MatchValue::Contains("a".into()) != MatchValue::Contains("b".into()));
    let a = MatchValue::Regex(Pattern::new("v[0-5]").expect("should compile"));
    let b = MatchValue::Regex(Pattern::new("v[0-5]").expect("should compile"));
    let c = MatchValue::Regex(Pattern::new("v[0-6]").expect("should compile"));
    assert!(a == b);
    assert!(a != c);
}

#[test]
fn body_rewrite_matches_content_length_in_any_case() {
    let mut req = sample_request();
    req.headers.push(("Content-Length".into(), "5".into()));
    let rewrite = Rewrite::Body(BodyRewrite { replace_with: "abcd".into() });
    let new_req = rewrite.rewrite_req(req);
    assert_eq!(new_req.headers.len(), 2);
    assert_eq!(new_req.headers[1], ("Content-Length".to_string(), "4".to_string()));
    let mut resp = sample_response(&sample_request(), vec![("CONTENT-LENGTH".into(), "5".into())]);
    rewrite.rewrite_resp(&mut resp);
    assert_eq!(resp.headers, vec![("CONTENT-LENGTH".to_string(), "4".to_string())]);
}

#[test]
fn regex_without_groups_leaves_unmatched_value() {
    let value = MatchValue::Regex(Pattern::new("v[0-5]").expect("should compile the regex"));
    assert_eq!(value.expand("/api/v8/resource", "v9"), "/api/v8/resource");
}

#[test]
fn header_name_rule_text_is_case_insensitive() {
    let rewrite = HeaderRewrite {
        header_match: HeaderMatch {
            header_name: MatchValue::Exact("X-My-Header".into()),
            header_value: MatchValue::Contains("".into()),
        },
        new_header_name: "$0".into(),
        new_header_value: "set".into(),
    };
    let mut headers = vec![("x-my-header".to_string(), "1".to_string())];
    rewrite.do_rewrite(&mut headers);
    assert_eq!(headers, vec![("x-my-header".to_string(), "set".to_string())]);
    let m = RuleMatch::HeaderMatch(HeaderMatch {
        header_name: MatchValue::Contains("MY-HEAD".into()),
        header_value: MatchValue::Exact("1".into()),
    });
    let mut req = sample_request();
    req.headers = vec![("X-My-Header".into(), "1".into())];
    assert!(m.matches(&req));
    assert!(MatchValue::Exact("X-A".into()).name_matches("x-a"));
    assert!(!MatchValue::Exact("X-A".into()).matches("x-a"));
    assert_eq!(MatchValue::Exact("X-A".into()).name_expand("x-a", "$0!"), "x-a!");
}
