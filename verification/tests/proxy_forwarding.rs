use ghx::proxy::build_local_response;
use ghx::proxy::build_proxy_request;
use ghx::proxy::GetReposError;
use ghx::proxy::LocalResponse;
use ghx::proxy::ProxyEndpoint;
use ghx::proxy::ResponseBody;
use ghx::proxy::UpstreamResponse;
use ghx::proxy::BAD_GATEWAY_STATUS;

fn listing_query() -> Vec<(String, String)> {
    vec![
        ("sort".to_string(), "updated".to_string()),
        ("direction".to_string(), "desc".to_string()),
        ("type".to_string(), "sources".to_string()),
        ("per_page".to_string(), "100".to_string()),
    ]
}

#[test]
fn user_repos_request() {
    let r = build_proxy_request(
        &ProxyEndpoint::UserRepos { user_name: "octocat".to_string() },
        "tkn",
    );
    assert_eq!(r.url, "https://api.github.com/users/octocat/repos");
    assert_eq!(r.query, listing_query());
}

#[test]
fn org_repos_request() {
    let r = build_proxy_request(
        &ProxyEndpoint::OrgRepos { org_name: "acme".to_string() },
        "tkn",
    );
    assert_eq!(r.url, "https://api.github.com/orgs/acme/repos");
    assert_eq!(r.query, listing_query());
}

#[test]
fn tags_request_has_no_listing_query() {
    let r = build_proxy_request(
        &ProxyEndpoint::RepoTags {
            user_name: "octocat".to_string(),
            repo: "Hello-World".to_string(),
        },
        "tkn",
    );
    assert_eq!(r.url, "https://api.github.com/repos/octocat/Hello-World/tags");
    assert!(r.query.is_empty());
}

#[test]
fn compare_request_has_no_listing_query() {
    let r = build_proxy_request(
        &ProxyEndpoint::CompareChanges {
            user_name: "octocat".to_string(),
            repo: "Hello-World".to_string(),
            range: "v1...v2".to_string(),
        },
        "tkn",
    );
    assert_eq!(
        r.url,
        "https://api.github.com/repos/octocat/Hello-World/compare/v1...v2"
    );
    assert!(r.query.is_empty());
}

#[test]
fn every_request_carries_token_and_user_agent() {
    let endpoints = vec![
        ProxyEndpoint::UserRepos { user_name: "octocat".to_string() },
        ProxyEndpoint::OrgRepos { org_name: "acme".to_string() },
        ProxyEndpoint::RepoTags {
            user_name: "octocat".to_string(),
            repo: "Hello-World".to_string(),
        },
        ProxyEndpoint::CompareChanges {
            user_name: "octocat".to_string(),
            repo: "Hello-World".to_string(),
            range: "v1...v2".to_string(),
        },
    ];
    for e in &endpoints {
        let r = build_proxy_request(e, "ghp_sample_token");
        assert_eq!(r.headers.len(), 2);
        assert_eq!(r.headers[0].0, "authorization");
        assert_eq!(r.headers[0].1, "token ghp_sample_token");
        assert_eq!(r.headers[1].0, "user-agent");
        assert!(!r.headers[1].1.is_empty());
    }
}

#[test]
fn upstream_success_is_forwarded_verbatim() {
    let upstream = UpstreamResponse {
        status: 200,
        headers: vec![
            (Some("content-type".to_string()), b"application/json".to_vec()),
            (None, b"dropped-value".to_vec()),
            (Some("x-ratelimit-remaining".to_string()), b"42".to_vec()),
        ],
        body: b"[{\"name\":\"Hello-World\"}]".to_vec(),
    };
    let r: LocalResponse = build_local_response(Ok(upstream));
    assert_eq!(r.status, 200);
    assert_eq!(
        r.headers,
        vec![
            ("content-type".to_string(), b"application/json".to_vec()),
            ("x-ratelimit-remaining".to_string(), b"42".to_vec()),
        ]
    );
    match r.body {
        ResponseBody::Forwarded(b) => assert_eq!(b, b"[{\"name\":\"Hello-World\"}]".to_vec()),
        ResponseBody::GatewayError(m) => panic!("unexpected gateway error: {}", m),
    }
}

#[test]
fn upstream_error_status_is_forwarded_too() {
    let upstream = UpstreamResponse {
        status: 404,
        headers: vec![],
        body: b"{\"message\":\"Not Found\"}".to_vec(),
    };
    let r = build_local_response(Ok(upstream));
    assert_eq!(r.status, 404);
    assert!(r.headers.is_empty());
}

#[test]
fn transport_failure_synthesizes_bad_gateway() {
    // The compare endpoint with the network unreachable: the request is
    // well-formed, and the failed send becomes a 502 with a readable
    // body; nothing panics, so the server would keep serving.
    let req = build_proxy_request(
        &ProxyEndpoint::CompareChanges {
            user_name: "octocat".to_string(),
            repo: "Hello-World".to_string(),
            range: "v1...v2".to_string(),
        },
        "tkn",
    );
    assert_eq!(
        req.url,
        "https://api.github.com/repos/octocat/Hello-World/compare/v1...v2"
    );
    let r = build_local_response(Err("connection refused".to_string()));
    assert_eq!(r.status, BAD_GATEWAY_STATUS);
    assert_eq!(r.status, 502);
    match r.body {
        ResponseBody::GatewayError(m) => {
            assert!(!m.is_empty());
            assert_eq!(m, "couldn't forward request to GitHub: connection refused");
        }
        ResponseBody::Forwarded(_) => panic!("expected a gateway error body"),
    }
}

#[test]
fn construction_failure_becomes_bad_gateway_parts() {
    let e = GetReposError::CouldntCreateBody("bad header value".to_string());
    let (status, body) = e.response_parts();
    assert_eq!(status, 502);
    assert_eq!(body, "bad header value");
}
