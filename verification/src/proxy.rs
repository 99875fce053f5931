//! The reverse-proxy core: building the upstream GitHub request for
//! each proxied endpoint, and translating the upstream outcome into the
//! local response.
//!
//! The proxy is deliberately dumb: the front end needs GitHub's
//! response shape unmodified, so the only transformation is injecting
//! the bearer token on the way out and copying status, headers and body
//! on the way back.  Sending the request and reading the response are
//! network I/O and stay with the caller; this module fixes exactly what
//! is sent and exactly what is answered.

use vstd::prelude::*;

verus! {

/// The HTTP status synthesized when the upstream call fails.
pub const BAD_GATEWAY_STATUS: u16 = 502;

/// The four proxied GitHub endpoints, with their path parameters.
pub enum ProxyEndpoint {
    /// List a user's repositories.
    UserRepos { user_name: String },
    /// List an organisation's repositories.
    OrgRepos { org_name: String },
    /// List a repository's tags.
    RepoTags { user_name: String, repo: String },
    /// Compare two refs of a repository; `range` has the form
    /// `base...head`.
    CompareChanges { user_name: String, repo: String, range: String },
}

/// Everything the caller must send upstream: the URL, the query
/// parameters, and the request headers, each value exactly as it must
/// go on the wire.
pub struct ProxyRequest {
    pub url: String,
    pub query: Vec<(String, String)>,
    pub headers: Vec<(String, String)>,
}

/// Whether an endpoint is a repository listing; only those carry the
/// fixed listing query parameters.
pub open spec fn spec_is_listing(e: ProxyEndpoint) -> bool {
    e is UserRepos || e is OrgRepos
}

/// The upstream GitHub URL for an endpoint.
pub open spec fn spec_upstream_url(e: ProxyEndpoint) -> Seq<char> {
    match e {
        ProxyEndpoint::UserRepos { user_name } => "https://api.github.com/users/"@
            + user_name@ + "/repos"@,
        ProxyEndpoint::OrgRepos { org_name } => "https://api.github.com/orgs/"@
            + org_name@ + "/repos"@,
        ProxyEndpoint::RepoTags { user_name, repo } => "https://api.github.com/repos/"@
            + user_name@ + "/"@ + repo@ + "/tags"@,
        ProxyEndpoint::CompareChanges { user_name, repo, range } =>
            "https://api.github.com/repos/"@ + user_name@ + "/"@ + repo@ + "/compare/"@
            + range@,
    }
}

/// Builds the upstream request for an endpoint: its GitHub URL; for the
/// repository-listing endpoints exactly the query parameters
/// `sort=updated`, `direction=desc`, `type=sources`, `per_page=100` and
/// for the others none; an `authorization` header carrying the resolved
/// token as `token <value>`; and a fixed, non-empty `user-agent`.
pub fn build_proxy_request(endpoint: &ProxyEndpoint, token: &str) -> (r: ProxyRequest)
    ensures
        r.url@ == spec_upstream_url(*endpoint),
        spec_is_listing(*endpoint) ==> {
            &&& r.query@.len() == 4
            &&& r.query@[0].0@ == "sort"@ && r.query@[0].1@ == "updated"@
            &&& r.query@[1].0@ == "direction"@ && r.query@[1].1@ == "desc"@
            &&& r.query@[2].0@ == "type"@ && r.query@[2].1@ == "sources"@
            &&& r.query@[3].0@ == "per_page"@ && r.query@[3].1@ == "100"@
        },
        !spec_is_listing(*endpoint) ==> r.query@.len() == 0,
        r.headers@.len() == 2,
        r.headers@[0].0@ == "authorization"@,
        r.headers@[0].1@ == "token "@ + token@,
        r.headers@[1].0@ == "user-agent"@,
        r.headers@[1].1@ == "test-app"@,
        r.headers@[1].1@.len() > 0,
{
    proof {
        reveal_strlit("test-app");
    }
    let url = match endpoint {
        ProxyEndpoint::UserRepos { user_name } => String::from_str(
            "https://api.github.com/users/",
        ).concat(user_name.as_str()).concat("/repos"),
        ProxyEndpoint::OrgRepos { org_name } => String::from_str(
            "https://api.github.com/orgs/",
        ).concat(org_name.as_str()).concat("/repos"),
        ProxyEndpoint::RepoTags { user_name, repo } => String::from_str(
            "https://api.github.com/repos/",
        ).concat(user_name.as_str()).concat("/").concat(repo.as_str()).concat("/tags"),
        ProxyEndpoint::CompareChanges { user_name, repo, range } => String::from_str(
            "https://api.github.com/repos/",
        ).concat(user_name.as_str()).concat("/").concat(repo.as_str()).concat(
            "/compare/",
        ).concat(range.as_str()),
    };

    let listing = match endpoint {
        ProxyEndpoint::UserRepos { .. } => true,
        ProxyEndpoint::OrgRepos { .. } => true,
        ProxyEndpoint::RepoTags { .. } => false,
        ProxyEndpoint::CompareChanges { .. } => false,
    };

    let mut query: Vec<(String, String)> = Vec::new();
    if listing {
        query.push((String::from_str("sort"), String::from_str("updated")));
        query.push((String::from_str("direction"), String::from_str("desc")));
        query.push((String::from_str("type"), String::from_str("sources")));
        query.push((String::from_str("per_page"), String::from_str("100")));
    }

    let mut headers: Vec<(String, String)> = Vec::new();
    headers.push((
        String::from_str("authorization"),
        String::from_str("token ").concat(token),
    ));
    headers.push((String::from_str("user-agent"), String::from_str("test-app")));

    ProxyRequest { url, query, headers }
}

/// A response read back from GitHub: status, headers in order, body
/// bytes.  A header name is `None` where it could not be carried over
/// into a new response (the name did not parse for reuse); such entries
/// are dropped rather than failing the whole response.
pub struct UpstreamResponse {
    pub status: u16,
    pub headers: Vec<(Option<String>, Vec<u8>)>,
    pub body: Vec<u8>,
}

/// The body of the local response: the upstream bytes forwarded
/// verbatim, or the text of a synthesized gateway-error answer.
pub enum ResponseBody {
    Forwarded(Vec<u8>),
    GatewayError(String),
}

/// What the local server answers the client with.
pub struct LocalResponse {
    pub status: u16,
    pub headers: Vec<(String, Vec<u8>)>,
    pub body: ResponseBody,
}

/// The headers that survive forwarding: those whose name was reusable,
/// in their original order, as (name, value) views.
pub open spec fn spec_kept_headers(hs: Seq<(Option<String>, Vec<u8>)>) -> Seq<
    (Seq<char>, Seq<u8>),
>
    decreases hs.len(),
{
    if hs.len() == 0 {
        Seq::empty()
    } else {
        let rest = spec_kept_headers(hs.drop_last());
        match hs.last().0 {
            Some(n) => rest + seq![(n@, hs.last().1@)],
            None => rest,
        }
    }
}

/// The view of a forwarded header pair.
pub open spec fn spec_header_view(p: (String, Vec<u8>)) -> (Seq<char>, Seq<u8>) {
    (p.0@, p.1@)
}

/// Translates the outcome of the upstream call into the local response.
///
/// On success the upstream status, headers (minus those whose name
/// could not be reused) and body bytes are passed through unchanged.
/// On transport failure the response is synthesized: the fixed bad
/// gateway status and a non-empty body naming the failure.
pub fn build_local_response(upstream: Result<UpstreamResponse, String>) -> (r: LocalResponse)
    ensures
        upstream matches Ok(u) ==> {
            &&& r.status == u.status
            &&& r.headers@.map_values(|p: (String, Vec<u8>)| spec_header_view(p))
                == spec_kept_headers(u.headers@)
            &&& r.body matches ResponseBody::Forwarded(b) && b@ == u.body@
        },
        upstream matches Err(e) ==> {
            &&& r.status == BAD_GATEWAY_STATUS
            &&& r.headers@.len() == 0
            &&& r.body matches ResponseBody::GatewayError(m)
            &&& m@ == "couldn't forward request to GitHub: "@ + e@
            &&& m@.len() > 0
        },
{
    match upstream {
        Ok(u) => {
            let mut kept: Vec<(String, Vec<u8>)> = Vec::new();
            let n = u.headers.len();
            for i in 0..n
                invariant
                    n == u.headers.len(),
                    kept@.map_values(|p: (String, Vec<u8>)| spec_header_view(p))
                        == spec_kept_headers(u.headers@.subrange(0, i as int)),
            {
                let entry = &u.headers[i];
                proof {
                    assert(u.headers@.subrange(0, i + 1 as int).drop_last()
                        =~= u.headers@.subrange(0, i as int));
                    assert(u.headers@.subrange(0, i + 1 as int).last() == u.headers@[i as int]);
                }
                match &entry.0 {
                    Some(name) => {
                        let ghost prev = kept@;
                        kept.push((name.clone(), entry.1.clone()));
                        proof {
                            assert(kept@.map_values(
                                |p: (String, Vec<u8>)| spec_header_view(p),
                            ) =~= prev.map_values(|p: (String, Vec<u8>)| spec_header_view(p))
                                + seq![(u.headers@[i as int].0->0@, u.headers@[i as int].1@)]);
                        }
                    },
                    None => {},
                }
            }
            proof {
                assert(u.headers@.subrange(0, u.headers@.len() as int) =~= u.headers@);
            }
            LocalResponse { status: u.status, headers: kept, body: ResponseBody::Forwarded(u.body) }
        },
        Err(e) => {
            proof {
                reveal_strlit("couldn't forward request to GitHub: ");
            }
            let message = String::from_str("couldn't forward request to GitHub: ").concat(
                e.as_str(),
            );
            LocalResponse {
                status: BAD_GATEWAY_STATUS,
                headers: Vec::new(),
                body: ResponseBody::GatewayError(message),
            }
        },
    }
}

/// The per-request error of the proxy handlers: the outgoing response
/// itself could not be constructed.
#[derive(Debug)]
pub enum GetReposError {
    /// The payload describes the construction failure.
    CouldntCreateBody(String),
}

impl GetReposError {
    /// The status and body of the answer this error turns into: a bad
    /// gateway response carrying the failure's description.
    pub fn response_parts(self) -> (r: (u16, String))
        ensures
            r.0 == BAD_GATEWAY_STATUS,
            self matches GetReposError::CouldntCreateBody(m) ==> r.1 == m,
    {
        match self {
            GetReposError::CouldntCreateBody(m) => (BAD_GATEWAY_STATUS, m),
        }
    }
}

} // verus!
