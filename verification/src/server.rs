//! The HTTP surface of the server: the route table, the asset content
//! types, and the addresses the listener binds and the browser opens.
//!
//! The listener, the routing framework and the CORS layer are plain
//! I/O plumbing and stay with the caller; this module fixes which paths
//! exist, what each one serves, and the exact address strings.

use vstd::prelude::*;
use crate::textfmt::push_decimal;
use crate::textfmt::spec_decimal;

verus! {

/// The embedded front-end assets the server can answer with.
#[derive(Clone, Copy, Debug)]
pub enum AssetType {
    Html,
    Css,
    CustomCss,
    Js,
    Favicon,
}

/// The `content-type` header value for an asset.
pub open spec fn spec_content_type(asset: AssetType) -> Seq<char> {
    match asset {
        AssetType::Html => "text/html"@,
        AssetType::Css => "text/css"@,
        AssetType::CustomCss => "text/css"@,
        AssetType::Js => "text/javascript"@,
        AssetType::Favicon => "image/png"@,
    }
}

/// Returns the `content-type` header value an asset is served with.
pub fn content_type(asset: &AssetType) -> (r: &'static str)
    ensures
        r@ == spec_content_type(*asset),
{
    match asset {
        AssetType::Html => "text/html",
        AssetType::Css => "text/css",
        AssetType::CustomCss => "text/css",
        AssetType::Js => "text/javascript",
        AssetType::Favicon => "image/png",
    }
}

/// What a route serves: an embedded asset, the configuration document,
/// or one of the four proxied GitHub endpoints.
#[derive(Clone, Copy, Debug)]
pub enum RouteTarget {
    Asset(AssetType),
    ConfigJson,
    UserRepos,
    OrgRepos,
    RepoTags,
    CompareChanges,
}

/// The server's complete route table, in registration order: the
/// static front-end paths, the configuration endpoint, and the four
/// proxy endpoints with their path parameters.
pub fn routes() -> (r: Vec<(String, RouteTarget)>)
    ensures
        r@.len() == 11,
        r@[0].0@ == "/"@ && r@[0].1 == RouteTarget::Asset(AssetType::Html),
        r@[1].0@ == "/priv/static/ghch.mjs"@ && r@[1].1 == RouteTarget::Asset(AssetType::Js),
        r@[2].0@ == "/priv/static/ghch.css"@ && r@[2].1 == RouteTarget::Asset(AssetType::Css),
        r@[3].0@ == "/priv/static/custom.css"@ && r@[3].1 == RouteTarget::Asset(
            AssetType::CustomCss,
        ),
        r@[4].0@ == "/priv/static/changes.mjs"@ && r@[4].1 == RouteTarget::Asset(AssetType::Js),
        r@[5].0@ == "/priv/static/favicon.png"@ && r@[5].1 == RouteTarget::Asset(
            AssetType::Favicon,
        ),
        r@[6].0@ == "/api/config"@ && r@[6].1 == RouteTarget::ConfigJson,
        r@[7].0@ == "/api/users/{user_name}/repos"@ && r@[7].1 == RouteTarget::UserRepos,
        r@[8].0@ == "/api/orgs/{user_name}/repos"@ && r@[8].1 == RouteTarget::OrgRepos,
        r@[9].0@ == "/api/repos/{user_name}/{repo}/tags"@ && r@[9].1 == RouteTarget::RepoTags,
        r@[10].0@ == "/api/repos/{user_name}/{repo}/compare/{range}"@ && r@[10].1
            == RouteTarget::CompareChanges,
{
    let mut r: Vec<(String, RouteTarget)> = Vec::new();
    r.push((String::from_str("/"), RouteTarget::Asset(AssetType::Html)));
    r.push((String::from_str("/priv/static/ghch.mjs"), RouteTarget::Asset(AssetType::Js)));
    r.push((String::from_str("/priv/static/ghch.css"), RouteTarget::Asset(AssetType::Css)));
    r.push((String::from_str("/priv/static/custom.css"), RouteTarget::Asset(
        AssetType::CustomCss,
    )));
    r.push((String::from_str("/priv/static/changes.mjs"), RouteTarget::Asset(AssetType::Js)));
    r.push((String::from_str("/priv/static/favicon.png"), RouteTarget::Asset(
        AssetType::Favicon,
    )));
    r.push((String::from_str("/api/config"), RouteTarget::ConfigJson));
    r.push((String::from_str("/api/users/{user_name}/repos"), RouteTarget::UserRepos));
    r.push((String::from_str("/api/orgs/{user_name}/repos"), RouteTarget::OrgRepos));
    r.push((String::from_str("/api/repos/{user_name}/{repo}/tags"), RouteTarget::RepoTags));
    r.push((String::from_str("/api/repos/{user_name}/{repo}/compare/{range}"),
        RouteTarget::CompareChanges,
    ));
    r
}

/// The loopback address the listener binds for a port:
/// `127.0.0.1:<port>`.
pub fn listen_address(port: u16) -> (r: String)
    ensures
        r@ == "127.0.0.1:"@ + spec_decimal(port as nat),
{
    let mut out = String::from_str("127.0.0.1:");
    push_decimal(&mut out, port);
    out
}

/// The URL the browser is pointed at for a listen address:
/// `http://<address>`.
pub fn server_url(address: &str) -> (r: String)
    ensures
        r@ == "http://"@ + address@,
{
    String::from_str("http://").concat(address)
}

} // verus!
