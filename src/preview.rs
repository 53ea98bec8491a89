//! Preview sessions: the session id, the preview session token that routes
//! requests to the uploaded script, and the upstream form of each request.
use vstd::prelude::*;
use vstd::string::*;
use crate::headers::{header_views, outbound_spec, structure_request, Header};
use crate::server_config::ServerConfig;

verus! {

/// The upstream preview host.
pub const PREVIEW_HOST: &'static str = "rawhttp.cloudflareworkers.com";

pub open spec fn is_lower_hex(c: char) -> bool {
    ('0' <= c && c <= '9') || ('a' <= c && c <= 'f')
}

/// A session id: 32 lowercase hexadecimal digits.
pub open spec fn is_session_id(s: Seq<char>) -> bool {
    s.len() == 32 && forall|i: int| 0 <= i < 32 ==> is_lower_hex(#[trigger] s[i])
}

/// Relies on uuid::Uuid::new_v4, written in its simple form (32 lowercase
/// hexadecimal digits, no separators): a fresh random session id. It panics
/// only where the operating system provides no random bytes.
#[verifier::external_body]
fn get_session_id() -> (r: String)
    ensures
        is_session_id(r@),
{
    uuid::Uuid::new_v4().to_simple().to_string()
}

/// Why no preview session token could be made.
#[derive(Debug, Clone, Copy, PartialEq, Eq, Structural)]
pub enum PreviewIdError {
    /// The publish step handed back an empty script id.
    EmptyScriptId,
}

pub open spec fn https_digit(https: bool) -> Seq<char> {
    if https {
        "1"@
    } else {
        "0"@
    }
}

/// The preview session token: script id, session id, the https flag as one
/// digit, and the display host, in that order.
pub open spec fn preview_id_spec(
    script_id: Seq<char>,
    session_id: Seq<char>,
    https: bool,
    host_label: Seq<char>,
) -> Seq<char> {
    script_id + session_id + https_digit(https) + host_label
}

/// Builds the preview session token; fails only on an empty script id.
pub fn get_preview_id(script_id: &str, session_id: &str, server_config: &ServerConfig) -> (r:
    Result<String, PreviewIdError>)
    ensures
        script_id@.len() == 0 <==> r is Err,
        r matches Err(e) ==> e == PreviewIdError::EmptyScriptId,
        r matches Ok(t) ==> t@ == preview_id_spec(
            script_id@,
            session_id@,
            server_config.host.https,
            server_config.host.label@,
        ),
{
    if script_id.unicode_len() == 0 {
        return Err(PreviewIdError::EmptyScriptId);
    }
    proof {
        reveal_strlit("1");
        reveal_strlit("0");
    }
    let mut t = script_id.to_owned();
    t.append(session_id);
    if server_config.host.https {
        t.append("1");
    } else {
        t.append("0");
    }
    t.append(server_config.host.label.as_str());
    Ok(t)
}

/// The state of one dev run: its session id and preview session token.
#[derive(Debug)]
pub struct PreviewSession {
    pub session_id: String,
    pub preview_id: String,
}

impl PreviewSession {
    /// Starts a session for the uploaded script `script_id`: draws a fresh
    /// session id and derives the preview session token from it.
    pub fn start(script_id: &str, server_config: &ServerConfig) -> (r: Result<
        PreviewSession,
        PreviewIdError,
    >)
        ensures
            script_id@.len() == 0 <==> r is Err,
            r matches Ok(s) ==> is_session_id(s.session_id@) && s.preview_id@ == preview_id_spec(
                script_id@,
                s.session_id@,
                server_config.host.https,
                server_config.host.label@,
            ),
    {
        let session_id = get_session_id();
        match get_preview_id(script_id, session_id.as_str(), server_config) {
            Ok(preview_id) => Ok(PreviewSession { session_id, preview_id }),
            Err(e) => Err(e),
        }
    }
}

/// The request target of a URI: its path and query, or empty.
pub fn get_path_as_str(path_and_query: Option<&str>) -> (r: String)
    ensures
        r@ == (match path_and_query {
            Some(p) => p@,
            None => Seq::<char>::empty(),
        }),
{
    match path_and_query {
        Some(p) => p.to_owned(),
        None => String::new(),
    }
}

pub open spec fn preview_url_spec(upstream_host: Seq<char>, path: Seq<char>) -> Seq<char> {
    "https://"@ + upstream_host + path
}

/// The upstream URL of a request target: the path and query kept verbatim
/// on the upstream host.
pub fn get_preview_url(upstream_host: &str, path: &str) -> (r: String)
    ensures
        r@ == preview_url_spec(upstream_host@, path@),
{
    proof {
        reveal_strlit("https://");
    }
    let mut u = "https://".to_owned();
    u.append(upstream_host);
    u.append(path);
    u
}

/// A client request in the form sent upstream.
#[derive(Debug)]
pub struct UpstreamRequest {
    /// The local request target, path and query.
    pub path: String,
    pub uri: String,
    pub headers: Vec<Header>,
}

/// Prepares a client request for the upstream: its target resolved against
/// the upstream host, its headers rewritten.
pub fn preview_request(
    path_and_query: Option<&str>,
    headers: &Vec<Header>,
    preview_id: &str,
    upstream_host: &str,
) -> (r: UpstreamRequest)
    ensures
        r.path@ == (match path_and_query {
            Some(p) => p@,
            None => Seq::<char>::empty(),
        }),
        r.uri@ == preview_url_spec(upstream_host@, r.path@),
        header_views(r.headers@) == outbound_spec(
            header_views(headers@),
            preview_id@,
            upstream_host@,
        ),
{
    let path = get_path_as_str(path_and_query);
    let uri = get_preview_url(upstream_host, path.as_str());
    let headers = structure_request(headers, preview_id, upstream_host);
    UpstreamRequest { path, uri, headers }
}

} // verus!
