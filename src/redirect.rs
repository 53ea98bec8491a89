//! Rewriting of redirects that point at the upstream host, so that browser
//! navigation stays on the local listener.
use vstd::prelude::*;
use vstd::string::*;
use crate::headers::{
    destructure_response, has_prefix, header_views, inbound_spec, lemma_inbound_without_prefixed_names,
    Header,
};
use crate::text::str_eq;

verus! {

/// What the redirect rewrite reads of a URL: its domain, when it names one,
/// and the rest of it from the path on (path, query and fragment).
pub struct LocationParts {
    pub domain: Option<String>,
    pub tail: String,
}

pub open spec fn opt_view(o: Option<String>) -> Option<Seq<char>> {
    match o {
        Some(s) => Some(s@),
        None => None,
    }
}

pub open spec fn parts_view(p: Option<LocationParts>) -> Option<(Option<Seq<char>>, Seq<char>)> {
    match p {
        Some(q) => Some((opt_view(q.domain), q.tail@)),
        None => None,
    }
}

/// Domain and tail of the URL `s` as the url crate reads them, or `None`
/// where it does not parse as an absolute URL.
pub uninterp spec fn url_parts_of(s: Seq<char>) -> Option<(Option<Seq<char>>, Seq<char>)>;

/// Relies on url::Url::parse, read through Url::domain and the slice from
/// url::Position::BeforePath: parses an absolute URL.
#[verifier::external_body]
fn parse_location(s: &str) -> (r: Option<LocationParts>)
    ensures
        parts_view(r) == url_parts_of(s@),
{
    match url::Url::parse(s) {
        Ok(u) => Some(
            LocationParts {
                domain: u.domain().map(|d| d.to_string()),
                tail: u[url::Position::BeforePath..].to_string(),
            },
        ),
        Err(_) => None,
    }
}

pub open spec fn scheme_spec(https: bool) -> Seq<char> {
    if https {
        "https"@
    } else {
        "http"@
    }
}

/// The rewritten `Location` value, given what the URL parser read of it:
/// a URL on the upstream domain is sent to the local host, with the scheme of
/// the local listener; anything else stays as it is.
pub open spec fn rewrite_parts_spec(
    location: Seq<char>,
    parts: Option<(Option<Seq<char>>, Seq<char>)>,
    upstream_host: Seq<char>,
    local_host: Seq<char>,
    https: bool,
) -> Seq<char> {
    match parts {
        Some((Some(domain), tail)) => if domain == upstream_host {
            scheme_spec(https) + "://"@ + local_host + tail
        } else {
            location
        },
        _ => location,
    }
}

/// The rewritten value of a `Location` header.
pub open spec fn rewrite_location_spec(
    location: Seq<char>,
    upstream_host: Seq<char>,
    local_host: Seq<char>,
    https: bool,
) -> Seq<char> {
    rewrite_parts_spec(location, url_parts_of(location), upstream_host, local_host, https)
}

/// Rewrites `location` from what the URL parser read of it.
pub fn rewrite_location_parts(
    location: &str,
    parts: &Option<LocationParts>,
    upstream_host: &str,
    local_host: &str,
    https: bool,
) -> (r: String)
    ensures
        r@ == rewrite_parts_spec(location@, parts_view(*parts), upstream_host@, local_host@, https),
{
    proof {
        reveal_strlit("https://");
        reveal_strlit("http://");
    }
    match parts {
        Some(p) => match &p.domain {
            Some(d) => {
                if str_eq(d.as_str(), upstream_host) {
                    let mut r = if https {
                        "https://".to_owned()
                    } else {
                        "http://".to_owned()
                    };
                    r.append(local_host);
                    r.append(p.tail.as_str());
                    proof {
                        reveal_strlit("https");
                        reveal_strlit("http");
                        reveal_strlit("://");
                        assert("https"@ + "://"@ =~= "https://"@);
                        assert("http"@ + "://"@ =~= "http://"@);
                    }
                    r
                } else {
                    location.to_owned()
                }
            },
            None => location.to_owned(),
        },
        None => location.to_owned(),
    }
}

/// Rewrites the value of a `Location` header.
pub fn rewrite_location(location: &str, upstream_host: &str, local_host: &str, https: bool) -> (r:
    String)
    ensures
        r@ == rewrite_location_spec(location@, upstream_host@, local_host@, https),
{
    let parts = parse_location(location);
    rewrite_location_parts(location, &parts, upstream_host, local_host, https)
}

pub open spec fn location_header() -> Seq<char> {
    "location"@
}

pub open spec fn is_redirection(status: u16) -> bool {
    300 <= status < 400
}

/// The response headers after the redirect rewrite: on a 3xx status every
/// `location` header is rewritten, and nothing else changes.
pub open spec fn redirect_spec(
    status: u16,
    hs: Seq<(Seq<char>, Seq<char>)>,
    upstream_host: Seq<char>,
    local_host: Seq<char>,
    https: bool,
) -> Seq<(Seq<char>, Seq<char>)> {
    if is_redirection(status) {
        hs.map_values(
            |h: (Seq<char>, Seq<char>)|
                if h.0 == location_header() {
                    (h.0, rewrite_location_spec(h.1, upstream_host, local_host, https))
                } else {
                    h
                },
        )
    } else {
        hs
    }
}

/// Rewrites redirects to the upstream host so that they point at the local
/// host.
pub fn rewrite_redirect(
    status: u16,
    headers: &mut Vec<Header>,
    upstream_host: &str,
    local_host: &str,
    https: bool,
)
    ensures
        header_views(final(headers)@) == redirect_spec(
            status,
            header_views(old(headers)@),
            upstream_host@,
            local_host@,
            https,
        ),
{
    if status < 300 || status >= 400 {
        return ;
    }
    proof {
        reveal_strlit("location");
    }
    let mut out: Vec<Header> = Vec::new();
    let mut i: usize = 0;
    while i < headers.len()
        invariant
            i <= headers@.len(),
            is_redirection(status),
            header_views(out@) == redirect_spec(
                status,
                header_views(headers@.subrange(0, i as int)),
                upstream_host@,
                local_host@,
                https,
            ),
        decreases headers@.len() - i,
    {
        let h = &headers[i];
        let nh = if str_eq(h.name.as_str(), "location") {
            Header {
                name: h.name.clone(),
                value: rewrite_location(h.value.as_str(), upstream_host, local_host, https),
            }
        } else {
            h.copy()
        };
        let ghost before = header_views(out@);
        out.push(nh);
        assert(header_views(out@) =~= before.push(nh@));
        assert(header_views(headers@.subrange(0, i as int + 1)) =~= header_views(
            headers@.subrange(0, i as int),
        ).push(h@));
        i += 1;
    }
    assert(headers@.subrange(0, headers@.len() as int) =~= headers@);
    *headers = out;
}

/// The headers relayed to the client for an upstream response: the prefix
/// scheme undone, then redirects to the upstream host rewritten.
pub open spec fn response_spec(
    status: u16,
    hs: Seq<(Seq<char>, Seq<char>)>,
    upstream_host: Seq<char>,
    local_host: Seq<char>,
    https: bool,
) -> Seq<(Seq<char>, Seq<char>)> {
    redirect_spec(status, inbound_spec(hs), upstream_host, local_host, https)
}

/// Rewrites the headers of an upstream response for the local client.
pub fn relay_response_headers(
    status: u16,
    headers: &Vec<Header>,
    upstream_host: &str,
    local_host: &str,
    https: bool,
) -> (r: Vec<Header>)
    ensures
        header_views(r@) == response_spec(
            status,
            header_views(headers@),
            upstream_host@,
            local_host@,
            https,
        ),
{
    let mut out = destructure_response(headers);
    rewrite_redirect(status, &mut out, upstream_host, local_host, https);
    out
}

/// A response without prefixed header names and without a `location` header
/// reaches the client with exactly the headers the upstream sent.
pub proof fn lemma_response_without_reserved_is_noop(
    status: u16,
    hs: Seq<(Seq<char>, Seq<char>)>,
    upstream_host: Seq<char>,
    local_host: Seq<char>,
    https: bool,
)
    requires
        forall|i: int|
            0 <= i < hs.len() ==> !has_prefix(#[trigger] hs[i].0) && hs[i].0 != location_header(),
    ensures
        response_spec(status, hs, upstream_host, local_host, https) == hs,
{
    lemma_inbound_without_prefixed_names(hs);
    assert(redirect_spec(status, hs, upstream_host, local_host, https) =~= hs);
}

} // verus!
