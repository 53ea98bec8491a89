//! Header rewriting for proxied traffic.
//!
//! Outbound, the proxy owns two request headers: `host`, always set to the
//! upstream host, and `cf-ew-preview`, which carries the preview session
//! token. A client header that would collide with them, or that already
//! carries the reserved prefix `cf-ew-raw-`, is sent under the prefixed name.
//! Inbound, one level of that prefix is stripped from every response header
//! that carries it. Header names are lowercase, as HTTP libraries hand them
//! out.
use vstd::prelude::*;
use vstd::string::*;
use crate::text::{concat, drop_chars, starts_with, str_eq};

verus! {

/// One header line: name and value.
#[derive(Debug, Clone)]
pub struct Header {
    pub name: String,
    pub value: String,
}

impl View for Header {
    type V = (Seq<char>, Seq<char>);

    open spec fn view(&self) -> (Seq<char>, Seq<char>) {
        (self.name@, self.value@)
    }
}

impl Header {
    pub fn new(name: &str, value: &str) -> (r: Header)
        ensures
            r@ == (name@, value@),
    {
        Header { name: name.to_owned(), value: value.to_owned() }
    }

    pub fn copy(&self) -> (r: Header)
        ensures
            r@ == self@,
    {
        Header { name: self.name.clone(), value: self.value.clone() }
    }
}

pub open spec fn header_views(hs: Seq<Header>) -> Seq<(Seq<char>, Seq<char>)> {
    hs.map_values(|h: Header| h@)
}

pub open spec fn header_prefix() -> Seq<char> {
    "cf-ew-raw-"@
}

pub open spec fn host_header() -> Seq<char> {
    "host"@
}

pub open spec fn preview_header() -> Seq<char> {
    "cf-ew-preview"@
}

pub open spec fn has_prefix(n: Seq<char>) -> bool {
    n.len() >= header_prefix().len() && n.subrange(0, header_prefix().len() as int)
        == header_prefix()
}

/// A name the proxy sets itself on every forwarded request.
pub open spec fn is_managed(n: Seq<char>) -> bool {
    n == host_header() || n == preview_header()
}

/// A name that the prefix scheme renames on the way out.
pub open spec fn is_reserved(n: Seq<char>) -> bool {
    is_managed(n) || has_prefix(n)
}

pub open spec fn encode_name(n: Seq<char>) -> Seq<char> {
    if is_reserved(n) {
        header_prefix() + n
    } else {
        n
    }
}

pub open spec fn decode_name(n: Seq<char>) -> Seq<char> {
    if has_prefix(n) {
        n.subrange(header_prefix().len() as int, n.len() as int)
    } else {
        n
    }
}

pub open spec fn encode_header(h: (Seq<char>, Seq<char>)) -> (Seq<char>, Seq<char>) {
    (encode_name(h.0), h.1)
}

pub open spec fn decode_header(h: (Seq<char>, Seq<char>)) -> (Seq<char>, Seq<char>) {
    (decode_name(h.0), h.1)
}

/// A character that may stand in a header value: a tab, or anything but a
/// control character (non-ASCII characters are sent as their UTF-8 bytes,
/// which are allowed).
pub open spec fn is_value_char(c: char) -> bool {
    c == '\t' || (' ' <= c && c != '\x7f')
}

/// Whether `v` can be sent as a header value.
pub open spec fn is_valid_value(v: Seq<char>) -> bool {
    forall|i: int| 0 <= i < v.len() ==> is_value_char(#[trigger] v[i])
}

/// The headers sent upstream for client headers `hs`: each renamed by the
/// prefix scheme, in order, then `host`, then the preview token header
/// unless the token cannot be a header value, in which case that step is
/// skipped and the request goes out without it.
pub open spec fn outbound_spec(
    hs: Seq<(Seq<char>, Seq<char>)>,
    token: Seq<char>,
    upstream_host: Seq<char>,
) -> Seq<(Seq<char>, Seq<char>)> {
    hs.map_values(|h: (Seq<char>, Seq<char>)| encode_header(h)) + seq![
        (host_header(), upstream_host),
    ] + if is_valid_value(token) {
        seq![(preview_header(), token)]
    } else {
        Seq::empty()
    }
}

/// Whether `v` can be sent as a header value.
pub fn is_valid_header_value(v: &str) -> (r: bool)
    ensures
        r == is_valid_value(v@),
{
    let n = v.unicode_len();
    let mut i: usize = 0;
    while i < n
        invariant
            n == v@.len(),
            i <= n,
            forall|k: int| 0 <= k < i ==> is_value_char(#[trigger] v@[k]),
        decreases n - i,
    {
        let c = v.get_char(i);
        if !(c == '\t' || (c >= ' ' && c != '\x7f')) {
            assert(!is_value_char(v@[i as int]));
            return false;
        }
        i += 1;
    }
    true
}

/// The headers relayed to the client for upstream response headers `hs`.
pub open spec fn inbound_spec(hs: Seq<(Seq<char>, Seq<char>)>) -> Seq<(Seq<char>, Seq<char>)> {
    hs.map_values(|h: (Seq<char>, Seq<char>)| decode_header(h))
}

/// Whether `name` carries the reserved prefix.
pub fn has_reserved_prefix(name: &str) -> (r: bool)
    ensures
        r == has_prefix(name@),
{
    proof {
        reveal_strlit("cf-ew-raw-");
    }
    starts_with(name, "cf-ew-raw-")
}

/// Whether the prefix scheme renames `name` on the way out.
pub fn is_reserved_header(name: &str) -> (r: bool)
    ensures
        r == is_reserved(name@),
{
    proof {
        reveal_strlit("host");
        reveal_strlit("cf-ew-preview");
    }
    str_eq(name, "host") || str_eq(name, "cf-ew-preview") || has_reserved_prefix(name)
}

/// `name` with the reserved prefix put in front.
pub fn prefix_header_name(name: &str) -> (r: String)
    ensures
        r@ == header_prefix() + name@,
{
    proof {
        reveal_strlit("cf-ew-raw-");
    }
    concat("cf-ew-raw-", name)
}

/// `name` with one level of the reserved prefix taken off, if it has one.
pub fn strip_header_prefix(name: &str) -> (r: String)
    ensures
        r@ == decode_name(name@),
{
    proof {
        reveal_strlit("cf-ew-raw-");
    }
    if has_reserved_prefix(name) {
        drop_chars(name, 10)
    } else {
        name.to_owned()
    }
}

/// The name under which a client header is sent upstream.
pub fn encode_header_name(name: &str) -> (r: String)
    ensures
        r@ == encode_name(name@),
{
    if is_reserved_header(name) {
        prefix_header_name(name)
    } else {
        name.to_owned()
    }
}

/// Rewrites the headers of a client request for the upstream: client
/// headers renamed by the prefix scheme, then `host` set to the upstream host
/// and `cf-ew-preview` set to the preview session token; a token that cannot
/// be a header value is left out and the request goes out without it.
pub fn structure_request(headers: &Vec<Header>, preview_id: &str, upstream_host: &str) -> (r: Vec<
    Header,
>)
    ensures
        header_views(r@) == outbound_spec(header_views(headers@), preview_id@, upstream_host@),
{
    let mut out: Vec<Header> = Vec::new();
    let mut i: usize = 0;
    while i < headers.len()
        invariant
            i <= headers@.len(),
            header_views(out@) == header_views(headers@.subrange(0, i as int)).map_values(
                |h: (Seq<char>, Seq<char>)| encode_header(h),
            ),
        decreases headers@.len() - i,
    {
        let h = &headers[i];
        let enc = Header { name: encode_header_name(h.name.as_str()), value: h.value.clone() };
        let ghost before = header_views(out@);
        out.push(enc);
        assert(header_views(out@) =~= before.push(enc@));
        assert(header_views(headers@.subrange(0, i as int + 1)) =~= header_views(
            headers@.subrange(0, i as int),
        ).push(h@));
        i += 1;
    }
    proof {
        reveal_strlit("host");
        reveal_strlit("cf-ew-preview");
    }
    let ghost mapped = header_views(out@);
    out.push(Header::new("host", upstream_host));
    assert(header_views(out@) =~= mapped + seq![(host_header(), upstream_host@)]);
    let ghost with_host = header_views(out@);
    if is_valid_header_value(preview_id) {
        out.push(Header::new("cf-ew-preview", preview_id));
        assert(header_views(out@) =~= with_host + seq![(preview_header(), preview_id@)]);
    } else {
        assert(header_views(out@) =~= with_host + Seq::<(Seq<char>, Seq<char>)>::empty());
    }
    assert(headers@.subrange(0, headers@.len() as int) =~= headers@);
    assert(header_views(out@) =~= outbound_spec(
        header_views(headers@),
        preview_id@,
        upstream_host@,
    ));
    out
}

/// Rewrites the headers of an upstream response for the client: one level of
/// the reserved prefix is taken off every name that carries it.
pub fn destructure_response(headers: &Vec<Header>) -> (r: Vec<Header>)
    ensures
        header_views(r@) == inbound_spec(header_views(headers@)),
{
    let mut out: Vec<Header> = Vec::new();
    let mut i: usize = 0;
    while i < headers.len()
        invariant
            i <= headers@.len(),
            header_views(out@) == inbound_spec(header_views(headers@.subrange(0, i as int))),
        decreases headers@.len() - i,
    {
        let h = &headers[i];
        let dec = Header { name: strip_header_prefix(h.name.as_str()), value: h.value.clone() };
        let ghost before = header_views(out@);
        out.push(dec);
        assert(header_views(out@) =~= before.push(dec@));
        assert(header_views(headers@.subrange(0, i as int + 1)) =~= header_views(
            headers@.subrange(0, i as int),
        ).push(h@));
        i += 1;
    }
    assert(headers@.subrange(0, headers@.len() as int) =~= headers@);
    out
}

/// Taking the reserved prefix off a name that it was put on gives back the
/// name exactly; so does decoding any encoded name, which makes the prefix
/// scheme a bijection between client names and the names sent upstream.
pub proof fn lemma_prefix_round_trip(n: Seq<char>)
    ensures
        decode_name(header_prefix() + n) == n,
        decode_name(encode_name(n)) == n,
        is_reserved(n) ==> has_prefix(encode_name(n)),
{
    let p = header_prefix();
    assert((p + n).subrange(0, p.len() as int) =~= p);
    assert((p + n).subrange(p.len() as int, (p + n).len() as int) =~= n);
}

/// A header outside the rewrite set goes upstream as it is, and comes back
/// to the client as it is.
pub proof fn lemma_unreserved_header_unchanged(h: Seq<char>, v: Seq<char>)
    requires
        !is_reserved(h),
    ensures
        encode_header((h, v)) == (h, v),
        decode_header(encode_header((h, v))) == (h, v),
{
}

/// Sending client headers upstream and relaying them back gives the client
/// every one of its headers, in order, with name and value unchanged.
pub proof fn lemma_headers_round_trip(
    hs: Seq<(Seq<char>, Seq<char>)>,
    token: Seq<char>,
    upstream_host: Seq<char>,
)
    ensures
        inbound_spec(outbound_spec(hs, token, upstream_host)).subrange(0, hs.len() as int) == hs,
{
    let out = outbound_spec(hs, token, upstream_host);
    let back = inbound_spec(out);
    assert forall|i: int| 0 <= i < hs.len() implies #[trigger] back[i] == hs[i] by {
        lemma_prefix_round_trip(hs[i].0);
        assert(out[i] == encode_header(hs[i]));
    }
    assert(back.subrange(0, hs.len() as int) =~= hs);
}

/// Without prefixed names among the client headers, the outbound rewrite
/// leaves every header value as it was and every name but `host` and
/// `cf-ew-preview`, and adds exactly those two headers (the second only for
/// a token that can be a header value).
pub proof fn lemma_outbound_without_prefixed_names(
    hs: Seq<(Seq<char>, Seq<char>)>,
    token: Seq<char>,
    upstream_host: Seq<char>,
)
    requires
        forall|i: int| 0 <= i < hs.len() ==> !has_prefix(#[trigger] hs[i].0),
    ensures
        outbound_spec(hs, token, upstream_host).len() == hs.len() + if is_valid_value(token) {
            2int
        } else {
            1int
        },
        forall|i: int|
            0 <= i < hs.len() ==> (#[trigger] outbound_spec(hs, token, upstream_host)[i]).1
                == hs[i].1,
        forall|i: int|
            0 <= i < hs.len() && !is_managed(hs[i].0) ==> #[trigger] outbound_spec(
                hs,
                token,
                upstream_host,
            )[i] == hs[i],
        outbound_spec(hs, token, upstream_host)[hs.len() as int] == (host_header(), upstream_host),
        is_valid_value(token) ==> outbound_spec(hs, token, upstream_host)[hs.len() as int + 1] == (
            preview_header(),
            token,
        ),
{
}

/// Without prefixed names among the response headers, the inbound rewrite
/// changes nothing.
pub proof fn lemma_inbound_without_prefixed_names(hs: Seq<(Seq<char>, Seq<char>)>)
    requires
        forall|i: int| 0 <= i < hs.len() ==> !has_prefix(#[trigger] hs[i].0),
    ensures
        inbound_spec(hs) == hs,
{
    assert(inbound_spec(hs) =~= hs);
}

} // verus!
