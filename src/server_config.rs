//! Resolution of the local listen address and of the display host that the
//! proxy uses in redirects and in the preview session token.
use vstd::prelude::*;
use vstd::string::*;
use crate::text::{
    all_digits, decimal_of, decimal_string, digits_value, drop_chars, hex_group_spec,
    parse_capped, parse_hex_group, split_on, split_spec, starts_with, views,
};

verus! {

/// Port used when none is given.
pub const DEFAULT_PORT: u16 = 8787;

/// Why a listen address could not be resolved.
#[derive(Debug, Clone, PartialEq, Eq, Structural)]
pub enum ConfigError {
    InvalidIp,
    InvalidPort,
}

/// An IPv4 address, one octet per field.
#[derive(Debug, Clone, Copy, PartialEq, Eq, Structural)]
pub struct Ipv4 {
    pub a: u8,
    pub b: u8,
    pub c: u8,
    pub d: u8,
}

/// The loopback address, used when no IP is given.
pub open spec fn loopback() -> Ipv4 {
    Ipv4 { a: 127, b: 0, c: 0, d: 1 }
}

/// An IPv6 address, one 16-bit group per field, most significant first.
#[derive(Debug, Clone, Copy, PartialEq, Eq, Structural)]
pub struct Ipv6 {
    pub s0: u16,
    pub s1: u16,
    pub s2: u16,
    pub s3: u16,
    pub s4: u16,
    pub s5: u16,
    pub s6: u16,
    pub s7: u16,
}

/// An IP address of either family.
#[derive(Debug, Clone, Copy, PartialEq, Eq, Structural)]
pub enum IpAddr {
    V4(Ipv4),
    V6(Ipv6),
}

/// The address the local listener binds to.
#[derive(Debug, Clone, Copy, PartialEq, Eq, Structural)]
pub struct ListeningAddress {
    pub ip: IpAddr,
    pub port: u16,
}

/// The public-facing host label, and whether the client side speaks https.
/// The listener itself never terminates TLS: `https` only affects redirect
/// rewriting and the preview session token.
#[derive(Debug, Clone)]
pub struct Host {
    pub label: String,
    pub https: bool,
}

impl Host {
    pub fn is_https(&self) -> (r: bool)
        ensures
            r == self.https,
    {
        self.https
    }

    /// The label shown to the user and put into redirects, without scheme.
    pub fn label(&self) -> (r: &str)
        ensures
            r@ == self.label@,
    {
        self.label.as_str()
    }
}

/// Resolved configuration of the local server; immutable once built.
#[derive(Debug, Clone)]
pub struct ServerConfig {
    pub host: Host,
    pub listening_address: ListeningAddress,
}

// ---------------------------------------------------------------- ports

/// The port written in `s`: one or more decimal digits, value at most 65535.
pub open spec fn port_spec(s: Seq<char>) -> Option<u16> {
    if s.len() > 0 && all_digits(s) && digits_value(s) <= 65535 {
        Some(digits_value(s) as u16)
    } else {
        None
    }
}

/// Parses a port number.
pub fn parse_port(s: &str) -> (r: Option<u16>)
    ensures
        r == port_spec(s@),
{
    match parse_capped(s, 65535) {
        Some(v) => Some(v as u16),
        None => None,
    }
}

// ---------------------------------------------------------------- IPv4

/// One field of a dotted-quad address: one to three digits, no leading zero,
/// value at most 255.
pub open spec fn octet_spec(f: Seq<char>) -> Option<u8> {
    if 1 <= f.len() <= 3 && all_digits(f) && digits_value(f) <= 255 && !(f.len() > 1 && f[0]
        == '0') {
        Some(digits_value(f) as u8)
    } else {
        None
    }
}

/// The address written in `s` as four dot-separated octets.
pub open spec fn ipv4_spec(s: Seq<char>) -> Option<Ipv4> {
    let f = split_spec(s, '.');
    if f.len() == 4 && octet_spec(f[0]) is Some && octet_spec(f[1]) is Some && octet_spec(
        f[2],
    ) is Some && octet_spec(f[3]) is Some {
        Some(
            Ipv4 {
                a: octet_spec(f[0])->0,
                b: octet_spec(f[1])->0,
                c: octet_spec(f[2])->0,
                d: octet_spec(f[3])->0,
            },
        )
    } else {
        None
    }
}

fn parse_octet(f: &String) -> (r: Option<u8>)
    ensures
        r == octet_spec(f@),
{
    let s = f.as_str();
    let n = s.unicode_len();
    if n < 1 || n > 3 {
        return None;
    }
    if n > 1 && s.get_char(0) == '0' {
        return None;
    }
    match parse_capped(s, 255) {
        Some(v) => Some(v as u8),
        None => None,
    }
}

/// Parses a dotted-quad IPv4 address.
pub fn parse_ipv4(s: &str) -> (r: Option<Ipv4>)
    ensures
        r == ipv4_spec(s@),
{
    let f = split_on(s, '.');
    assert(views(f@).len() == f@.len());
    if f.len() != 4 {
        return None;
    }
    assert(views(f@)[0] == f@[0]@);
    assert(views(f@)[1] == f@[1]@);
    assert(views(f@)[2] == f@[2]@);
    assert(views(f@)[3] == f@[3]@);
    let a = parse_octet(&f[0]);
    let b = parse_octet(&f[1]);
    let c = parse_octet(&f[2]);
    let d = parse_octet(&f[3]);
    match (a, b, c, d) {
        (Some(a), Some(b), Some(c), Some(d)) => Some(Ipv4 { a, b, c, d }),
        _ => None,
    }
}

// ---------------------------------------------------------------- IPv6

/// The groups written in `s`, colon-separated; none for an empty `s`.
pub open spec fn groups_spec(s: Seq<char>) -> Option<Seq<u16>> {
    if s.len() == 0 {
        Some(Seq::empty())
    } else {
        let f = split_spec(s, ':');
        if forall|k: int| 0 <= k < f.len() ==> (#[trigger] hex_group_spec(f[k])) is Some {
            Some(f.map_values(|x: Seq<char>| hex_group_spec(x)->0))
        } else {
            None
        }
    }
}

/// The index of the first `::` in `s`.
pub open spec fn double_colon(s: Seq<char>) -> Option<int>
    decreases s.len(),
{
    if s.len() < 2 {
        None
    } else {
        match double_colon(s.drop_last()) {
            Some(i) => Some(i),
            None => if s[s.len() - 2] == ':' && s[s.len() - 1] == ':' {
                Some(s.len() - 2)
            } else {
                None
            },
        }
    }
}

pub open spec fn ipv6_of(g: Seq<u16>) -> Ipv6 {
    Ipv6 { s0: g[0], s1: g[1], s2: g[2], s3: g[3], s4: g[4], s5: g[5], s6: g[6], s7: g[7] }
}

/// The IPv6 address written in `s`: eight groups of one to four hexadecimal
/// digits, or fewer groups with one `::` standing for the zero groups left
/// out.
pub open spec fn ipv6_spec(s: Seq<char>) -> Option<Ipv6> {
    match double_colon(s) {
        None => match groups_spec(s) {
            Some(g) => if g.len() == 8 {
                Some(ipv6_of(g))
            } else {
                None
            },
            None => None,
        },
        Some(i) => match (groups_spec(s.subrange(0, i)), groups_spec(s.subrange(i + 2, s.len() as int))) {
            (Some(l), Some(r)) => if l.len() + r.len() <= 7 {
                Some(ipv6_of(l + Seq::new((8 - l.len() - r.len()) as nat, |k: int| 0u16) + r))
            } else {
                None
            },
            _ => None,
        },
    }
}

fn parse_groups(s: &str) -> (r: Option<Vec<u16>>)
    ensures
        match r {
            Some(v) => groups_spec(s@) == Some(v@),
            None => groups_spec(s@) is None,
        },
{
    if s.unicode_len() == 0 {
        let v: Vec<u16> = Vec::new();
        assert(v@ =~= Seq::<u16>::empty());
        return Some(v);
    }
    let f = split_on(s, ':');
    let ghost fs = split_spec(s@, ':');
    assert(views(f@) == fs);
    let mut out: Vec<u16> = Vec::new();
    let mut i: usize = 0;
    while i < f.len()
        invariant
            s@.len() > 0,
            fs == split_spec(s@, ':'),
            views(f@) == fs,
            i <= f@.len(),
            forall|k: int| 0 <= k < i ==> (#[trigger] hex_group_spec(fs[k])) is Some,
            out@ == fs.subrange(0, i as int).map_values(|x: Seq<char>| hex_group_spec(x)->0),
        decreases f@.len() - i,
    {
        assert(fs[i as int] == f@[i as int]@);
        match parse_hex_group(f[i].as_str()) {
            Some(g) => {
                out.push(g);
                assert(out@ =~= fs.subrange(0, i as int + 1).map_values(
                    |x: Seq<char>| hex_group_spec(x)->0,
                ));
            },
            None => {
                assert(hex_group_spec(fs[i as int]) is None);
                assert(fs.len() == f@.len());
                assert(!(forall|k: int| 0 <= k < fs.len() ==> (#[trigger] hex_group_spec(fs[k])) is Some));
                assert(groups_spec(s@) is None);
                return None;
            },
        }
        i += 1;
    }
    assert(fs.subrange(0, fs.len() as int) =~= fs);
    Some(out)
}

fn find_double_colon(s: &str) -> (r: Option<usize>)
    ensures
        match r {
            Some(i) => double_colon(s@) == Some(i as int) && i + 2 <= s@.len(),
            None => double_colon(s@) is None,
        },
{
    let n = s.unicode_len();
    if n < 2 {
        return None;
    }
    let mut j: usize = 0;
    assert(double_colon(s@.subrange(0, 1)) is None);
    while j + 1 < n
        invariant
            n == s@.len(),
            n >= 2,
            j + 1 <= n,
            double_colon(s@.subrange(0, j as int + 1)) is None,
        decreases n - j,
    {
        let ghost pre = s@.subrange(0, j as int + 2);
        assert(pre.drop_last() =~= s@.subrange(0, j as int + 1));
        if s.get_char(j) == ':' && s.get_char(j + 1) == ':' {
            proof {
                lemma_double_colon_prefix(s@, j as int + 2);
            }
            return Some(j);
        }
        j += 1;
    }
    assert(s@.subrange(0, n as int) =~= s@);
    None
}

proof fn lemma_double_colon_prefix(s: Seq<char>, k: int)
    requires
        2 <= k <= s.len(),
        double_colon(s.subrange(0, k)) is Some,
    ensures
        double_colon(s) == double_colon(s.subrange(0, k)),
    decreases s.len(),
{
    if k < s.len() {
        assert(s.drop_last().subrange(0, k) =~= s.subrange(0, k));
        lemma_double_colon_prefix(s.drop_last(), k);
    } else {
        assert(s.subrange(0, k) =~= s);
    }
}

fn to_ipv6(g: &Vec<u16>) -> (r: Ipv6)
    requires
        g@.len() == 8,
    ensures
        r == ipv6_of(g@),
{
    Ipv6 { s0: g[0], s1: g[1], s2: g[2], s3: g[3], s4: g[4], s5: g[5], s6: g[6], s7: g[7] }
}

/// Parses an IPv6 address.
pub fn parse_ipv6(s: &str) -> (r: Option<Ipv6>)
    ensures
        r == ipv6_spec(s@),
{
    match find_double_colon(s) {
        None => match parse_groups(s) {
            Some(g) => if g.len() == 8 {
                Some(to_ipv6(&g))
            } else {
                None
            },
            None => None,
        },
        Some(i) => {
            let n = s.unicode_len();
            let l = parse_groups(s.substring_char(0, i));
            let r = parse_groups(s.substring_char(i + 2, n));
            match (l, r) {
                (Some(l), Some(r)) => {
                    if l.len() > 7 || r.len() > 7 - l.len() {
                        return None;
                    }
                    let zeros = 8 - l.len() - r.len();
                    let mut all: Vec<u16> = l;
                    let ghost lv = all@;
                    let mut k: usize = 0;
                    while k < zeros
                        invariant
                            k <= zeros,
                            all@ == lv + Seq::new(k as nat, |j: int| 0u16),
                        decreases zeros - k,
                    {
                        all.push(0);
                        assert(all@ =~= lv + Seq::new(k as nat + 1, |j: int| 0u16));
                        k += 1;
                    }
                    let ghost mid = all@;
                    let mut j: usize = 0;
                    while j < r.len()
                        invariant
                            j <= r@.len(),
                            all@ == mid + r@.subrange(0, j as int),
                        decreases r@.len() - j,
                    {
                        all.push(r[j]);
                        assert(all@ =~= mid + r@.subrange(0, j as int + 1));
                        j += 1;
                    }
                    assert(r@.subrange(0, r@.len() as int) =~= r@);
                    Some(to_ipv6(&all))
                },
                _ => None,
            }
        },
    }
}

/// The address written in `s`, of either family.
pub open spec fn ip_spec(s: Seq<char>) -> Option<IpAddr> {
    match ipv4_spec(s) {
        Some(a) => Some(IpAddr::V4(a)),
        None => match ipv6_spec(s) {
            Some(a) => Some(IpAddr::V6(a)),
            None => None,
        },
    }
}

/// Parses an IPv4 or IPv6 address.
pub fn parse_ip(s: &str) -> (r: Option<IpAddr>)
    ensures
        r == ip_spec(s@),
{
    match parse_ipv4(s) {
        Some(a) => Some(IpAddr::V4(a)),
        None => match parse_ipv6(s) {
            Some(a) => Some(IpAddr::V6(a)),
            None => None,
        },
    }
}

// ---------------------------------------------------------------- resolution

/// The IP to bind: the IPv4 loopback address when none is given.
pub open spec fn resolved_ip(ip: Option<&str>) -> Option<IpAddr> {
    match ip {
        None => Some(IpAddr::V4(loopback())),
        Some(s) => ip_spec(s@),
    }
}

/// The IP as shown in the display label: as written, an IPv6 address in
/// brackets; `127.0.0.1` when none is given.
pub open spec fn ip_label_spec(ip: Option<&str>) -> Seq<char> {
    match ip {
        None => "127.0.0.1"@,
        Some(s) => if ipv4_spec(s@) is Some {
            s@
        } else {
            "["@ + s@ + "]"@
        },
    }
}

/// The port to bind: the default port when none is given.
pub open spec fn resolved_port(port: Option<&str>) -> Option<u16> {
    match port {
        None => Some(DEFAULT_PORT),
        Some(s) => port_spec(s@),
    }
}

/// The display label: the given host without its `http://` or `https://`
/// scheme, or `ip:port` when no host is given.
pub open spec fn host_label_spec(host: Option<&str>, ip: Option<&str>, port: u16) -> Seq<char> {
    match host {
        None => ip_label_spec(ip) + seq![':'] + decimal_of(port as nat),
        Some(h) => if h@.len() >= 8 && h@.subrange(0, 8) == "https://"@ {
            h@.subrange(8, h@.len() as int)
        } else if h@.len() >= 7 && h@.subrange(0, 7) == "http://"@ {
            h@.subrange(7, h@.len() as int)
        } else {
            h@
        },
    }
}

/// https is on only when the host is given with the `https://` scheme.
pub open spec fn host_https_spec(host: Option<&str>) -> bool {
    match host {
        None => false,
        Some(h) => h@.len() >= 8 && h@.subrange(0, 8) == "https://"@,
    }
}

impl ServerConfig {
    /// Resolves the optional host, IP and port given by the user.
    pub fn new(host: Option<&str>, ip: Option<&str>, port: Option<&str>) -> (r: Result<
        ServerConfig,
        ConfigError,
    >)
        ensures
            resolved_ip(ip) is None ==> r == Err::<ServerConfig, ConfigError>(
                ConfigError::InvalidIp,
            ),
            resolved_ip(ip) is Some && resolved_port(port) is None ==> r == Err::<
                ServerConfig,
                ConfigError,
            >(ConfigError::InvalidPort),
            resolved_ip(ip) is Some && resolved_port(port) is Some ==> r is Ok,
            r matches Ok(c) ==> {
                &&& c.listening_address.ip == resolved_ip(ip)->0
                &&& c.listening_address.port == resolved_port(port)->0
                &&& c.host.label@ == host_label_spec(host, ip, c.listening_address.port)
                &&& c.host.https == host_https_spec(host)
            },
    {
        let ip_addr = match ip {
            None => IpAddr::V4(Ipv4 { a: 127, b: 0, c: 0, d: 1 }),
            Some(s) => match parse_ip(s) {
                Some(a) => a,
                None => {
                    return Err(ConfigError::InvalidIp);
                },
            },
        };
        let port_num = match port {
            None => DEFAULT_PORT,
            Some(s) => match parse_port(s) {
                Some(p) => p,
                None => {
                    return Err(ConfigError::InvalidPort);
                },
            },
        };
        let listening_address = ListeningAddress { ip: ip_addr, port: port_num };
        proof {
            reveal_strlit("https://");
            reveal_strlit("http://");
            reveal_strlit(":");
        }
        let host = match host {
            None => {
                let mut label = match ip {
                    None => "127.0.0.1".to_owned(),
                    Some(s) => match ip_addr {
                        IpAddr::V4(_) => s.to_owned(),
                        IpAddr::V6(_) => {
                            let mut b = "[".to_owned();
                            b.append(s);
                            b.append("]");
                            b
                        },
                    },
                };
                label.append(":");
                label.append(decimal_string(port_num as u64).as_str());
                Host { label, https: false }
            },
            Some(h) => {
                if starts_with(h, "https://") {
                    Host { label: drop_chars(h, 8), https: true }
                } else if starts_with(h, "http://") {
                    Host { label: drop_chars(h, 7), https: false }
                } else {
                    Host { label: h.to_owned(), https: false }
                }
            },
        };
        Ok(ServerConfig { host, listening_address })
    }
}

} // verus!
