use wrangler_dev::headers::{
    destructure_response, is_reserved_header, is_valid_header_value, prefix_header_name, strip_header_prefix,
    structure_request, Header,
};
use wrangler_dev::preview::{
    get_path_as_str, get_preview_id, get_preview_url, preview_request, PreviewIdError,
    PreviewSession, PREVIEW_HOST,
};
use wrangler_dev::redirect::{relay_response_headers, rewrite_location, rewrite_redirect};
use wrangler_dev::server_config::{
    parse_ip, parse_ipv4, parse_ipv6, parse_port, ConfigError, IpAddr, Ipv4, Ipv6, ServerConfig,
    DEFAULT_PORT,
};

fn h(name: &str, value: &str) -> Header {
    Header::new(name, value)
}

fn pairs(hs: &[Header]) -> Vec<(String, String)> {
    hs.iter().map(|x| (x.name.clone(), x.value.clone())).collect()
}

#[test]
fn redirect_to_upstream_is_sent_to_local_host() {
    assert_eq!(
        rewrite_location("https://upstream.example/path", "upstream.example", "localhost:8787", false),
        "http://localhost:8787/path"
    );
    assert_eq!(
        rewrite_location("http://upstream.example/a?b=c#d", "upstream.example", "localhost:8787", true),
        "https://localhost:8787/a?b=c#d"
    );
}

#[test]
fn redirect_elsewhere_is_unchanged() {
    let other = "https://other.example/path";
    assert_eq!(rewrite_location(other, "upstream.example", "localhost:8787", false), other);
    assert_eq!(rewrite_location("/relative", "upstream.example", "localhost:8787", false), "/relative");
}

#[test]
fn only_redirect_statuses_are_rewritten() {
    let loc = "https://upstream.example/next";
    let mut hs = vec![h("location", loc), h("x-other", "1")];
    rewrite_redirect(200, &mut hs, "upstream.example", "localhost:8787", false);
    assert_eq!(hs[0].value, loc);
    rewrite_redirect(302, &mut hs, "upstream.example", "localhost:8787", false);
    assert_eq!(hs[0].value, "http://localhost:8787/next");
    assert_eq!(hs[1].value, "1");
}

#[test]
fn preview_token_is_the_fixed_concatenation() {
    let config = ServerConfig::new(Some("https://localhost:8787"), None, None).unwrap();
    assert_eq!(config.host.label, "localhost:8787");
    assert!(config.host.is_https());
    let token = get_preview_id("abc123", "deadbeef", &config).unwrap();
    assert_eq!(token, "abc123deadbeef1localhost:8787");
}

#[test]
fn empty_script_id_gives_no_token() {
    let config = ServerConfig::new(None, None, None).unwrap();
    assert_eq!(get_preview_id("", "deadbeef", &config), Err(PreviewIdError::EmptyScriptId));
}

#[test]
fn session_ids_are_32_lowercase_hex_digits() {
    let config = ServerConfig::new(None, None, None).unwrap();
    let session = PreviewSession::start("abc", &config).unwrap();
    assert_eq!(session.session_id.len(), 32);
    assert!(session.session_id.chars().all(|c| c.is_ascii_digit() || ('a'..='f').contains(&c)));
    assert_eq!(session.preview_id, format!("abc{}0127.0.0.1:8787", session.session_id));
    let other = PreviewSession::start("abc", &config).unwrap();
    assert_ne!(session.session_id, other.session_id);
}

#[test]
fn listen_address_defaults() {
    let config = ServerConfig::new(None, None, None).unwrap();
    assert_eq!(config.listening_address.ip, IpAddr::V4(Ipv4 { a: 127, b: 0, c: 0, d: 1 }));
    assert_eq!(config.listening_address.port, DEFAULT_PORT);
    assert_eq!(config.host.label, "127.0.0.1:8787");
    assert!(!config.host.https);
}

#[test]
fn listen_address_from_input() {
    let config = ServerConfig::new(Some("http://example.com"), Some("0.0.0.0"), Some("3000")).unwrap();
    assert_eq!(config.listening_address.ip, IpAddr::V4(Ipv4 { a: 0, b: 0, c: 0, d: 0 }));
    assert_eq!(config.listening_address.port, 3000);
    assert_eq!(config.host.label, "example.com");
    assert!(!config.host.https);
}

#[test]
fn bad_ip_or_port_is_a_config_error() {
    assert_eq!(ServerConfig::new(None, Some("256.0.0.1"), None).unwrap_err(), ConfigError::InvalidIp);
    assert_eq!(ServerConfig::new(None, Some("localhost"), None).unwrap_err(), ConfigError::InvalidIp);
    assert_eq!(ServerConfig::new(None, None, Some("65536")).unwrap_err(), ConfigError::InvalidPort);
    assert_eq!(ServerConfig::new(None, None, Some("")).unwrap_err(), ConfigError::InvalidPort);
}

#[test]
fn ip_and_port_parsing() {
    assert_eq!(parse_ipv4("192.168.1.20"), Some(Ipv4 { a: 192, b: 168, c: 1, d: 20 }));
    assert_eq!(parse_ipv4("01.2.3.4"), None);
    assert_eq!(parse_ipv4("1.2.3"), None);
    assert_eq!(parse_ipv4("1.2.3.4.5"), None);
    assert_eq!(parse_port("0"), Some(0));
    assert_eq!(parse_port("65535"), Some(65535));
    assert_eq!(parse_port("+80"), None);
}

#[test]
fn prefix_scheme_is_a_bijection() {
    for name in ["host", "cf-ew-preview", "cf-ew-raw-x", "accept", ""] {
        assert_eq!(strip_header_prefix(&prefix_header_name(name)), name);
    }
    assert_eq!(prefix_header_name("host"), "cf-ew-raw-host");
    assert_eq!(strip_header_prefix("cf-ew-raw-cf-ew-raw-a"), "cf-ew-raw-a");
    assert_eq!(strip_header_prefix("accept"), "accept");
    assert!(is_reserved_header("host"));
    assert!(is_reserved_header("cf-ew-raw-a"));
    assert!(!is_reserved_header("accept"));
}

#[test]
fn outbound_then_inbound_restores_client_headers() {
    let client = vec![
        h("accept", "text/html"),
        h("host", "localhost:8787"),
        h("cookie", "a=b"),
        h("cf-ew-raw-x", "y"),
    ];
    let upstream = structure_request(&client, "token", PREVIEW_HOST);
    assert_eq!(
        pairs(&upstream),
        vec![
            ("accept".to_string(), "text/html".to_string()),
            ("cf-ew-raw-host".to_string(), "localhost:8787".to_string()),
            ("cookie".to_string(), "a=b".to_string()),
            ("cf-ew-raw-cf-ew-raw-x".to_string(), "y".to_string()),
            ("host".to_string(), PREVIEW_HOST.to_string()),
            ("cf-ew-preview".to_string(), "token".to_string()),
        ]
    );
    let back = destructure_response(&upstream);
    assert_eq!(pairs(&back[..client.len()]), pairs(&client));
}

#[test]
fn rewriting_without_reserved_headers_changes_only_managed_ones() {
    let client = vec![h("accept", "*/*"), h("user-agent", "curl")];
    let upstream = structure_request(&client, "t", "up.example");
    assert_eq!(pairs(&upstream[..2]), pairs(&client));
    assert_eq!(upstream.len(), 4);
    let response = vec![h("content-type", "text/plain"), h("set-cookie", "a=b")];
    let relayed = relay_response_headers(302, &response, "up.example", "localhost:8787", false);
    assert_eq!(pairs(&relayed), pairs(&response));
}

#[test]
fn response_headers_lose_the_prefix_and_redirects_are_rewritten() {
    let response = vec![
        h("cf-ew-raw-location", "https://up.example/x"),
        h("cf-ew-raw-set-cookie", "a=b"),
    ];
    let relayed = relay_response_headers(301, &response, "up.example", "localhost:8787", false);
    assert_eq!(
        pairs(&relayed),
        vec![
            ("location".to_string(), "http://localhost:8787/x".to_string()),
            ("set-cookie".to_string(), "a=b".to_string()),
        ]
    );
}

#[test]
fn requests_keep_their_own_targets() {
    let a = preview_request(Some("/a?x=1"), &vec![], "t", PREVIEW_HOST);
    let b = preview_request(Some("/b"), &vec![], "t", PREVIEW_HOST);
    assert_eq!(a.uri, "https://rawhttp.cloudflareworkers.com/a?x=1");
    assert_eq!(b.uri, "https://rawhttp.cloudflareworkers.com/b");
    assert_eq!(a.path, "/a?x=1");
    assert_eq!(get_path_as_str(None), "");
    assert_eq!(get_preview_url("h.example", "/p?q"), "https://h.example/p?q");
}

#[test]
fn malformed_token_skips_the_identification_header() {
    let client = vec![h("accept", "*/*")];
    let upstream = structure_request(&client, "bad\ntoken", "up.example");
    assert_eq!(
        pairs(&upstream),
        vec![
            ("accept".to_string(), "*/*".to_string()),
            ("host".to_string(), "up.example".to_string()),
        ]
    );
    let r = preview_request(Some("/"), &client, "tab\tis fine", PREVIEW_HOST);
    assert_eq!(r.headers.last().unwrap().value, "tab\tis fine");
    assert!(is_valid_header_value("caf\u{e9}"));
    assert!(!is_valid_header_value("a\u{7f}"));
}

fn v6(g: [u16; 8]) -> Ipv6 {
    Ipv6 { s0: g[0], s1: g[1], s2: g[2], s3: g[3], s4: g[4], s5: g[5], s6: g[6], s7: g[7] }
}

#[test]
fn ipv6_addresses_parse() {
    assert_eq!(parse_ipv6("::1"), Some(v6([0, 0, 0, 0, 0, 0, 0, 1])));
    assert_eq!(parse_ipv6("::"), Some(v6([0; 8])));
    assert_eq!(parse_ipv6("fe80::1:2"), Some(v6([0xfe80, 0, 0, 0, 0, 0, 1, 2])));
    assert_eq!(parse_ipv6("1:2:3:4:5:6:7:8"), Some(v6([1, 2, 3, 4, 5, 6, 7, 8])));
    assert_eq!(parse_ipv6("ABCD::"), Some(v6([0xabcd, 0, 0, 0, 0, 0, 0, 0])));
    assert_eq!(parse_ipv6("1:2:3:4:5:6:7"), None);
    assert_eq!(parse_ipv6("1::2::3"), None);
    assert_eq!(parse_ipv6(":::"), None);
    assert_eq!(parse_ipv6("12345::"), None);
    assert_eq!(parse_ipv6("1:2:3:4::5:6:7:8"), None);
    assert_eq!(parse_ip("10.0.0.1"), Some(IpAddr::V4(Ipv4 { a: 10, b: 0, c: 0, d: 1 })));
    assert_eq!(parse_ip("g::"), None);
}

#[test]
fn ipv6_listen_address_and_label() {
    let config = ServerConfig::new(None, Some("::1"), Some("9000")).unwrap();
    assert_eq!(config.listening_address.ip, IpAddr::V6(v6([0, 0, 0, 0, 0, 0, 0, 1])));
    assert_eq!(config.host.label, "[::1]:9000");
}
