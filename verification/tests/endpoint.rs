use gstrtmpx::endpoint::bracketed_host;
use gstrtmpx::endpoint::default_tc_url;
use gstrtmpx::endpoint::parse_authority;
use gstrtmpx::endpoint::parse_rtmp_uri;
use gstrtmpx::endpoint::published_uri;
use gstrtmpx::endpoint::require_app_key;
use gstrtmpx::endpoint::require_uri;
use gstrtmpx::endpoint::resolve_client_endpoint;
use gstrtmpx::endpoint::resolve_listen_endpoint;
use gstrtmpx::endpoint::ListenEndpoint;
use gstrtmpx::text::eq_ignoring_ascii_case;
use gstrtmpx::text::find_char;
use gstrtmpx::text::parse_port;
use gstrtmpx::text::split_at_char;
use gstrtmpx::text::to_decimal;
use gstrtmpx::text::without_prefix;

#[test]
fn parses_full_uri_with_port_and_nested_key() {
    let endpoint = parse_rtmp_uri("rtmp://example.com:1945/live/nested/key").unwrap();
    assert_eq!(endpoint.host, "example.com");
    assert_eq!(endpoint.port, 1945);
    assert_eq!(endpoint.app.as_deref(), Some("live"));
    assert_eq!(endpoint.stream_key.as_deref(), Some("nested/key"));
    assert!(!endpoint.tls);
}

#[test]
fn parses_uri_with_default_port() {
    let endpoint = parse_rtmp_uri("rtmp://127.0.0.1/live/test").unwrap();
    assert_eq!(endpoint.port, 1935);
    assert!(!endpoint.tls);
}

#[test]
fn parses_rtmps_uri_with_tls_and_443_default() {
    let endpoint = parse_rtmp_uri("rtmps://example.com/live/test").unwrap();
    assert_eq!(endpoint.host, "example.com");
    assert_eq!(endpoint.port, 443);
    assert_eq!(endpoint.app.as_deref(), Some("live"));
    assert_eq!(endpoint.stream_key.as_deref(), Some("test"));
    assert!(endpoint.tls);
    let endpoint = parse_rtmp_uri("rtmps://example.com:8443/live").unwrap();
    assert_eq!(endpoint.port, 8443);
    assert!(endpoint.tls);
    let endpoint = parse_rtmp_uri("rtmps://127.0.0.1:0/live").unwrap();
    assert_eq!(endpoint.port, 0);
    assert!(endpoint.tls);
}

#[test]
fn parses_listen_uri_without_app_or_key() {
    let endpoint = parse_rtmp_uri("rtmp://[::]:1234/").unwrap();
    assert_eq!(endpoint.host, "::");
    assert_eq!(endpoint.port, 1234);
    assert_eq!(endpoint.app, None);
    assert_eq!(endpoint.stream_key, None);
    let endpoint = parse_rtmp_uri("rtmp://0.0.0.0:1935/live").unwrap();
    assert_eq!(endpoint.app.as_deref(), Some("live"));
    assert_eq!(endpoint.stream_key, None);
}

#[test]
fn rejects_non_rtmp_scheme_and_bad_authority() {
    assert!(parse_rtmp_uri("http://host/live/key").is_err());
    assert!(parse_rtmp_uri("rtmp://:1935/live/key").is_err());
    assert!(parse_rtmp_uri("rtmp://::1/live/key").is_err());
    let endpoint = parse_rtmp_uri("rtmp://host/app-only").unwrap();
    assert!(require_app_key(&endpoint, "play").is_err());
}

#[test]
fn client_endpoint_resolves_full_uri_with_tc_url_default() {
    let endpoint = resolve_client_endpoint(
        Some("rtmp://example.com:1945/live/nested/key".into()),
        None,
        "rtmpxsink",
    )
    .unwrap();
    assert_eq!(endpoint.host, "example.com");
    assert_eq!(endpoint.port, 1945);
    assert_eq!(endpoint.app, "live");
    assert_eq!(endpoint.stream_key, "nested/key");
    assert_eq!(endpoint.tc_url, "rtmp://example.com:1945/live");
    assert!(!endpoint.tls);
}

#[test]
fn client_endpoint_keeps_rtmps_scheme_in_tc_url() {
    let endpoint = resolve_client_endpoint(
        Some("rtmps://example.com/live/nested/key".into()),
        None,
        "rtmpxsrc",
    )
    .unwrap();
    assert_eq!(endpoint.port, 443);
    assert_eq!(endpoint.tc_url, "rtmps://example.com:443/live");
    assert!(endpoint.tls);
}

#[test]
fn client_endpoint_rejects_uri_without_app_or_key() {
    assert!(resolve_client_endpoint(Some("rtmp://host/".into()), None, "play").is_err());
    assert!(resolve_client_endpoint(Some("rtmp://host/app-only".into()), None, "play").is_err());
    assert!(resolve_client_endpoint(None, None, "play").is_err());
}

#[test]
fn uri_errors_say_what_is_wrong() {
    let message = |uri: &str| parse_rtmp_uri(uri).unwrap_err();
    assert_eq!(message("http://host/"), "RTMP URI must start with rtmp:// or rtmps://");
    assert_eq!(message("RTMP://host/"), "RTMP URI must start with rtmp:// or rtmps://");
    assert_eq!(message(""), "RTMP URI must start with rtmp:// or rtmps://");
    assert_eq!(message("rtmp://"), "RTMP URI must contain a host");
    assert_eq!(message("rtmp:///live/key"), "RTMP URI must contain a host");
    assert_eq!(message("rtmp://:1935/live"), "RTMP URI must contain a host");
    assert_eq!(message("rtmp://[]:1935/live"), "RTMP URI must contain a host");
    assert_eq!(message("rtmp://[::1/live"), "RTMP URI has an unterminated IPv6 literal");
    assert_eq!(message("rtmp://[::1]1935/"), "RTMP URI has an invalid port");
    assert_eq!(message("rtmp://[::1]:/"), "RTMP URI has an invalid port");
    assert_eq!(message("rtmp://[::1]:65536/"), "RTMP URI has an invalid port");
    assert_eq!(message("rtmp://host:/live"), "RTMP URI has an invalid port");
    assert_eq!(message("rtmp://host:19x5/live"), "RTMP URI has an invalid port");
    assert_eq!(message("rtmp://host:-1/live"), "RTMP URI has an invalid port");
    assert_eq!(
        message("rtmp://::1/live/key"),
        "RTMP URI IPv6 literals must use brackets, e.g. rtmp://[::]:1935/"
    );
}

#[test]
fn authority_splits_into_host_and_port() {
    assert_eq!(parse_authority("host", 7), Ok(("host".to_string(), 7)));
    assert_eq!(parse_authority("host:80", 7), Ok(("host".to_string(), 80)));
    assert_eq!(parse_authority("[::1]", 7), Ok(("::1".to_string(), 7)));
    assert_eq!(parse_authority("[::1]:9", 7), Ok(("::1".to_string(), 9)));
    assert_eq!(parse_authority("[host]:9", 7), Ok(("host".to_string(), 9)));
}

#[test]
fn ports_are_plain_decimals() {
    assert_eq!(parse_port("0"), Some(0));
    assert_eq!(parse_port("65535"), Some(65535));
    assert_eq!(parse_port("65536"), None);
    assert_eq!(parse_port("99999999999999999999"), None);
    assert_eq!(parse_port("+80"), Some(80));
    assert_eq!(parse_port("+"), None);
    assert_eq!(parse_port("++8"), None);
    assert_eq!(parse_port("-8"), None);
    assert_eq!(parse_port(""), None);
    assert_eq!(parse_port("00080"), Some(80));
    assert_eq!(parse_port("8 "), None);
    for port in [0u16, 9, 10, 443, 1935, 65535] {
        assert_eq!(to_decimal(port as u64), port.to_string());
        assert_eq!(parse_port(&to_decimal(port as u64)), Some(port));
    }
    assert_eq!(to_decimal(u64::MAX), "18446744073709551615");
}

#[test]
fn query_and_one_trailing_slash_do_not_count() {
    let plain = parse_rtmp_uri("rtmp://host/live/key").unwrap();
    assert_eq!(parse_rtmp_uri("rtmp://host/live/key?token=a/b").unwrap(), plain);
    assert_eq!(parse_rtmp_uri("rtmp://host/live/key/").unwrap(), plain);
    let double = parse_rtmp_uri("rtmp://host/live/key//").unwrap();
    assert_eq!(double.stream_key.as_deref(), Some("key/"));
    let keyless = parse_rtmp_uri("rtmp://host/live/?x").unwrap();
    assert_eq!(keyless.app.as_deref(), Some("live"));
    assert_eq!(keyless.stream_key, None);
    let appless = parse_rtmp_uri("rtmp://host//key").unwrap();
    assert_eq!(appless.app, None);
    assert_eq!(appless.stream_key.as_deref(), Some("key"));
}

#[test]
fn query_string_needs_no_path() {
    let host = parse_rtmp_uri("rtmp://host").unwrap();
    assert_eq!(host.host, "host");
    assert_eq!(host.port, 1935);
    assert_eq!(host.app, None);
    assert_eq!(host.stream_key, None);
    assert!(!host.tls);
    assert_eq!(parse_rtmp_uri("rtmp://host?x=1").unwrap(), host);
    assert_eq!(parse_rtmp_uri("rtmp://host:1935?x=1").unwrap(), host);
    assert_eq!(parse_rtmp_uri("rtmp://host?x=1/live/key").unwrap(), host);
    assert_eq!(parse_rtmp_uri("rtmp://host?").unwrap(), host);
    assert_eq!(parse_rtmp_uri("rtmp://host/?a?b").unwrap(), host);
    let literal = parse_rtmp_uri("rtmps://[::1]?x").unwrap();
    assert_eq!((literal.host.as_str(), literal.port), ("::1", 443));
    assert_eq!(parse_rtmp_uri("rtmp://?x").unwrap_err(), "RTMP URI must contain a host");
    assert_eq!(
        parse_rtmp_uri("rtmp:?//host").unwrap_err(),
        "RTMP URI must start with rtmp:// or rtmps://"
    );
}

#[test]
fn text_beyond_ascii_is_kept() {
    let endpoint = parse_rtmp_uri("rtmp://höst:1/lïve/kéy").unwrap();
    assert_eq!(endpoint.host, "höst");
    assert_eq!(endpoint.port, 1);
    assert_eq!(endpoint.app.as_deref(), Some("lïve"));
    assert_eq!(endpoint.stream_key.as_deref(), Some("kéy"));
    assert_eq!(find_char("höst:1", ':'), Some(4));
    assert_eq!(split_at_char("ä/ö/ü", '/'), Some(("ä", "ö/ü")));
    assert_eq!(split_at_char("äöü", '/'), None);
    assert_eq!(without_prefix("ärtmp", "ä"), Some("rtmp"));
    assert_eq!(without_prefix("ä", "ärtmp"), None);
}

#[test]
fn hosts_with_colons_get_brackets() {
    assert_eq!(bracketed_host("::1"), "[::1]");
    assert_eq!(bracketed_host("127.0.0.1"), "127.0.0.1");
    assert_eq!(default_tc_url("::1", 1935, "live", false), "rtmp://[::1]:1935/live");
    assert_eq!(default_tc_url("host", 443, "live", true), "rtmps://host:443/live");
}

#[test]
fn tc_url_override_wins_unless_empty() {
    let uri = || Some("rtmp://host/live/key".to_string());
    let given = resolve_client_endpoint(uri(), Some("rtmp://other/app".into()), "play").unwrap();
    assert_eq!(given.tc_url, "rtmp://other/app");
    let empty = resolve_client_endpoint(uri(), Some(String::new()), "play").unwrap();
    assert_eq!(empty.tc_url, "rtmp://host:1935/live");
    assert!(!empty.tc_url.contains("key"));
}

#[test]
fn missing_parts_are_named() {
    assert_eq!(
        require_uri(&None, "rtmpxsrc listen mode"),
        Err("rtmpxsrc listen mode needs uri, e.g. rtmp://host:1935/app/key".to_string())
    );
    assert_eq!(
        require_uri(&Some(String::new()), "x"),
        Err("x needs uri, e.g. rtmp://host:1935/app/key".to_string())
    );
    assert_eq!(require_uri(&Some("y".to_string()), "x"), Ok("y".to_string()));
    let endpoint = parse_rtmp_uri("rtmp://host/app").unwrap();
    assert_eq!(
        require_app_key(&endpoint, "play"),
        Err("play needs a full RTMP URI with application and stream key".to_string())
    );
    let endpoint = parse_rtmp_uri("rtmp://host/app/key").unwrap();
    assert_eq!(
        require_app_key(&endpoint, "play"),
        Ok(("app".to_string(), "key".to_string()))
    );
}

#[test]
fn free_port_is_published_and_reads_back() {
    let bound = |uri: &str, port: u16| {
        let (endpoint, text) = resolve_listen_endpoint(&Some(uri.to_string()), "listen").unwrap();
        assert_eq!(text, uri);
        published_uri(&endpoint, port)
    };
    assert_eq!(
        bound("rtmp://127.0.0.1:0/live/key", 5000),
        Some("rtmp://127.0.0.1:5000/live/key".to_string())
    );
    assert_eq!(bound("rtmps://[::]:0/live", 5001), Some("rtmps://[::]:5001/live".to_string()));
    assert_eq!(bound("rtmp://0.0.0.0:0", 5002), Some("rtmp://0.0.0.0:5002".to_string()));
    assert_eq!(bound("rtmp://0.0.0.0:1935/live", 1935), None);
    let uri = bound("rtmps://[::1]:0/live/a/b", 6000).unwrap();
    let read = parse_rtmp_uri(&uri).unwrap();
    assert_eq!(read.host, "::1");
    assert_eq!(read.port, 6000);
    assert_eq!(read.app.as_deref(), Some("live"));
    assert_eq!(read.stream_key.as_deref(), Some("a/b"));
    assert!(read.tls);
}

#[test]
fn key_without_app_is_not_published() {
    let endpoint = ListenEndpoint {
        bind_host: "127.0.0.1".to_string(),
        port: 0,
        app_filter: None,
        key_filter: Some("key".to_string()),
        tls: false,
    };
    assert_eq!(published_uri(&endpoint, 7), Some("rtmp://127.0.0.1:7".to_string()));
}

#[test]
fn listen_needs_a_uri_that_parses() {
    assert_eq!(
        resolve_listen_endpoint(&None, "rtmpxsink listen mode").unwrap_err(),
        "rtmpxsink listen mode needs uri, e.g. rtmp://host:1935/app/key"
    );
    assert_eq!(
        resolve_listen_endpoint(&Some("udp://x".to_string()), "listen").unwrap_err(),
        "RTMP URI must start with rtmp:// or rtmps://"
    );
}

#[test]
fn ascii_case_is_ignored_and_no_other() {
    assert!(eq_ignoring_ascii_case("LiSteN", "listen"));
    assert!(eq_ignoring_ascii_case("", ""));
    assert!(!eq_ignoring_ascii_case("listen", "listens"));
    assert!(!eq_ignoring_ascii_case("ÄB", "äb"));
    assert!(!eq_ignoring_ascii_case("@", "`"));
    assert!(!eq_ignoring_ascii_case("[", "{"));
}
