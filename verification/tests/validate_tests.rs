use webproof::errors::InputError;
use webproof::params::Method;
use webproof::validate::convert_request_to_params;
use webproof::validate::parse_header;
use webproof::validate::parse_notary_url;
use webproof::validate::parse_proven_url;
use webproof::validate::WebProofRequest;

fn request(url: &str) -> WebProofRequest {
    WebProofRequest {
        url: url.to_string(),
        host: None,
        notary: None,
        method: None,
        headers: vec![],
        data: None,
        max_sent_data: None,
        max_recv_data: None,
    }
}

#[test]
fn test_parse_header_success() {
    let result = parse_header("Authorization: Bearer token123");
    assert!(result.is_ok());
    let (key, value) = result.unwrap();
    assert_eq!(key, "Authorization");
    assert_eq!(value, "Bearer token123");
}

#[test]
fn test_parse_header_failure() {
    let result = parse_header("InvalidHeader");
    assert!(result.is_err());
}

#[test]
fn header_parses_to_trimmed_pair() {
    let (k, v) = parse_header("K: V").unwrap();
    assert_eq!(k, "K");
    assert_eq!(v, "V");
}

#[test]
fn header_without_colon_fails() {
    assert!(parse_header("NoColon").is_err());
}

#[test]
fn header_with_empty_value_fails() {
    assert!(parse_header("K:").is_err());
}

#[test]
fn header_with_empty_key_fails() {
    assert!(parse_header(":V").is_err());
}

#[test]
fn header_error_carries_raw_string() {
    match parse_header("BadHeader") {
        Err(InputError::InvalidHeaderFormat(s)) => assert_eq!(s, "BadHeader"),
        other => panic!("expected InvalidHeaderFormat, got {:?}", other.is_ok()),
    }
}

#[test]
fn proven_url_host_and_explicit_port() {
    let u = parse_proven_url("https://example.com:8443/path?q=1").unwrap();
    assert_eq!(u.host, "example.com");
    assert_eq!(u.port, 8443);
}

#[test]
fn proven_url_port_defaults_to_443() {
    let u = parse_proven_url("https://example.com/path").unwrap();
    assert_eq!(u.host, "example.com");
    assert_eq!(u.port, 443);
}

#[test]
fn http_proof_target_is_rejected() {
    match parse_proven_url("http://example.com/") {
        Err(InputError::InvalidUrlProtocol(s)) => assert_eq!(s, "http"),
        _ => panic!("expected InvalidUrlProtocol"),
    }
}

#[test]
fn unknown_scheme_is_rejected() {
    match parse_proven_url("ftp://example.com/") {
        Err(InputError::InvalidUrlProtocol(s)) => assert_eq!(s, "ftp"),
        _ => panic!("expected InvalidUrlProtocol"),
    }
}

#[test]
fn unparseable_url_is_rejected() {
    match parse_proven_url("not a url") {
        Err(InputError::InvalidUrlFormat(s)) => assert_eq!(s, "not a url"),
        _ => panic!("expected InvalidUrlFormat"),
    }
}

#[test]
fn extra_authority_slashes_are_tolerated() {
    // The URL parser skips extra slashes before the authority of a special
    // scheme, so this still names a host.
    let u = parse_proven_url("https:///stillahost").unwrap();
    assert_eq!(u.host, "stillahost");
}

#[test]
fn notary_enable_tls_iff_https() {
    let https = parse_notary_url("https://notary.example:7047/").unwrap();
    assert!(https.enable_tls);
    assert_eq!(https.host, "notary.example");
    assert_eq!(https.port, 7047);
    let http = parse_notary_url("http://notary.example/").unwrap();
    assert!(!http.enable_tls);
    assert_eq!(http.port, 80);
}

#[test]
fn notary_path_prefix_is_slash_trimmed() {
    let c = parse_notary_url("https://notary.example/v1/api/").unwrap();
    assert_eq!(c.path_prefix, "v1/api");
    let bare = parse_notary_url("https://notary.example").unwrap();
    assert_eq!(bare.path_prefix, "");
}

#[test]
fn method_defaults_to_get_without_body() {
    let p = convert_request_to_params(request("https://example.com/")).unwrap();
    assert_eq!(p.method, Method::GET);
}

#[test]
fn method_defaults_to_post_with_body() {
    let mut r = request("https://example.com/");
    r.data = Some("payload".to_string());
    let p = convert_request_to_params(r).unwrap();
    assert_eq!(p.method, Method::POST);
}

#[test]
fn explicit_method_is_case_insensitive() {
    let mut r = request("https://example.com/");
    r.method = Some("put".to_string());
    let p = convert_request_to_params(r).unwrap();
    assert_eq!(p.method, Method::PUT);
}

#[test]
fn unrecognized_method_falls_back_to_get() {
    let mut r = request("https://example.com/");
    r.method = Some("FROBNICATE".to_string());
    r.data = Some("payload".to_string());
    let p = convert_request_to_params(r).unwrap();
    assert_eq!(p.method, Method::GET);
}

#[test]
fn host_override_forces_port_and_keeps_domain() {
    let mut r = request("https://example.com:8443/api");
    r.host = Some("10.0.0.1".to_string());
    let p = convert_request_to_params(r).unwrap();
    assert_eq!(p.server_domain, "example.com");
    assert_eq!(p.server_host, "10.0.0.1");
    assert_eq!(p.server_port, 443);
}

#[test]
fn no_override_dials_url_host_and_port() {
    let p = convert_request_to_params(request("https://example.com:8443/api")).unwrap();
    assert_eq!(p.server_domain, "example.com");
    assert_eq!(p.server_host, "example.com");
    assert_eq!(p.server_port, 8443);
}

#[test]
fn uri_keeps_path_and_query() {
    let p = convert_request_to_params(request("https://example.com/a/b?x=1&y=2")).unwrap();
    assert_eq!(p.uri, "/a/b?x=1&y=2");
}

#[test]
fn size_caps_default() {
    let p = convert_request_to_params(request("https://example.com/")).unwrap();
    assert_eq!(p.max_sent_data, 4096);
    assert_eq!(p.max_recv_data, 16384);
}

#[test]
fn size_caps_explicit() {
    let mut r = request("https://example.com/");
    r.max_sent_data = Some(1024);
    r.max_recv_data = Some(2048);
    let p = convert_request_to_params(r).unwrap();
    assert_eq!(p.max_sent_data, 1024);
    assert_eq!(p.max_recv_data, 2048);
}

#[test]
fn default_notary_is_substituted() {
    let p = convert_request_to_params(request("https://example.com/")).unwrap();
    assert_eq!(p.notary_config.host, "test-notary.vlayer.xyz");
    assert_eq!(p.notary_config.port, 443);
    assert!(p.notary_config.enable_tls);
    assert_eq!(p.notary_config.path_prefix, "");
}

#[test]
fn headers_keep_order_and_trim() {
    let mut r = request("https://example.com/");
    r.headers = vec![
        "B: second".to_string(),
        "A:  first  ".to_string(),
    ];
    let p = convert_request_to_params(r).unwrap();
    assert_eq!(p.headers.len(), 2);
    assert_eq!(p.headers[0], ("B".to_string(), "second".to_string()));
    assert_eq!(p.headers[1], ("A".to_string(), "first".to_string()));
}

#[test]
fn body_is_utf8_bytes_of_data() {
    let mut r = request("https://example.com/");
    r.data = Some("Hello".to_string());
    let p = convert_request_to_params(r).unwrap();
    assert_eq!(p.body, b"Hello".to_vec());
}

#[test]
fn header_trims_unicode_whitespace() {
    let (k, v) = parse_header("\u{00A0}K\u{2003}: V\u{3000}").unwrap();
    assert_eq!(k, "K");
    assert_eq!(v, "V");
}

#[test]
fn method_folds_unicode_case() {
    // A long s uppercases to S, so this spelling still names POST.
    let mut r = request("https://example.com/");
    r.method = Some("po\u{17F}t".to_string());
    let p = convert_request_to_params(r).unwrap();
    assert_eq!(p.method, Method::POST);
}

#[test]
fn first_failing_header_is_reported() {
    let mut r = request("https://example.com/");
    r.headers = vec![
        "Ok: 1".to_string(),
        "Bad".to_string(),
        "AlsoBad".to_string(),
    ];
    match convert_request_to_params(r) {
        Err(InputError::InvalidHeaderFormat(s)) => assert_eq!(s, "Bad"),
        _ => panic!("expected InvalidHeaderFormat of the first failing header"),
    }
}

#[test]
fn header_trims_tabs_and_spaces() {
    let (k, v) = parse_header("\tK : \tV \t").unwrap();
    assert_eq!(k, "K");
    assert_eq!(v, "V");
}

#[test]
fn wrapped_builder_error_message() {
    let e = InputError::NotaryConfig(webproof::errors::NotaryConfigBuilderError::UninitializedField(
        "host".to_string(),
    ));
    assert_eq!(e.message(), "Invalid notary config: uninitialized field: host");
}

#[test]
fn error_message_references_invalid_input() {
    let e = convert_request_to_params(request("not a url")).unwrap_err();
    let m = e.message();
    assert!(m.contains("not a url"));
}
