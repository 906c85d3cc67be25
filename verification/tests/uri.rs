use wedge::uri::{is_http_url, parse_ms_edge_url};

#[test]
fn test_is_http_url() {
    assert!(is_http_url("http://example.com"));
    assert!(is_http_url(
        "https://some.example.org/path/sub/file.png?a=abc&x=%3F%3C%3E%3A%2F%5C"
    ));
    assert!(!is_http_url(r""));
    assert!(!is_http_url(r"file:///some.html"));
    assert!(!is_http_url(r"C:\Windows\system32\notepad.exe"));
}

#[test]
fn test_invalid_ms_uri() {
    assert_eq!(None, parse_ms_edge_url(""));
    assert_eq!(None, parse_ms_edge_url("http://example.com"));
    assert_eq!(None, parse_ms_edge_url("abcdefg"));
    assert_eq!(None, parse_ms_edge_url("abcdefghijklmnohttp://example.com"));
    assert_eq!(None, parse_ms_edge_url("microsoft-edge:"));
    assert_eq!(None, parse_ms_edge_url("microsoft-edge:     "));
}

#[test]
fn test_ms_uri_normal_schema() {
    assert_eq!(None, parse_ms_edge_url("microsoft-edge:?invalid_url"));
    assert_eq!(
        None,
        parse_ms_edge_url("microsoft-edge:?a=1&url=invalid_url&b=2")
    );
    assert_eq!(
        None,
        parse_ms_edge_url("microsoft-edge:? a=1&url=http%3A%2F%2Fexample.com&b=2")
    );
    assert_eq!(
        Some(String::from("http://example.com")),
        parse_ms_edge_url("microsoft-edge:http://example.com")
    );
    assert_eq!(
        Some(String::from("https://some.example.org/path/sub/file.png?a=abc&x=%3F%3C%3E%3A%2F%5C")),
        parse_ms_edge_url("microsoft-edge:https://some.example.org/path/sub/file.png?a=abc&x=%3F%3C%3E%3A%2F%5C")
    );
}

#[test]
fn test_ms_uri_alt_schema() {
    assert_eq!(None, parse_ms_edge_url("microsoft-edge:invalid_url"));
    assert_eq!(None, parse_ms_edge_url("microsoft-edge: http://example.com"));
    assert_eq!(
        Some(String::from("http://example.com")),
        parse_ms_edge_url("microsoft-edge:?url=http%3A%2F%2Fexample.com&a=abc&b=2")
    );
    assert_eq!(
        Some(String::from(
            "https://some.example.org/path/sub/file.png?a=abc&x=%3F%3C%3E%3A%2F%5C"
        )),
        parse_ms_edge_url(
            "microsoft-edge:?a=test&url=https%3A%2F%2Fsome.example.org%2Fpath%2Fsub%2Ffile.\
             png%3Fa%3Dabc%26x%3D%253F%253C%253E%253A%252F%255C&b=2"
        )
    );
}

#[test]
fn test_vulnerabilities() {
    // Protect against arbitrary code execution vulnerabilities
    assert_eq!(None, parse_ms_edge_url("microsoft-edge:file:///some.html"));
    assert_eq!(None, parse_ms_edge_url("microsoft-edge:calc.exe"));
    assert_eq!(
        None,
        parse_ms_edge_url(r"microsoft-edge:C:\Windows\system32\notepad.exe")
    );
}

#[test]
fn test_uri_query_form_needs_url_key() {
    assert_eq!(None, parse_ms_edge_url("microsoft-edge:?a=1&b=2"));
    assert_eq!(
        None,
        parse_ms_edge_url("microsoft-edge:?a=1&link=http%3A%2F%2Fexample.com")
    );
}

#[test]
fn test_uri_query_form_first_url_key_wins() {
    assert_eq!(
        Some(String::from("http://a.example.com")),
        parse_ms_edge_url(
            "microsoft-edge:?url=http%3A%2F%2Fa.example.com&url=http%3A%2F%2Fb.example.com"
        )
    );
}

#[test]
fn test_uri_scheme_is_lowercased_before_matching() {
    // The URL parser lower-cases schemes, so an upper-case prefix on the
    // payload still passes the allow-list.
    assert_eq!(
        Some(String::from("HTTP://example.com")),
        parse_ms_edge_url("microsoft-edge:HTTP://example.com")
    );
}

#[test]
fn test_uri_space_anywhere_rejects() {
    assert_eq!(None, parse_ms_edge_url("microsoft-edge:http://example.com/a b"));
    assert_eq!(None, parse_ms_edge_url(" microsoft-edge:http://example.com"));
}
