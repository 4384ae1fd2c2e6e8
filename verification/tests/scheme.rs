use pageinfo::scheme::handle_scheme;

#[test]
fn handle_scheme_no_scheme() {
    let url = "example.com".to_string();
    let result = handle_scheme(&url);
    assert_eq!(result, "https://example.com");
}

#[test]
fn handle_scheme_http() {
    let url = "http://example.com".to_string();
    let result = handle_scheme(&url);
    assert_eq!(result, url);
}

#[test]
fn handle_scheme_https() {
    let url = "https://example.com".to_string();
    let result = handle_scheme(&url);
    assert_eq!(result, url);
}

#[test]
fn handle_scheme_twice_is_same() {
    let url = "example.com".to_string();
    let once = handle_scheme(&url);
    let twice = handle_scheme(&once);
    assert_eq!(once, twice);
}

#[test]
fn handle_scheme_empty_input() {
    let url = String::new();
    assert_eq!(handle_scheme(&url), "https://");
}

#[test]
fn handle_scheme_partial_scheme_is_prefixed() {
    let url = "http:/example.com".to_string();
    assert_eq!(handle_scheme(&url), "https://http:/example.com");
}
