use pageinfo::metadata::metadata_options;
use pageinfo::scheme::target_host;
use pageinfo::session::context_settings;

#[test]
fn target_host_of_schemed_urls() {
    assert_eq!(target_host(&"https://example.com/path".to_string()), "example.com");
    assert_eq!(target_host(&"https://example.com".to_string()), "example.com");
    assert_eq!(target_host(&"http://example.com:8080/x".to_string()), "example.com");
}

#[test]
fn target_host_without_scheme() {
    assert_eq!(target_host(&"example.com/about".to_string()), "example.com");
    assert_eq!(target_host(&"sub.example.com?q=1".to_string()), "sub.example.com");
}

#[test]
fn target_host_of_empty_input() {
    assert_eq!(target_host(&String::new()), "");
}

#[test]
fn context_is_permissive_and_english_preferring() {
    let ua = "agent/1.0".to_string();
    let s = context_settings(&ua);
    assert_eq!(s.user_agent, "agent/1.0");
    assert!(s.javascript_enabled);
    assert!(s.ignore_https_errors);
    assert_eq!(s.accept_language, "en-US,en;q=0.9");
}

#[test]
fn metadata_fetch_is_bounded() {
    let ua = "agent/1.0".to_string();
    let o = metadata_options(&ua);
    assert!(o.allow_insecure);
    assert!(o.follow_location);
    assert_eq!(o.max_redirections, 3);
    assert_eq!(o.timeout_secs, 10);
    assert_eq!(o.useragent, "agent/1.0");
}
