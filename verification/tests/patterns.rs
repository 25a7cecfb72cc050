use restrictions::default_host;
use restrictions::pattern::{host_matches, is_valid_pattern, match_begins_text, path_prefix_matches};

#[test]
fn default_host_pattern_matches_hosts() {
    let pattern = default_host();
    assert_eq!(pattern, "^.*$");
    assert!(host_matches(&pattern, "example.com"));
    assert!(host_matches(&pattern, "10.1.2.3"));
    assert!(host_matches(&pattern, ""));
}

#[test]
fn default_host_pattern_stops_at_a_line_break() {
    assert!(!host_matches(&default_host(), "a\nb"));
}

#[test]
fn host_pattern_matches_anywhere_in_the_host() {
    assert!(host_matches("example", "www.example.com"));
    assert!(host_matches(r"\.example\.com$", "www.example.com"));
    assert!(!host_matches(r"^example\.com$", "www.example.com"));
    assert!(!host_matches("Example", "www.example.com"));
}

#[test]
fn path_pattern_has_to_match_at_the_start() {
    assert!(path_prefix_matches("/api", "/api/v1"));
    assert!(path_prefix_matches("/api", "/api"));
    assert!(!path_prefix_matches("/api", "/v2/api"));
    assert!(!path_prefix_matches("/api", "/ap"));
    assert!(path_prefix_matches("/v[0-9]+/", "/v12/events"));
    assert!(path_prefix_matches("", "/anything"));
    assert!(path_prefix_matches("^/api", "/api/v1"));
}

#[test]
fn pattern_that_does_not_compile_matches_nothing() {
    assert!(!is_valid_pattern("(unclosed"));
    assert!(!host_matches("(unclosed", "(unclosed"));
    assert!(!path_prefix_matches("(unclosed", "(unclosed"));
    assert!(is_valid_pattern("^.*$"));
    assert!(is_valid_pattern(""));
}

#[test]
fn match_begins_text_only_at_offset_zero() {
    assert!(match_begins_text(Some(0)));
    assert!(!match_begins_text(Some(1)));
    assert!(!match_begins_text(None));
}
