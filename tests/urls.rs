use bbow::error::BrowseError;
use bbow::urls::{
    filter_suggestions, generate_fallback_suggestions, is_valid_url, is_valid_url_format,
    normalize_url,
};

#[test]
fn normalize_adds_scheme_and_canonicalises() {
    assert_eq!(normalize_url("example.com").unwrap(), "https://example.com/");
    assert_eq!(normalize_url("  http://Example.com/a ").unwrap(), "http://example.com/a");
}

#[test]
fn normalize_rejects_non_urls() {
    assert!(matches!(normalize_url("not a url"), Err(BrowseError::UrlSyntax(_))));
}

#[test]
fn fallback_for_bare_word() {
    let s = generate_fallback_suggestions("wired");
    assert!(s.contains(&"https://www.wired.com".to_string()));
    assert!(s.contains(&"https://wired.com".to_string()));
    assert_eq!(s.len(), 5);
    assert_eq!(s[0], "https://www.wired.com");
}

#[test]
fn fallback_for_url_adds_www() {
    let s = generate_fallback_suggestions("http://bad.invalid");
    assert_eq!(s, vec!["http://www.bad.invalid/".to_string()]);
}

#[test]
fn fallback_for_dotted_input_tries_prefixes() {
    let s = generate_fallback_suggestions("example.org");
    assert_eq!(
        s,
        vec![
            "https://www.example.org",
            "https://example.org",
            "http://www.example.org",
            "http://example.org",
        ]
    );
}

#[test]
fn url_format_needs_dotted_host() {
    assert!(is_valid_url_format("https://example.com"));
    assert!(!is_valid_url_format("https://localhost"));
    assert!(!is_valid_url_format("nonsense"));
    assert!(is_valid_url("http://a.io"));
    assert!(!is_valid_url("ftp://a.io"));
}

#[test]
fn suggestions_filtered_and_capped() {
    let input: Vec<String> = vec![
        "https://a.com", "bogus", "https://b.com", "ftp://c.com", "https://d.com",
        "https://e.com", "https://f.com", "https://g.com",
    ]
    .into_iter()
    .map(String::from)
    .collect();
    assert_eq!(
        filter_suggestions(input),
        vec!["https://a.com", "https://b.com", "https://d.com", "https://e.com", "https://f.com"]
    );
}
