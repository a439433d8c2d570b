use bbow::error::BrowseError;
use bbow::links::{is_same_page_fragment, LinkExtractor};

fn extract(html: &str) -> Vec<(usize, String, String)> {
    LinkExtractor::new()
        .extract_links(html, "https://example.com/dir/page.html")
        .unwrap()
        .into_iter()
        .map(|l| (l.index, l.url, l.text))
        .collect()
}

#[test]
fn duplicate_urls_listed_once_with_contiguous_ordinals() {
    let html = r#"<html><body>
        <a href="/one">First link</a>
        <a href="https://example.com/one">Same again</a>
        <a href="two">Second link</a>
        <a href="/one#x">Third link</a>
    </body></html>"#;
    let links = extract(html);
    assert_eq!(
        links,
        vec![
            (1, "https://example.com/one".to_string(), "First link".to_string()),
            (2, "https://example.com/dir/two".to_string(), "Second link".to_string()),
            (3, "https://example.com/one#x".to_string(), "Third link".to_string()),
        ]
    );
}

#[test]
fn noise_links_are_excluded() {
    let html = r#"<body>
        <a href="/main">Skip to content</a>
        <a href="/pics/photo.jpg">A nice photo</a>
        <a href="/close">×</a>
        <a href="/story">Real story</a>
    </body>"#;
    let links = extract(html);
    assert_eq!(links.len(), 1);
    assert_eq!(links[0], (1, "https://example.com/story".to_string(), "Real story".to_string()));
}

#[test]
fn non_http_schemes_are_excluded() {
    let html = r#"<body><a href="mailto:me@example.com">Mail me now</a>
        <a href="javascript:void(0)">Run script</a><a href="ftp://example.com/f">Get file</a></body>"#;
    assert!(extract(html).is_empty());
}

#[test]
fn text_falls_back_to_title_and_image_alt() {
    let html = r#"<body>
        <a href="/t" title="  Titled target "><span> </span></a>
        <a href="/i"><img src="x.png" alt="Company logo"></a>
        <a href="/n"><img src="y.png"></a>
    </body>"#;
    let links = extract(html);
    assert_eq!(
        links,
        vec![
            (1, "https://example.com/t".to_string(), "Titled target".to_string()),
            (2, "https://example.com/i".to_string(), "[Image: Company logo]".to_string()),
        ]
    );
}

#[test]
fn link_text_is_cut_and_lines_joined() {
    let long = "word ".repeat(30);
    let html = format!(
        "<body><a href=\"/l\">{}</a><a href=\"/m\">Line one\n   line two</a></body>",
        long
    );
    let links = extract(&html);
    assert_eq!(links.len(), 2);
    assert_eq!(links[0].2.chars().count(), 99);
    assert_eq!(links[1].2, "Line one line two");
}

#[test]
fn invalid_base_url_is_an_error() {
    let r = LinkExtractor::new().extract_links("<a href='/x'>Some link</a>", "not a url");
    assert!(matches!(r, Err(BrowseError::UrlSyntax(_))));
}

#[test]
fn noise_url_patterns() {
    let x = LinkExtractor::new();
    assert!(x.is_noise_url("https://example.com/photo.jpg"));
    assert!(x.is_noise_url("data:text/plain,hi"));
    assert!(x.is_noise_url("javascript:void(0)"));
    assert!(!x.is_noise_url("https://example.com/#top"));
    assert!(!x.is_noise_url("https://example.com/photo.jpg.html"));
}

#[test]
fn noise_phrases_and_links() {
    let x = LinkExtractor::new();
    assert!(x.contains_noise_pattern("skip to content"));
    assert!(x.contains_noise_pattern("\u{d7}"));
    assert!(!x.contains_noise_pattern("weather today"));
    assert!(x.is_noise_link("Skip to content", "https://example.com/main"));
    assert!(x.is_noise_link("x", "https://example.com/a"));
    assert!(x.is_noise_link("<no-text>", "https://example.com/a"));
    assert!(x.is_noise_link("Nice photo", "https://example.com/Photo.JPG"));
    assert!(!x.is_noise_link("Weather today", "https://example.com/w"));
    assert!(x.is_noise_link("A long headline about privacy policy changes", "https://example.com/p"));
}

#[test]
fn clean_link_text_joins_lines() {
    let x = LinkExtractor::new();
    assert_eq!(x.clean_link_text("  a\n\n  b \r\n c  "), "a b c");
    assert_eq!(x.clean_link_text(&"z".repeat(150)).len(), 100);
}

#[test]
fn same_page_fragments_are_excluded() {
    assert!(is_same_page_fragment("#top"));
    assert!(is_same_page_fragment("  #"));
    assert!(!is_same_page_fragment("/page#top"));
    let r = LinkExtractor::new().extract_links(
        "<html><body><a href='#top'>Back to top</a></body></html>",
        "https://example.com/page",
    );
    assert!(r.unwrap().is_empty());
}

#[test]
fn noise_phrase_counts_at_any_length() {
    let r = LinkExtractor::new().extract_links(
        "<html><body><a href='/s'>Share this article with your friends</a></body></html>",
        "https://example.com/",
    );
    assert!(r.unwrap().is_empty());
}

#[test]
fn two_character_image_alt_is_enough() {
    let links = extract(r#"<body><a href="/i"><img src="x.png" alt="Go"></a></body>"#);
    assert_eq!(links, vec![(1, "https://example.com/i".to_string(), "[Image: Go]".to_string())]);
}
