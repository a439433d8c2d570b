use bbow::extractor::TextExtractor;

#[test]
fn empty_input_gives_empty_text() {
    assert_eq!(TextExtractor::new().extract_text(""), "");
}

#[test]
fn title_heading_and_main_content() {
    let html = r#"<html><head><title>My  Page</title><style>p { color: red }</style></head>
        <body><nav>Menu items</nav><main><h1>Hello</h1>
        <p>Some	text
        here</p><script>var x = 1;</script><footer>foot</footer></main>
        <p>outside main</p></body></html>"#;
    assert_eq!(TextExtractor::new().extract_text(html), "# My Page Hello Some text here");
}

#[test]
fn body_used_without_main_element() {
    let html = "<html><body><header>Top</header><div>Alpha</div><div>Beta</div></body></html>";
    assert_eq!(TextExtractor::new().extract_text(html), "Alpha Beta");
}

#[test]
fn clean_text_collapses_whitespace() {
    assert_eq!(TextExtractor::new().clean_text("  a\t b\n\n  c  "), "a b c");
}
