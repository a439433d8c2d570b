use bbow::markdown::{
    element_text, parse_inline_elements, parse_markdown_line_structure,
    parse_markdown_to_structured, LineType, MarkdownElement,
};
use bbow::urls::suggestions_from_reply;

fn texts(es: &[MarkdownElement]) -> Vec<String> {
    es.iter()
        .map(|e| {
            let kind = match e {
                MarkdownElement::Bold(_) => "B",
                MarkdownElement::Italic(_) => "I",
                MarkdownElement::Code(_) => "C",
                MarkdownElement::Normal(_) => "N",
                MarkdownElement::Empty => "E",
                _ => "H",
            };
            format!("{}:{}", kind, element_text(e))
        })
        .collect()
}

#[test]
fn line_structure_recognises_markers() {
    let (p, t, lt) = parse_markdown_line_structure("## Section");
    assert_eq!((p.as_str(), t.as_str(), lt), ("", "Section", LineType::Header2));
    let (p, t, lt) = parse_markdown_line_structure("* item");
    assert_eq!((p.as_str(), t.as_str(), lt), ("\u{2022} ", "item", LineType::Bullet));
    let (p, t, lt) = parse_markdown_line_structure("#nospace");
    assert_eq!((p.as_str(), t.as_str(), lt), ("", "#nospace", LineType::Normal));
}

#[test]
fn inline_emphasis_runs() {
    let es = parse_inline_elements("a **b** *c* `d` e");
    assert_eq!(texts(&es), vec!["N:a ", "B:b", "N: ", "I:c", "N: ", "C:d", "N: e"]);
    assert_eq!(texts(&parse_inline_elements("x **open")), vec!["N:x ", "B:open"]);
    assert_eq!(texts(&parse_inline_elements("")), vec!["N:"]);
    assert_eq!(texts(&parse_inline_elements("end*")), vec!["N:end", "I:"]);
}

#[test]
fn structured_lines_wrap_long_bullets() {
    let lines = parse_markdown_to_structured("# Title\n\n- one two three four five six", 12);
    assert_eq!(lines.len(), 5);
    assert_eq!(lines[0].line_type, LineType::Header1);
    assert_eq!(texts(&lines[0].elements), vec!["N:Title"]);
    assert_eq!(texts(&lines[1].elements), vec!["E:"]);
    assert_eq!(lines[2].prefix, "\u{2022} ");
    assert_eq!(lines[3].prefix, "  ");
    assert_eq!(lines[2].line_type, LineType::Bullet);
    let wrapped: Vec<String> = lines[2..].iter().map(|l| texts(&l.elements)[0].clone()).collect();
    assert_eq!(wrapped, vec!["N:one two", "N:three four", "N:five six"]);
}

#[test]
fn suggestion_reply_parsing() {
    let r = suggestions_from_reply(r#"["https://www.wired.com", "nope", "http://wired.co.uk"]"#);
    assert_eq!(r.unwrap(), vec!["https://www.wired.com", "http://wired.co.uk"]);
    assert!(suggestions_from_reply("not json").is_err());
}
