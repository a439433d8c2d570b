use vstd::prelude::*;
use crate::html::{chars_view, select_elements, page_select, texts_outside, texts_outside_of, tokens_view, TokenV};
use crate::text::{chars_of, collapse, collapse_whitespace, string_of};

verus! {

broadcast use vstd::string::group_string_axioms;

/// Elements whose subtrees hold no readable page text.
pub open spec fn skipped_tags() -> Seq<Seq<char>> {
    seq![
        "script"@,
        "style"@,
        "nav"@,
        "header"@,
        "footer"@,
        "aside"@,
        "noscript"@,
    ]
}

/// Selectors tried in order for the element that holds a page's main content;
/// the last one matches the whole document.
pub open spec fn content_selectors() -> Seq<Seq<char>> {
    seq![
        "main"@,
        "article"@,
        "[role='main']"@,
        ".main-content"@,
        "#main-content"@,
        ".content"@,
        "#content"@,
        "body"@,
        ":root"@,
    ]
}

/// The texts one after another, each followed by a space.
pub open spec fn spaced(texts: Seq<Seq<char>>) -> Seq<char>
    decreases texts.len(),
{
    if texts.len() == 0 {
        Seq::empty()
    } else {
        spaced(texts.drop_last()) + texts.last().push(' ')
    }
}

/// The texts one after another.
pub open spec fn joined(texts: Seq<Seq<char>>) -> Seq<char>
    decreases texts.len(),
{
    if texts.len() == 0 {
        Seq::empty()
    } else {
        joined(texts.drop_last()) + texts.last()
    }
}

/// The walk over the first element matched by the first selector in `sels`
/// that matches anything.
pub open spec fn first_match(html: Seq<char>, sels: Seq<Seq<char>>) -> Option<Seq<TokenV>>
    decreases sels.len(),
{
    if sels.len() == 0 {
        None
    } else if page_select(html, sels[0]).len() > 0 {
        Some(page_select(html, sels[0])[0])
    } else {
        first_match(html, sels.drop_first())
    }
}

/// The text of the document's `<title>`, if it has one.
pub open spec fn title_text(html: Seq<char>) -> Option<Seq<char>> {
    if page_select(html, "title"@).len() > 0 {
        Some(joined(texts_outside(page_select(html, "title"@)[0], Seq::empty())))
    } else {
        None
    }
}

/// The readable text of the main content element, before white space is
/// collapsed.
pub open spec fn main_text(html: Seq<char>) -> Seq<char> {
    match first_match(html, content_selectors()) {
        Some(t) => spaced(texts_outside(t, skipped_tags())),
        None => Seq::empty(),
    }
}

/// A page's readable text: a `# Title` line when the title is not empty,
/// then the main content, with all white space collapsed.
pub open spec fn page_text(html: Seq<char>) -> Seq<char> {
    let head = match title_text(html) {
        Some(t) => if t.len() > 0 {
            "# "@ + t + "\n\n"@
        } else {
            Seq::empty()
        },
        None => Seq::empty(),
    };
    collapse(head + main_text(html))
}

fn append_texts(out: &mut Vec<char>, texts: &Vec<Vec<char>>, sep: bool)
    ensures
        final(out)@ == old(out)@ + if sep {
            spaced(chars_view(texts@))
        } else {
            joined(chars_view(texts@))
        },
{
    let ghost start = out@;
    let ghost tv = chars_view(texts@);
    let mut i: usize = 0;
    while i < texts.len()
        invariant
            i <= texts@.len(),
            tv == chars_view(texts@),
            out@ == start + if sep {
                spaced(tv.take(i as int))
            } else {
                joined(tv.take(i as int))
            },
        decreases texts@.len() - i,
    {
        assert(tv.take(i + 1).drop_last() =~= tv.take(i as int));
        let t = &texts[i];
        let mut j: usize = 0;
        let ghost mid = out@;
        while j < t.len()
            invariant
                j <= t@.len(),
                out@ == mid + t@.take(j as int),
            decreases t@.len() - j,
        {
            out.push(t[j]);
            j += 1;
            assert(out@ =~= mid + t@.take(j as int));
        }
        assert(t@.take(j as int) =~= t@);
        if sep {
            out.push(' ');
        }
        i += 1;
        proof {
            let prev = tv.take(i - 1);
            assert(tv.take(i as int).last() == t@);
            if sep {
                assert(out@ =~= start + (spaced(prev) + t@.push(' ')));
            } else {
                assert(out@ =~= start + (joined(prev) + t@));
            }
        }
    }
    assert(tv.take(i as int) =~= tv);
}

/// Reduces a page to its readable text.
pub struct TextExtractor;

impl TextExtractor {
    pub fn new() -> Self {
        TextExtractor
    }

    /// The page's title line and main content text, white space collapsed.
    pub fn extract_text(&self, html: &str) -> (r: String)
        ensures
            r@ == page_text(html@),
    {
        let mut raw: Vec<char> = Vec::new();
        let title = self.extract_title(html);
        if let Some(t) = title {
            let mut tc = chars_of(t.as_str());
            if tc.len() > 0 {
                raw.push('#');
                raw.push(' ');
                raw.append(&mut tc);
                raw.push('\n');
                raw.push('\n');
                proof {
                    reveal_strlit("# ");
                    reveal_strlit("\n\n");
                }
                assert(raw@ =~= "# "@ + t@ + "\n\n"@);
            }
        }
        let ghost head = raw@;
        self.extract_main_content(html, &mut raw);
        assert(raw@ == head + main_text(html@));
        string_of(collapse_whitespace(raw.as_slice()).as_slice())
    }

    /// The text of the document's `<title>`, if it has one.
    pub fn extract_title(&self, html: &str) -> (r: Option<String>)
        ensures
            r matches Some(t) ==> title_text(html@) == Some(t@),
            r is None ==> title_text(html@) is None,
    {
        let found = select_elements(html, "title");
        if found.len() == 0 {
            return None;
        }
        proof {
            assert(tokens_view(found@[0]@) == page_select(html@, "title"@)[0]);
        }
        let texts = texts_outside_of(&found[0], &Vec::new());
        let ghost empty: Seq<String> = Seq::empty();
        assert(crate::html::strs_view(empty) =~= Seq::<Seq<char>>::empty());
        let mut out: Vec<char> = Vec::new();
        append_texts(&mut out, &texts, false);
        assert(out@ =~= joined(chars_view(texts@)));
        Some(string_of(out.as_slice()))
    }

    /// Appends the readable text of the main content to `out`.
    fn extract_main_content(&self, html: &str, out: &mut Vec<char>)
        ensures
            final(out)@ == old(out)@ + main_text(html@),
    {
        let sels: Vec<&str> = vec![
            "main",
            "article",
            "[role='main']",
            ".main-content",
            "#main-content",
            ".content",
            "#content",
            "body",
            ":root",
        ];
        let skip: Vec<String> = vec![
            "script".to_string(),
            "style".to_string(),
            "nav".to_string(),
            "header".to_string(),
            "footer".to_string(),
            "aside".to_string(),
            "noscript".to_string(),
        ];
        let ghost sv = sels@.map_values(|s: &str| s@);
        assert(sv =~= content_selectors());
        assert(crate::html::strs_view(skip@) =~= skipped_tags());
        let mut i: usize = 0;
        assert(sv.skip(0) =~= sv);
        while i < sels.len()
            invariant
                i <= sels@.len(),
                sv == sels@.map_values(|s: &str| s@),
                first_match(html@, content_selectors()) == first_match(html@, sv.skip(i as int)),
                out@ == old(out)@,
                crate::html::strs_view(skip@) == skipped_tags(),
            decreases sels@.len() - i,
        {
            assert(sv.skip(i as int).drop_first() =~= sv.skip(i + 1));
            assert(sv.skip(i as int)[0] == sels@[i as int]@);
            let found = select_elements(html, sels[i]);
            if found.len() > 0 {
                proof {
                    assert(tokens_view(found@[0]@) == page_select(html@, sels@[i as int]@)[0]);
                    assert(first_match(html@, sv.skip(i as int)) == Some(tokens_view(found@[0]@)));
                }
                let texts = texts_outside_of(&found[0], &skip);
                append_texts(out, &texts, true);
                return;
            }
            i += 1;
        }
        assert(sv.skip(i as int) =~= Seq::<Seq<char>>::empty());
        assert(out@ =~= out@ + Seq::<char>::empty());
    }

    /// Collapses every run of white space to one space and trims both ends.
    pub fn clean_text(&self, text: &str) -> (r: String)
        ensures
            r@ == collapse(text@),
    {
        let v = chars_of(text);
        string_of(collapse_whitespace(v.as_slice()).as_slice())
    }
}

} // verus!
