use vstd::prelude::*;
use crate::error::BrowseError;
use crate::html::{
    ALT, ARIA_LABEL, HREF, TITLE,
    attr_at, attr_value, chars_view, opt_view, page_select, select_elements, texts_outside,
    texts_outside_of, tokens_view, NodeKind, NodeKindV, Token, TokenV,
};
use crate::text::{
    chars_of, contains, ends_with, eq_str, has_infix, has_prefix, has_suffix,
    lower_of, starts_with, string_of, to_lower, trim, trim_chars,
};
use crate::urls::{join_url, parse_url, joined_url_of, parsed_url_of};

verus! {

broadcast use vstd::string::group_string_axioms;

/// Longest resolved URL a link may have.
pub const MAX_URL_LENGTH: usize = 200;

/// Longest link text kept, in characters.
pub const MAX_LINK_TEXT_LENGTH: usize = 100;

/// An outbound link of a page, numbered from 1 in document order.
#[derive(Debug, Clone)]
pub struct Link {
    pub text: String,
    pub url: String,
    pub index: usize,
}

/// Finds the readable outbound links of a page.
pub struct LinkExtractor;

/// Elements whose content does not count as link text.
pub open spec fn link_text_skipped() -> Seq<Seq<char>> {
    seq!["img"@, "source"@, "video"@, "audio"@, "script"@, "style"@]
}

/// The text given to a link that has none.
pub open spec fn no_text() -> Seq<char> {
    "<no-text>"@
}

pub open spec fn image_extensions() -> Seq<Seq<char>> {
    seq![".jpg"@, ".jpeg"@, ".png"@, ".gif"@, ".svg"@, ".webp"@, ".bmp"@, ".ico"@]
}

/// Phrases of navigation, legal and social boilerplate.
pub open spec fn noise_phrases() -> Seq<Seq<char>> {
    seq![
        "skip to"@,
        "skip navigation"@,
        "accessibility"@,
        "terms of service"@,
        "privacy policy"@,
        "cookie policy"@,
        "subscribe"@,
        "newsletter"@,
        "rss"@,
        "atom"@,
        "print"@,
        "share"@,
        "tweet"@,
        "facebook"@,
        "linkedin"@,
        "advertisement"@,
        "sponsored"@,
        "ad"@,
        "ads"@,
        "close"@,
        "\u{d7}"@,
        "\u{2715}"@,
        "menu"@,
        "toggle"@,
    ]
}

/// `out` and `p` joined by one space; an empty side adds nothing.
pub open spec fn add_piece(out: Seq<char>, p: Seq<char>) -> Seq<char> {
    if p.len() == 0 {
        out
    } else if out.len() == 0 {
        p
    } else {
        out.push(' ') + p
    }
}

/// The trimmed texts that are not empty and do not start with `<`, joined by spaces.
pub open spec fn kept_text(parts: Seq<Seq<char>>) -> Seq<char>
    decreases parts.len(),
{
    if parts.len() == 0 {
        Seq::empty()
    } else {
        let prev = kept_text(parts.drop_last());
        let t = trim(parts.last());
        if t.len() > 0 && t[0] != '<' {
            add_piece(prev, t)
        } else {
            prev
        }
    }
}

/// An attribute value, trimmed, where it is not empty and does not start with `<`.
pub open spec fn usable(v: Option<Seq<char>>) -> Option<Seq<char>> {
    match v {
        Some(s) => if trim(s).len() > 0 && trim(s)[0] != '<' {
            Some(trim(s))
        } else {
            None
        },
        None => None,
    }
}

/// The `alt` of the first `img` in a walk, if that image has one.
pub open spec fn first_img_alt(toks: Seq<TokenV>) -> Option<Seq<char>>
    decreases toks.len(),
{
    if toks.len() == 0 {
        None
    } else {
        match toks[0] {
            TokenV::Open(NodeKindV::Element { name, attrs }) => if name == "img"@ {
                attr_at(attrs, ALT as int)
            } else {
                first_img_alt(toks.drop_first())
            },
            _ => first_img_alt(toks.drop_first()),
        }
    }
}

/// The attributes of the element a walk starts at.
pub open spec fn root_attrs(toks: Seq<TokenV>) -> Seq<Option<Seq<char>>> {
    if toks.len() > 0 {
        match toks[0] {
            TokenV::Open(NodeKindV::Element { attrs, .. }) => attrs,
            _ => Seq::empty(),
        }
    } else {
        Seq::empty()
    }
}

/// A link's text: its visible text; else its `title`, else its `aria-label`;
/// else the `alt` of an image inside it; else the no-text marker.
pub open spec fn link_text(toks: Seq<TokenV>) -> Seq<char> {
    let combined = trim(kept_text(texts_outside(toks, link_text_skipped())));
    let title = usable(attr_at(root_attrs(toks), TITLE as int));
    let aria = usable(attr_at(root_attrs(toks), ARIA_LABEL as int));
    if combined.len() > 1 {
        combined
    } else if title is Some {
        title->0
    } else if aria is Some {
        aria->0
    } else if first_img_alt(toks) is Some && trim(first_img_alt(toks)->0).len() >= 2 {
        "[Image: "@ + trim(first_img_alt(toks)->0) + "]"@
    } else {
        no_text()
    }
}

/// A lower-cased URL that points at an image, inline data or a script.
pub open spec fn noise_url(u: Seq<char>) -> bool {
    ||| exists|i: int| 0 <= i < image_extensions().len() && has_suffix(u, image_extensions()[i])
    ||| has_prefix(u, "data:"@)
    ||| has_prefix(u, "javascript:"@)
}

/// An `href` that only names a fragment of the page it stands on.
pub open spec fn same_page_fragment(href: Seq<char>) -> bool {
    has_prefix(trim(href), "#"@)
}

/// Lower-cased text that holds a boilerplate phrase.
pub open spec fn noise_phrase(t: Seq<char>) -> bool {
    exists|i: int| 0 <= i < noise_phrases().len() && has_infix(t, noise_phrases()[i])
}

/// A link not worth listing: no text, markup for text, text shorter than two
/// characters, an image or script URL, or boilerplate text.
pub open spec fn noise_link(text: Seq<char>, url: Seq<char>) -> bool {
    let t = trim(text);
    ||| text == no_text()
    ||| (t.len() > 0 && t[0] == '<')
    ||| t.len() < 2
    ||| noise_url(lower_of(url))
    ||| noise_phrase(lower_of(text))
}

/// The state of cleaning link text: the lines done, joined by spaces, and
/// the line being read.
pub open spec fn clean_state(s: Seq<char>) -> (Seq<char>, Seq<char>)
    decreases s.len(),
{
    if s.len() == 0 {
        (Seq::empty(), Seq::empty())
    } else {
        let (out, cur) = clean_state(s.drop_last());
        if s.last() == '\n' {
            (add_piece(out, trim(cur)), Seq::empty())
        } else {
            (out, cur.push(s.last()))
        }
    }
}

/// Link text as listed: trimmed, cut to its first hundred characters, its
/// lines trimmed and the non-empty ones joined by spaces.
pub open spec fn clean_link(text: Seq<char>) -> Seq<char> {
    let t = trim(text);
    let (out, cur) = clean_state(
        if t.len() <= MAX_LINK_TEXT_LENGTH {
            t
        } else {
            t.take(MAX_LINK_TEXT_LENGTH as int)
        },
    );
    add_piece(out, trim(cur))
}

/// The link an anchor gives, as text and absolute URL, if it is kept.
pub open spec fn anchor_link(toks: Seq<TokenV>, base: Seq<char>) -> Option<(Seq<char>, Seq<char>)> {
    match attr_at(root_attrs(toks), HREF as int) {
        Some(h) => if same_page_fragment(h) {
            None
        } else {
            match joined_url_of(base, h) {
            Some(u) => if (u.scheme == "http"@ || u.scheme == "https"@) && u.href.len()
                <= MAX_URL_LENGTH && !noise_link(link_text(toks), u.href) {
                Some((clean_link(link_text(toks)), u.href))
            } else {
                None
            },
            None => None,
            }
        },
        None => None,
    }
}

/// The kept links of the anchors, in order, each URL once (its first occurrence).
pub open spec fn links_from(anchors: Seq<Seq<TokenV>>, base: Seq<char>) -> Seq<(Seq<char>, Seq<char>)>
    decreases anchors.len(),
{
    if anchors.len() == 0 {
        Seq::empty()
    } else {
        let prev = links_from(anchors.drop_last(), base);
        match anchor_link(anchors.last(), base) {
            Some(l) => if exists|i: int| 0 <= i < prev.len() && prev[i].1 == l.1 {
                prev
            } else {
                prev.push(l)
            },
            None => prev,
        }
    }
}

/// The links of the page `html` whose address is `base`.
pub open spec fn page_links(html: Seq<char>, base: Seq<char>) -> Seq<(Seq<char>, Seq<char>)> {
    links_from(page_select(html, "a[href]"@), base)
}

/// `links` lists `expected` in order, numbered from 1.
pub open spec fn lists(links: Seq<Link>, expected: Seq<(Seq<char>, Seq<char>)>) -> bool {
    &&& links.len() == expected.len()
    &&& forall|i: int|
        0 <= i < links.len() ==> {
            &&& (#[trigger] links[i]).text@ == expected[i].0
            &&& links[i].url@ == expected[i].1
            &&& links[i].index == i + 1
        }
}

fn push_piece(out: &mut Vec<char>, p: &Vec<char>)
    ensures
        final(out)@ == add_piece(old(out)@, p@),
{
    if p.len() == 0 {
        return;
    }
    if out.len() > 0 {
        out.push(' ');
    }
    let ghost mid = out@;
    let mut j: usize = 0;
    while j < p.len()
        invariant
            j <= p@.len(),
            out@ == mid + p@.take(j as int),
        decreases p@.len() - j,
    {
        out.push(p[j]);
        j += 1;
        assert(out@ =~= mid + p@.take(j as int));
    }
    assert(p@.take(j as int) =~= p@);
    proof {
        if old(out)@.len() == 0 {
            assert(out@ =~= p@);
        }
    }
}

fn kept_text_of(parts: &Vec<Vec<char>>) -> (r: Vec<char>)
    ensures
        r@ == kept_text(chars_view(parts@)),
{
    let ghost pv = chars_view(parts@);
    let mut out: Vec<char> = Vec::new();
    let mut i: usize = 0;
    while i < parts.len()
        invariant
            i <= parts@.len(),
            pv == chars_view(parts@),
            out@ == kept_text(pv.take(i as int)),
        decreases parts@.len() - i,
    {
        assert(pv.take(i + 1).drop_last() =~= pv.take(i as int));
        assert(pv.take(i + 1).last() == parts@[i as int]@);
        let t = trim_chars(parts[i].as_slice());
        if t.len() > 0 && t[0] != '<' {
            push_piece(&mut out, &t);
        }
        i += 1;
    }
    assert(pv.take(i as int) =~= pv);
    out
}

fn usable_of(v: Option<String>) -> (r: Option<Vec<char>>)
    ensures
        match r {
            Some(x) => usable(match v {
                Some(s) => Some(s@),
                None => None,
            }) == Some(x@),
            None => usable(match v {
                Some(s) => Some(s@),
                None => None,
            }) is None,
        },
{
    match v {
        Some(s) => {
            let t = trim_chars(chars_of(s.as_str()).as_slice());
            if t.len() > 0 && t[0] != '<' {
                Some(t)
            } else {
                None
            }
        },
        None => None,
    }
}

/// Whether an `href` only names a fragment of the page it stands on.
pub fn is_same_page_fragment(href: &str) -> (r: bool)
    ensures
        r == same_page_fragment(href@),
{
    let t = trim_chars(chars_of(href).as_slice());
    starts_with(t.as_slice(), chars_of("#").as_slice())
}

fn root_attr(toks: &Vec<Token>, i: usize) -> (r: Option<String>)
    ensures
        opt_view(r) == attr_at(root_attrs(tokens_view(toks@)), i as int),
{
    if toks.len() == 0 {
        return None;
    }
    match &toks[0] {
        Token::Open(NodeKind::Element { attrs, .. }) => attr_value(attrs, i),
        _ => None,
    }
}

fn first_img_alt_of(toks: &Vec<Token>) -> (r: Option<String>)
    ensures
        opt_view(r) == first_img_alt(tokens_view(toks@)),
{
    let ghost tv = tokens_view(toks@);
    let mut i: usize = 0;
    assert(tv.skip(0) =~= tv);
    while i < toks.len()
        invariant
            i <= toks@.len(),
            tv == tokens_view(toks@),
            first_img_alt(tv) == first_img_alt(tv.skip(i as int)),
        decreases toks@.len() - i,
    {
        assert(tv.skip(i as int).drop_first() =~= tv.skip(i + 1));
        assert(tv.skip(i as int)[0] == toks@[i as int]@);
        if let Token::Open(NodeKind::Element { name, attrs }) = &toks[i] {
            if eq_str(name.as_str(), "img") {
                return attr_value(attrs, ALT);
            }
        }
        i += 1;
    }
    assert(tv.skip(i as int) =~= Seq::<TokenV>::empty());
    None
}

fn matches_any_suffix(s: &[char], pats: &Vec<&str>) -> (r: bool)
    ensures
        r == exists|i: int| 0 <= i < pats@.len() && has_suffix(s@, pats@[i]@),
{
    let mut i: usize = 0;
    while i < pats.len()
        invariant
            i <= pats@.len(),
            forall|k: int| 0 <= k < i ==> !has_suffix(s@, pats@[k]@),
        decreases pats@.len() - i,
    {
        if ends_with(s, chars_of(pats[i]).as_slice()) {
            return true;
        }
        i += 1;
    }
    false
}

fn matches_any_infix(s: &[char], pats: &Vec<&str>) -> (r: bool)
    ensures
        r == exists|i: int| 0 <= i < pats@.len() && has_infix(s@, pats@[i]@),
{
    let mut i: usize = 0;
    while i < pats.len()
        invariant
            i <= pats@.len(),
            forall|k: int| 0 <= k < i ==> !has_infix(s@, pats@[k]@),
        decreases pats@.len() - i,
    {
        if contains(s, chars_of(pats[i]).as_slice()) {
            return true;
        }
        i += 1;
    }
    false
}

fn has_url(links: &Vec<Link>, url: &String) -> (r: bool)
    ensures
        r == exists|i: int| 0 <= i < links@.len() && links@[i].url@ == url@,
{
    let mut i: usize = 0;
    while i < links.len()
        invariant
            i <= links@.len(),
            forall|k: int| 0 <= k < i ==> links@[k].url@ != url@,
        decreases links@.len() - i,
    {
        if eq_str(links[i].url.as_str(), url.as_str()) {
            return true;
        }
        i += 1;
    }
    false
}

impl LinkExtractor {
    pub fn new() -> Self {
        LinkExtractor
    }

    /// The text of the anchor whose walk is `toks`.
    fn extract_link_text(&self, toks: &Vec<Token>) -> (r: Vec<char>)
        ensures
            r@ == link_text(tokens_view(toks@)),
    {
        let skip: Vec<String> = vec![
            "img".to_string(),
            "source".to_string(),
            "video".to_string(),
            "audio".to_string(),
            "script".to_string(),
            "style".to_string(),
        ];
        assert(crate::html::strs_view(skip@) =~= link_text_skipped());
        let parts = texts_outside_of(toks, &skip);
        let combined = trim_chars(kept_text_of(&parts).as_slice());
        if combined.len() > 1 {
            return combined;
        }
        if let Some(t) = usable_of(root_attr(toks, TITLE)) {
            return t;
        }
        if let Some(t) = usable_of(root_attr(toks, ARIA_LABEL)) {
            return t;
        }
        if let Some(alt) = first_img_alt_of(toks) {
            let a = trim_chars(chars_of(alt.as_str()).as_slice());
            if a.len() >= 2 {
                let mut out = chars_of("[Image: ");
                let mut a2 = a;
                out.append(&mut a2);
                out.push(']');
                proof {
                    reveal_strlit("]");
                }
                assert(out@ =~= "[Image: "@ + a@ + "]"@);
                return out;
            }
        }
        chars_of("<no-text>")
    }

    /// Whether a lower-cased URL points at an image, inline data, a script,
    /// or a fragment of the same page.
    pub fn is_noise_url(&self, url_lower: &str) -> (r: bool)
        ensures
            r == noise_url(url_lower@),
    {
        let u = chars_of(url_lower);
        let exts: Vec<&str> = vec![".jpg", ".jpeg", ".png", ".gif", ".svg", ".webp", ".bmp", ".ico"];
        assert(exts@.map_values(|s: &str| s@) =~= image_extensions());
        let img = matches_any_suffix(u.as_slice(), &exts);
        assert(img == exists|i: int| 0 <= i < image_extensions().len() && has_suffix(u@, image_extensions()[i])) by {
            if img {
                let i = choose|i: int| 0 <= i < exts@.len() && has_suffix(u@, exts@[i]@);
                assert(image_extensions()[i] == exts@[i]@);
            }
            if exists|i: int| 0 <= i < image_extensions().len() && has_suffix(u@, image_extensions()[i]) {
                let i = choose|i: int| 0 <= i < image_extensions().len() && has_suffix(u@, image_extensions()[i]);
                assert(image_extensions()[i] == exts@[i]@);
            }
        }
        img || starts_with(u.as_slice(), chars_of("data:").as_slice()) || starts_with(
            u.as_slice(),
            chars_of("javascript:").as_slice(),
        )
    }

    /// Whether lower-cased text holds a boilerplate phrase.
    pub fn contains_noise_pattern(&self, text_lower: &str) -> (r: bool)
        ensures
            r == noise_phrase(text_lower@),
    {
        let t = chars_of(text_lower);
        let pats: Vec<&str> = vec![
            "skip to",
            "skip navigation",
            "accessibility",
            "terms of service",
            "privacy policy",
            "cookie policy",
            "subscribe",
            "newsletter",
            "rss",
            "atom",
            "print",
            "share",
            "tweet",
            "facebook",
            "linkedin",
            "advertisement",
            "sponsored",
            "ad",
            "ads",
            "close",
            "\u{d7}",
            "\u{2715}",
            "menu",
            "toggle",
        ];
        assert(pats@.map_values(|s: &str| s@) =~= noise_phrases());
        let r = matches_any_infix(t.as_slice(), &pats);
        assert(r == noise_phrase(t@)) by {
            if r {
                let i = choose|i: int| 0 <= i < pats@.len() && has_infix(t@, pats@[i]@);
                assert(noise_phrases()[i] == pats@[i]@);
            }
            if noise_phrase(t@) {
                let i = choose|i: int| 0 <= i < noise_phrases().len() && has_infix(t@, noise_phrases()[i]);
                assert(noise_phrases()[i] == pats@[i]@);
            }
        }
        r
    }

    /// Whether a link with this text and URL is noise.
    pub fn is_noise_link(&self, text: &str, url: &str) -> (r: bool)
        ensures
            r == noise_link(text@, url@),
    {
        let tc = chars_of(text);
        let t = trim_chars(tc.as_slice());
        if eq_str(text, "<no-text>") || (t.len() > 0 && t[0] == '<') || t.len() < 2 {
            return true;
        }
        if self.is_noise_url(to_lower(url).as_str()) {
            return true;
        }
        self.contains_noise_pattern(to_lower(text).as_str())
    }

    /// Link text as listed: trimmed, cut to its first hundred characters, its
    /// lines trimmed and the non-empty ones joined by spaces.
    pub fn clean_link_text(&self, text: &str) -> (r: String)
        ensures
            r@ == clean_link(text@),
    {
        let all = trim_chars(chars_of(text).as_slice());
        let n = if all.len() < MAX_LINK_TEXT_LENGTH {
            all.len()
        } else {
            MAX_LINK_TEXT_LENGTH
        };
        let s = crate::text::slice_chars(all.as_slice(), 0, n);
        assert(s@ =~= if all@.len() <= MAX_LINK_TEXT_LENGTH {
            all@
        } else {
            all@.take(MAX_LINK_TEXT_LENGTH as int)
        });
        let mut out: Vec<char> = Vec::new();
        let mut cur: Vec<char> = Vec::new();
        let mut i: usize = 0;
        while i < s.len()
            invariant
                i <= s@.len(),
                (out@, cur@) == clean_state(s@.take(i as int)),
            decreases s@.len() - i,
        {
            assert(s@.take(i + 1).drop_last() =~= s@.take(i as int));
            if s[i] == '\n' {
                push_piece(&mut out, &trim_chars(cur.as_slice()));
                cur = Vec::new();
            } else {
                cur.push(s[i]);
            }
            i += 1;
        }
        assert(s@.take(i as int) =~= s@);
        push_piece(&mut out, &trim_chars(cur.as_slice()));
        string_of(out.as_slice())
    }

    /// The readable outbound links of the page `html` at `base_url`, each
    /// absolute URL once, numbered from 1; an error where `base_url` is not
    /// a URL.
    pub fn extract_links(&self, html: &str, base_url: &str) -> (r: Result<Vec<Link>, BrowseError>)
        ensures
            r is Err <==> parsed_url_of(base_url@) is None,
            r matches Ok(links) ==> lists(links@, page_links(html@, base_url@)),
    {
        if parse_url(base_url).is_none() {
            return Err(BrowseError::UrlSyntax(base_url.to_string()));
        }
        let anchors = select_elements(html, "a[href]");
        let ghost av = anchors@.map_values(|t: Vec<Token>| tokens_view(t@));
        let mut links: Vec<Link> = Vec::new();
        let mut i: usize = 0;
        while i < anchors.len()
            invariant
                i <= anchors@.len(),
                av == anchors@.map_values(|t: Vec<Token>| tokens_view(t@)),
                av == page_select(html@, "a[href]"@),
                lists(links@, links_from(av.take(i as int), base_url@)),
                links@.len() <= i,
            decreases anchors@.len() - i,
        {
            assert(av.take(i + 1).drop_last() =~= av.take(i as int));
            assert(av.take(i + 1).last() == tokens_view(anchors@[i as int]@));
            let toks = &anchors[i];
            let ghost prev = links_from(av.take(i as int), base_url@);
            if let Some(href) = root_attr(toks, HREF) {
                let joined = if is_same_page_fragment(href.as_str()) {
                    None
                } else {
                    join_url(base_url, href.as_str())
                };
                if let Some(u) = joined {
                    if (eq_str(u.scheme.as_str(), "http") || eq_str(u.scheme.as_str(), "https"))
                        && chars_of(u.href.as_str()).len() <= MAX_URL_LENGTH {
                        let text = string_of(self.extract_link_text(toks).as_slice());
                        if !self.is_noise_link(text.as_str(), u.href.as_str()) {
                            if !has_url(&links, &u.href) {
                                let cleaned = self.clean_link_text(text.as_str());
                                let ghost before = links@;
                                links.push(Link { text: cleaned, url: u.href, index: i_next(&links) });
                                assert(!(exists|k: int| 0 <= k < prev.len() && prev[k].1 == u.href@)) by {
                                    if exists|k: int| 0 <= k < prev.len() && prev[k].1 == u.href@ {
                                        let k = choose|k: int| 0 <= k < prev.len() && prev[k].1 == u.href@;
                                        assert(before[k].url@ == u.href@);
                                    }
                                }
                            } else {
                                assert(exists|k: int| 0 <= k < prev.len() && prev[k].1 == u.href@) by {
                                    let k = choose|k: int| 0 <= k < links@.len() && links@[k].url@ == u.href@;
                                    assert(prev[k].1 == u.href@);
                                }
                            }
                        }
                    }
                }
            }
            i += 1;
        }
        assert(av.take(i as int) =~= av);
        Ok(links)
    }
}

/// No absolute URL is listed twice among the links of any run of anchors.
pub proof fn lemma_links_from_distinct(anchors: Seq<Seq<TokenV>>, base: Seq<char>)
    ensures
        forall|i: int, j: int|
            0 <= i < j < links_from(anchors, base).len() ==> links_from(anchors, base)[i].1
                != links_from(anchors, base)[j].1,
    decreases anchors.len(),
{
    if anchors.len() > 0 {
        lemma_links_from_distinct(anchors.drop_last(), base);
        let prev = links_from(anchors.drop_last(), base);
        let cur = links_from(anchors, base);
        if let Some(l) = anchor_link(anchors.last(), base) {
            if !(exists|i: int| 0 <= i < prev.len() && prev[i].1 == l.1) {
                assert(cur == prev.push(l));
                assert forall|i: int, j: int| 0 <= i < j < cur.len() implies cur[i].1 != cur[j].1 by {
                    if j == prev.len() {
                        assert(cur[i] == prev[i]);
                    } else {
                        assert(cur[i] == prev[i] && cur[j] == prev[j]);
                    }
                }
            }
        }
    }
}

/// A page lists each absolute URL at most once, and its links are numbered
/// 1, 2, ... in the order they are listed.
pub proof fn lemma_page_links_distinct(html: Seq<char>, base: Seq<char>, links: Seq<Link>)
    requires
        lists(links, page_links(html, base)),
    ensures
        forall|i: int, j: int| 0 <= i < j < links.len() ==> links[i].url@ != links[j].url@,
        forall|i: int| 0 <= i < links.len() ==> #[trigger] links[i].index == i + 1,
{
    lemma_links_from_distinct(page_select(html, "a[href]"@), base);
}

/// The number the next link of `links` gets.
fn i_next(links: &Vec<Link>) -> (r: usize)
    requires
        links@.len() < usize::MAX,
    ensures
        r == links@.len() + 1,
{
    links.len() + 1
}

} // verus!
