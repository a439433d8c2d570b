use vstd::prelude::*;
use ego_tree::iter::Edge;
use scraper::Node;
use crate::text::eq_str;

verus! {

/// What a node of a parsed document is, as far as the extractors read it.
pub enum NodeKind {
    /// The element's name and, for each attribute name the walk was asked
    /// about, its value if the element has it.
    Element { name: String, attrs: Vec<Option<String>> },
    Text(String),
    Other,
}

/// One step of a depth-first walk over a subtree: a node is entered, or the
/// most recently entered open node is left.
pub enum Token {
    Open(NodeKind),
    Close,
}

pub ghost enum NodeKindV {
    Element { name: Seq<char>, attrs: Seq<Option<Seq<char>>> },
    Text(Seq<char>),
    Other,
}

pub ghost enum TokenV {
    Open(NodeKindV),
    Close,
}

pub open spec fn opt_view(o: Option<String>) -> Option<Seq<char>> {
    match o {
        Some(v) => Some(v@),
        None => None,
    }
}

pub open spec fn attrs_view(a: Seq<Option<String>>) -> Seq<Option<Seq<char>>> {
    a.map_values(|o: Option<String>| opt_view(o))
}

impl View for NodeKind {
    type V = NodeKindV;

    open spec fn view(&self) -> NodeKindV {
        match self {
            NodeKind::Element { name, attrs } => NodeKindV::Element {
                name: name@,
                attrs: attrs_view(attrs@),
            },
            NodeKind::Text(t) => NodeKindV::Text(t@),
            NodeKind::Other => NodeKindV::Other,
        }
    }
}

impl View for Token {
    type V = TokenV;

    open spec fn view(&self) -> TokenV {
        match self {
            Token::Open(k) => TokenV::Open(k@),
            Token::Close => TokenV::Close,
        }
    }
}

pub open spec fn tokens_view(t: Seq<Token>) -> Seq<TokenV> {
    t.map_values(|x: Token| x@)
}

/// What scraper yields for `selector` on the document `html`: for each matching
/// element, in document order, the walk over its subtree, each element with
/// the values of the attributes named in `names`, in that order.
pub uninterp spec fn selected_of(html: Seq<char>, selector: Seq<char>, names: Seq<Seq<char>>) -> Seq<
    Seq<TokenV>,
>;

/// Relies on scraper's `Html::parse_document`, `Selector::parse` and `select`:
/// each matching element's subtree, walked by ego-tree's `traverse`, with each
/// edge converted one for one and attributes read by name with `Element::attr`.
/// A selector that does not parse matches nothing.
#[verifier::external_body]
fn select_subtrees(html: &str, selector: &str, names: &Vec<&str>) -> (r: Vec<Vec<Token>>)
    ensures
        r@.map_values(|t: Vec<Token>| tokens_view(t@)) == selected_of(
            html@,
            selector@,
            names@.map_values(|n: &str| n@),
        ),
{
    let doc = scraper::Html::parse_document(html);
    let Ok(sel) = scraper::Selector::parse(selector) else { return Vec::new() };
    doc.select(&sel).map(|el| el.traverse().map(|edge| match edge {
        Edge::Open(n) => Token::Open(match n.value() {
            Node::Element(e) => NodeKind::Element {
                name: e.name().to_string(),
                attrs: names.iter().map(|k| e.attr(k).map(|v| v.to_string())).collect(),
            },
            Node::Text(t) => NodeKind::Text(t.to_string()),
            _ => NodeKind::Other,
        }),
        Edge::Close(_) => Token::Close,
    }).collect()).collect()
}

/// The attributes the extractors read, in the order elements carry them.
pub open spec fn read_attrs() -> Seq<Seq<char>> {
    seq!["href"@, "title"@, "aria-label"@, "alt"@]
}

pub const HREF: usize = 0;

pub const TITLE: usize = 1;

pub const ARIA_LABEL: usize = 2;

pub const ALT: usize = 3;

/// The walks of the elements `selector` matches in `html`, with the
/// attributes of `read_attrs`.
pub open spec fn page_select(html: Seq<char>, selector: Seq<char>) -> Seq<Seq<TokenV>> {
    selected_of(html, selector, read_attrs())
}

pub fn select_elements(html: &str, selector: &str) -> (r: Vec<Vec<Token>>)
    ensures
        r@.map_values(|t: Vec<Token>| tokens_view(t@)) == page_select(html@, selector@),
{
    let names: Vec<&str> = vec!["href", "title", "aria-label", "alt"];
    assert(names@.map_values(|n: &str| n@) =~= read_attrs());
    select_subtrees(html, selector, &names)
}

/// The walk over `toks` seen from its end: the texts met outside the subtrees
/// of elements named in `skip`, and how deep the walk is inside such a
/// subtree (0 when outside).
pub open spec fn walk(toks: Seq<TokenV>, skip: Seq<Seq<char>>) -> (Seq<Seq<char>>, nat)
    decreases toks.len(),
{
    if toks.len() == 0 {
        (Seq::empty(), 0)
    } else {
        let (texts, d) = walk(toks.drop_last(), skip);
        match toks.last() {
            TokenV::Open(k) => if d > 0 {
                (texts, d + 1)
            } else {
                match k {
                    NodeKindV::Element { name, .. } => if skip.contains(name) {
                        (texts, 1)
                    } else {
                        (texts, 0)
                    },
                    NodeKindV::Text(t) => (texts.push(t), 0),
                    NodeKindV::Other => (texts, 0),
                }
            },
            TokenV::Close => if d > 0 {
                (texts, (d - 1) as nat)
            } else {
                (texts, 0)
            },
        }
    }
}

/// The text nodes of a walk, in document order, leaving out the subtrees of
/// elements named in `skip`.
pub open spec fn texts_outside(toks: Seq<TokenV>, skip: Seq<Seq<char>>) -> Seq<Seq<char>> {
    walk(toks, skip).0
}

pub open spec fn chars_view(v: Seq<Vec<char>>) -> Seq<Seq<char>> {
    v.map_values(|x: Vec<char>| x@)
}

pub open spec fn strs_view(v: Seq<String>) -> Seq<Seq<char>> {
    v.map_values(|x: String| x@)
}

fn contains_name(skip: &Vec<String>, name: &String) -> (r: bool)
    ensures
        r == strs_view(skip@).contains(name@),
{
    let mut i: usize = 0;
    while i < skip.len()
        invariant
            i <= skip@.len(),
            forall|k: int| 0 <= k < i ==> skip@[k]@ != name@,
        decreases skip@.len() - i,
    {
        if eq_str(skip[i].as_str(), name.as_str()) {
            assert(strs_view(skip@)[i as int] == name@);
            return true;
        }
        i += 1;
    }
    assert(!strs_view(skip@).contains(name@)) by {
        if strs_view(skip@).contains(name@) {
            let k = choose|k: int| 0 <= k < strs_view(skip@).len() && strs_view(skip@)[k] == name@;
            assert(skip@[k]@ == name@);
        }
    }
    false
}

/// The text nodes of `toks` in document order, outside the subtrees of the
/// elements named in `skip`.
pub fn texts_outside_of(toks: &Vec<Token>, skip: &Vec<String>) -> (r: Vec<Vec<char>>)
    ensures
        chars_view(r@) == texts_outside(tokens_view(toks@), strs_view(skip@)),
{
    let ghost tv = tokens_view(toks@);
    let ghost sv = strs_view(skip@);
    let mut out: Vec<Vec<char>> = Vec::new();
    let mut depth: usize = 0;
    let mut i: usize = 0;
    while i < toks.len()
        invariant
            i <= toks@.len(),
            tv == tokens_view(toks@),
            sv == strs_view(skip@),
            (chars_view(out@), depth as nat) == walk(tv.take(i as int), sv),
            depth <= i,
        decreases toks@.len() - i,
    {
        assert(tv.take(i + 1).drop_last() =~= tv.take(i as int));
        assert(tv.take(i + 1).last() == toks@[i as int]@);
        match &toks[i] {
            Token::Open(k) => {
                if depth > 0 {
                    depth += 1;
                } else {
                    match k {
                        NodeKind::Element { name, .. } => {
                            if contains_name(skip, name) {
                                depth = 1;
                            }
                        },
                        NodeKind::Text(t) => {
                            let ghost before = out@;
                            out.push(crate::text::chars_of(t.as_str()));
                            assert(chars_view(out@) =~= chars_view(before).push(t@));
                        },
                        NodeKind::Other => {},
                    }
                }
            },
            Token::Close => {
                if depth > 0 {
                    depth -= 1;
                }
            },
        }
        i += 1;
    }
    assert(tv.take(i as int) =~= tv);
    out
}

/// The value of the `i`-th attribute asked about, if the element has it.
pub open spec fn attr_at(attrs: Seq<Option<Seq<char>>>, i: int) -> Option<Seq<char>> {
    if 0 <= i < attrs.len() {
        attrs[i]
    } else {
        None
    }
}

pub fn attr_value(attrs: &Vec<Option<String>>, i: usize) -> (r: Option<String>)
    ensures
        opt_view(r) == attr_at(attrs_view(attrs@), i as int),
{
    if i < attrs.len() {
        match &attrs[i] {
            Some(v) => Some(v.clone()),
            None => None,
        }
    } else {
        None
    }
}

} // verus!
