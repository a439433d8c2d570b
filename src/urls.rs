use vstd::prelude::*;
use crate::error::BrowseError;
use crate::text::{
    chars_of, contains, contains_char, has_infix, has_prefix, lower_of, starts_with, string_of,
    to_lower, trim, trim_chars,
};

verus! {

/// The parts of a parsed absolute URL that the library reads.
pub struct UrlParts {
    /// The whole URL in its canonical form.
    pub href: String,
    pub scheme: String,
    pub host: Option<String>,
    pub path: String,
}

pub ghost struct UrlPartsV {
    pub href: Seq<char>,
    pub scheme: Seq<char>,
    pub host: Option<Seq<char>>,
    pub path: Seq<char>,
}

impl View for UrlParts {
    type V = UrlPartsV;

    open spec fn view(&self) -> UrlPartsV {
        UrlPartsV {
            href: self.href@,
            scheme: self.scheme@,
            host: match self.host {
                Some(h) => Some(h@),
                None => None,
            },
            path: self.path@,
        }
    }
}

pub open spec fn parts_view(r: Option<UrlParts>) -> Option<UrlPartsV> {
    match r {
        Some(p) => Some(p@),
        None => None,
    }
}

/// What the url crate makes of `s` as an absolute URL, if it parses.
pub uninterp spec fn parsed_url_of(s: Seq<char>) -> Option<UrlPartsV>;

/// What the url crate makes of `href` resolved against `base`, if both parse.
pub uninterp spec fn joined_url_of(base: Seq<char>, href: Seq<char>) -> Option<UrlPartsV>;

/// Relies on `url::Url::parse` and the getters `as_str`, `scheme`, `host_str`
/// and `path` of what it returns; `None` where parsing fails.
#[verifier::external_body]
pub(crate) fn parse_url(s: &str) -> (r: Option<UrlParts>)
    ensures
        parts_view(r) == parsed_url_of(s@),
{
    url::Url::parse(s).ok().map(|u| UrlParts {
        href: u.as_str().to_string(),
        scheme: u.scheme().to_string(),
        host: u.host_str().map(|h| h.to_string()),
        path: u.path().to_string(),
    })
}

/// Relies on `url::Url::parse` of `base` and `Url::join` of `href` onto it,
/// read through the same getters; `None` where either fails.
#[verifier::external_body]
pub(crate) fn join_url(base: &str, href: &str) -> (r: Option<UrlParts>)
    ensures
        parts_view(r) == joined_url_of(base@, href@),
{
    url::Url::parse(base).and_then(|b| b.join(href)).ok().map(|u| UrlParts {
        href: u.as_str().to_string(),
        scheme: u.scheme().to_string(),
        host: u.host_str().map(|h| h.to_string()),
        path: u.path().to_string(),
    })
}


/// `s` with `https://` in front unless it already names http or https.
pub open spec fn with_scheme(s: Seq<char>) -> Seq<char> {
    if has_prefix(s, "http://"@) || has_prefix(s, "https://"@) {
        s
    } else {
        "https://"@ + s
    }
}

/// The canonical URL for what the user typed, if there is one.
pub open spec fn normalized(input: Seq<char>) -> Option<Seq<char>> {
    match parsed_url_of(with_scheme(trim(input))) {
        Some(p) => Some(p.href),
        None => None,
    }
}

/// Trims the input, adds `https://` where no http or https scheme is given,
/// and parses it into its canonical form; an error where it is no URL.
pub fn normalize_url(url: &str) -> (r: Result<String, BrowseError>)
    ensures
        match r {
            Ok(u) => normalized(url@) == Some(u@),
            Err(e) => normalized(url@) is None && e is UrlSyntax,
        },
{
    let t = trim_chars(chars_of(url).as_slice());
    let with = if starts_with(t.as_slice(), chars_of("http://").as_slice()) || starts_with(
        t.as_slice(),
        chars_of("https://").as_slice(),
    ) {
        t
    } else {
        let mut w = chars_of("https://");
        let mut rest = t;
        w.append(&mut rest);
        w
    };
    match parse_url(string_of(with.as_slice()).as_str()) {
        Some(p) => Ok(p.href),
        None => {
            let mut msg = chars_of("invalid URL: ");
            msg.append(&mut chars_of(url));
            Err(BrowseError::UrlSyntax(string_of(msg.as_slice())))
        },
    }
}

/// A URL that parses and whose host has a dot and at least three characters.
pub open spec fn valid_url_format(s: Seq<char>) -> bool {
    match parsed_url_of(s) {
        Some(p) => match p.host {
            Some(h) => h.contains('.') && h.len() >= 3,
            None => false,
        },
        None => false,
    }
}

pub fn is_valid_url_format(url: &str) -> (r: bool)
    ensures
        r == valid_url_format(url@),
{
    match parse_url(url) {
        Some(p) => match p.host {
            Some(h) => {
                let hc = chars_of(h.as_str());
                contains_char(hc.as_slice(), '.') && hc.len() >= 3
            },
            None => false,
        },
        None => false,
    }
}

/// An http or https URL of valid format.
pub open spec fn valid_url(s: Seq<char>) -> bool {
    (has_prefix(s, "http://"@) || has_prefix(s, "https://"@)) && valid_url_format(s)
}

pub fn is_valid_url(url: &str) -> (r: bool)
    ensures
        r == valid_url(url@),
{
    let c = chars_of(url);
    (starts_with(c.as_slice(), chars_of("http://").as_slice()) || starts_with(
        c.as_slice(),
        chars_of("https://").as_slice(),
    )) && is_valid_url_format(url)
}

/// Most suggestions offered after a failed navigation.
pub const MAX_SUGGESTIONS: usize = 5;

/// The first items of `s` that pass `valid`, in order, at most `MAX_SUGGESTIONS`.
pub open spec fn first_valid(s: Seq<Seq<char>>, valid: spec_fn(Seq<char>) -> bool) -> Seq<Seq<char>>
    decreases s.len(),
{
    if s.len() == 0 {
        Seq::empty()
    } else {
        let prev = first_valid(s.drop_last(), valid);
        if valid(s.last()) && prev.len() < MAX_SUGGESTIONS {
            prev.push(s.last())
        } else {
            prev
        }
    }
}

/// What `first_valid` keeps meets the test, in order, and is at most
/// `MAX_SUGGESTIONS` long.
pub proof fn lemma_first_valid(s: Seq<Seq<char>>, valid: spec_fn(Seq<char>) -> bool)
    ensures
        first_valid(s, valid).len() <= MAX_SUGGESTIONS,
        first_valid(s, valid).len() <= s.len(),
        forall|i: int| 0 <= i < first_valid(s, valid).len() ==> valid(#[trigger] first_valid(s, valid)[i]),
    decreases s.len(),
{
    if s.len() > 0 {
        lemma_first_valid(s.drop_last(), valid);
    }
}

/// Candidate addresses for an input that failed to load: a `www.` variant of
/// a URL; a bare word with common endings, with and without `www.`; else the
/// input behind each protocol prefix.
pub open spec fn fallback_candidates(input: Seq<char>) -> Seq<Seq<char>> {
    let clean = trim(input);
    let lower = lower_of(input);
    if has_prefix(lower, "http"@) {
        if !has_infix(lower, "www."@) {
            match parsed_url_of(lower) {
                Some(p) => match p.host {
                    Some(h) => seq![p.scheme + "://www."@ + h + p.path],
                    None => Seq::empty(),
                },
                None => Seq::empty(),
            }
        } else {
            Seq::empty()
        }
    } else if !clean.contains('.') {
        seq![
            "https://www."@ + clean + ".com"@,
            "https://"@ + clean + ".com"@,
            "https://www."@ + clean + ".org"@,
            "https://"@ + clean + ".org"@,
            "https://www."@ + clean + ".net"@,
            "https://"@ + clean + ".net"@,
            "https://www."@ + clean + ".io"@,
            "https://"@ + clean + ".io"@,
        ]
    } else {
        seq![
            "https://www."@ + clean,
            "https://"@ + clean,
            "http://www."@ + clean,
            "http://"@ + clean,
        ]
    }
}

/// The suggestions made without outside help for an input that failed to load.
pub open spec fn fallback_suggestions(input: Seq<char>) -> Seq<Seq<char>> {
    first_valid(fallback_candidates(input), |s: Seq<char>| valid_url_format(s))
}

pub open spec fn strings_view(v: Seq<String>) -> Seq<Seq<char>> {
    v.map_values(|x: String| x@)
}

fn concat3(a: &str, b: &[char], c: &str) -> (r: String)
    ensures
        r@ == a@ + b@ + c@,
{
    let mut v = chars_of(a);
    let mut i: usize = 0;
    let ghost start = v@;
    while i < b.len()
        invariant
            i <= b@.len(),
            v@ == start + b@.take(i as int),
        decreases b@.len() - i,
    {
        v.push(b[i]);
        i += 1;
        assert(v@ =~= start + b@.take(i as int));
    }
    assert(b@.take(i as int) =~= b@);
    v.append(&mut chars_of(c));
    string_of(v.as_slice())
}

/// The candidates of `fallback_candidates`, built.
fn candidates_of(failed_url: &str) -> (r: Vec<String>)
    ensures
        strings_view(r@) == fallback_candidates(failed_url@),
{
    let clean = trim_chars(chars_of(failed_url).as_slice());
    let lower = to_lower(failed_url);
    let lc = chars_of(lower.as_str());
    let mut out: Vec<String> = Vec::new();
    if starts_with(lc.as_slice(), chars_of("http").as_slice()) {
        if !contains(lc.as_slice(), chars_of("www.").as_slice()) {
            if let Some(p) = parse_url(lower.as_str()) {
                if let Some(h) = p.host {
                    let mut v = chars_of(p.scheme.as_str());
                    v.append(&mut chars_of("://www."));
                    v.append(&mut chars_of(h.as_str()));
                    v.append(&mut chars_of(p.path.as_str()));
                    out.push(string_of(v.as_slice()));
                }
            }
        }
    } else if !contains_char(clean.as_slice(), '.') {
        out.push(concat3("https://www.", clean.as_slice(), ".com"));
        out.push(concat3("https://", clean.as_slice(), ".com"));
        out.push(concat3("https://www.", clean.as_slice(), ".org"));
        out.push(concat3("https://", clean.as_slice(), ".org"));
        out.push(concat3("https://www.", clean.as_slice(), ".net"));
        out.push(concat3("https://", clean.as_slice(), ".net"));
        out.push(concat3("https://www.", clean.as_slice(), ".io"));
        out.push(concat3("https://", clean.as_slice(), ".io"));
    } else {
        out.push(concat3("https://www.", clean.as_slice(), ""));
        out.push(concat3("https://", clean.as_slice(), ""));
        out.push(concat3("http://www.", clean.as_slice(), ""));
        out.push(concat3("http://", clean.as_slice(), ""));
        proof {
            reveal_strlit("");
        }
    }
    assert(strings_view(out@) =~= fallback_candidates(failed_url@));
    out
}

/// Up to five addresses that the user may have meant by `failed_url`,
/// made without outside help.
pub fn generate_fallback_suggestions(failed_url: &str) -> (r: Vec<String>)
    ensures
        strings_view(r@) == fallback_suggestions(failed_url@),
{
    let cands = candidates_of(failed_url);
    let ghost cv = strings_view(cands@);
    let ghost valid = |s: Seq<char>| valid_url_format(s);
    let mut out: Vec<String> = Vec::new();
    let mut i: usize = 0;
    while i < cands.len()
        invariant
            i <= cands@.len(),
            cv == strings_view(cands@),
            cv == fallback_candidates(failed_url@),
            valid == (|s: Seq<char>| valid_url_format(s)),
            strings_view(out@) == first_valid(cv.take(i as int), valid),
            out@.len() <= MAX_SUGGESTIONS,
        decreases cands@.len() - i,
    {
        assert(cv.take(i + 1).drop_last() =~= cv.take(i as int));
        assert(cv.take(i + 1).last() == cands@[i as int]@);
        if is_valid_url_format(cands[i].as_str()) && out.len() < MAX_SUGGESTIONS {
            let ghost before = out@;
            out.push(cands[i].clone());
            assert(strings_view(out@) =~= strings_view(before).push(cands@[i as int]@));
        }
        i += 1;
    }
    assert(cv.take(i as int) =~= cv);
    out
}

/// Keeps the http and https URLs of valid format, at most five, in order.
pub fn filter_suggestions(candidates: Vec<String>) -> (r: Vec<String>)
    ensures
        strings_view(r@) == first_valid(strings_view(candidates@), |s: Seq<char>| valid_url(s)),
{
    let ghost cv = strings_view(candidates@);
    let ghost valid = |s: Seq<char>| valid_url(s);
    let mut out: Vec<String> = Vec::new();
    let mut i: usize = 0;
    while i < candidates.len()
        invariant
            i <= candidates@.len(),
            cv == strings_view(candidates@),
            valid == (|s: Seq<char>| valid_url(s)),
            strings_view(out@) == first_valid(cv.take(i as int), valid),
            out@.len() <= MAX_SUGGESTIONS,
        decreases candidates@.len() - i,
    {
        assert(cv.take(i + 1).drop_last() =~= cv.take(i as int));
        assert(cv.take(i + 1).last() == candidates@[i as int]@);
        if is_valid_url(candidates[i].as_str()) && out.len() < MAX_SUGGESTIONS {
            let ghost before = out@;
            out.push(candidates[i].clone());
            assert(strings_view(out@) =~= strings_view(before).push(candidates@[i as int]@));
        }
        i += 1;
    }
    assert(cv.take(i as int) =~= cv);
    out
}


/// What `serde_json` reads from a text as a JSON array of strings, if it is one.
pub uninterp spec fn json_strings_of(s: Seq<char>) -> Option<Seq<Seq<char>>>;

/// Relies on `serde_json::from_str::<Vec<String>>`: the strings of a JSON
/// array of strings, `None` for any other text.
#[verifier::external_body]
fn parse_json_strings(s: &str) -> (r: Option<Vec<String>>)
    ensures
        match r {
            Some(v) => json_strings_of(s@) == Some(strings_view(v@)),
            None => json_strings_of(s@) is None,
        },
{
    serde_json::from_str::<Vec<String>>(s).ok()
}

/// The suggestions in a suggester's reply, which should be a JSON array of
/// URL strings: the valid http(s) ones, at most five; an error where the
/// reply is no such array.
pub fn suggestions_from_reply(reply: &str) -> (r: Result<Vec<String>, String>)
    ensures
        match json_strings_of(reply@) {
            Some(v) => r matches Ok(s) && strings_view(s@) == first_valid(v, |x: Seq<char>| valid_url(x)),
            None => r is Err,
        },
{
    match parse_json_strings(reply) {
        Some(v) => Ok(filter_suggestions(v)),
        None => Err("Failed to parse URL suggestions as JSON".to_string()),
    }
}

} // verus!
