use vstd::prelude::*;
use crate::text::{chars_of, has_prefix, string_of, trim, trim_chars, starts_with};

verus! {

broadcast use vstd::string::group_string_axioms;

/// A run of markdown text and how it is emphasised.
#[derive(Debug)]
pub enum MarkdownElement {
    Header1(String),
    Header2(String),
    Header3(String),
    Header4(String),
    Bold(String),
    Italic(String),
    Code(String),
    Normal(String),
    Empty,
}

/// What kind of line a markdown line is.
#[derive(Debug, Clone, Copy, PartialEq, Eq, Structural)]
pub enum LineType {
    Header1,
    Header2,
    Header3,
    Header4,
    Bullet,
    Normal,
}

/// One line of a summary as drawn: its runs, what precedes them, its kind.
#[derive(Debug)]
pub struct ParsedLine {
    pub elements: Vec<MarkdownElement>,
    pub prefix: String,
    pub line_type: LineType,
}

pub ghost enum Elem {
    Header1(Seq<char>),
    Header2(Seq<char>),
    Header3(Seq<char>),
    Header4(Seq<char>),
    Bold(Seq<char>),
    Italic(Seq<char>),
    Code(Seq<char>),
    Normal(Seq<char>),
    Empty,
}

pub ghost struct LineV {
    pub elements: Seq<Elem>,
    pub prefix: Seq<char>,
    pub line_type: LineType,
}

impl View for MarkdownElement {
    type V = Elem;

    open spec fn view(&self) -> Elem {
        match self {
            MarkdownElement::Header1(t) => Elem::Header1(t@),
            MarkdownElement::Header2(t) => Elem::Header2(t@),
            MarkdownElement::Header3(t) => Elem::Header3(t@),
            MarkdownElement::Header4(t) => Elem::Header4(t@),
            MarkdownElement::Bold(t) => Elem::Bold(t@),
            MarkdownElement::Italic(t) => Elem::Italic(t@),
            MarkdownElement::Code(t) => Elem::Code(t@),
            MarkdownElement::Normal(t) => Elem::Normal(t@),
            MarkdownElement::Empty => Elem::Empty,
        }
    }
}

pub open spec fn elems_view(v: Seq<MarkdownElement>) -> Seq<Elem> {
    v.map_values(|e: MarkdownElement| e@)
}

impl View for ParsedLine {
    type V = LineV;

    open spec fn view(&self) -> LineV {
        LineV { elements: elems_view(self.elements@), prefix: self.prefix@, line_type: self.line_type }
    }
}

pub open spec fn lines_view(v: Seq<ParsedLine>) -> Seq<LineV> {
    v.map_values(|l: ParsedLine| l@)
}

/// A line's marker, its text after the marker, and its kind: `#` to `####`
/// headings, `-` or `*` bullets (drawn with a bullet sign), else plain text.
pub open spec fn line_structure(line: Seq<char>) -> (Seq<char>, Seq<char>, LineType) {
    if has_prefix(line, "#### "@) {
        (Seq::empty(), line.skip(5), LineType::Header4)
    } else if has_prefix(line, "### "@) {
        (Seq::empty(), line.skip(4), LineType::Header3)
    } else if has_prefix(line, "## "@) {
        (Seq::empty(), line.skip(3), LineType::Header2)
    } else if has_prefix(line, "# "@) {
        (Seq::empty(), line.skip(2), LineType::Header1)
    } else if has_prefix(line, "- "@) || has_prefix(line, "* "@) {
        ("\u{2022} "@, line.skip(2), LineType::Bullet)
    } else {
        (Seq::empty(), line, LineType::Normal)
    }
}

pub fn parse_markdown_line_structure(line: &str) -> (r: (String, String, LineType))
    ensures
        (r.0@, r.1@, r.2) == line_structure(line@),
{
    let c = chars_of(line);
    let n = c.len();
    proof {
        reveal_strlit("#### ");
        reveal_strlit("### ");
        reveal_strlit("## ");
        reveal_strlit("# ");
        reveal_strlit("- ");
        reveal_strlit("* ");
    }
    if starts_with(c.as_slice(), chars_of("#### ").as_slice()) {
        (String::new(), string_of(crate::text::slice_chars(c.as_slice(), 5, n).as_slice()), LineType::Header4)
    } else if starts_with(c.as_slice(), chars_of("### ").as_slice()) {
        (String::new(), string_of(crate::text::slice_chars(c.as_slice(), 4, n).as_slice()), LineType::Header3)
    } else if starts_with(c.as_slice(), chars_of("## ").as_slice()) {
        (String::new(), string_of(crate::text::slice_chars(c.as_slice(), 3, n).as_slice()), LineType::Header2)
    } else if starts_with(c.as_slice(), chars_of("# ").as_slice()) {
        (String::new(), string_of(crate::text::slice_chars(c.as_slice(), 2, n).as_slice()), LineType::Header1)
    } else if starts_with(c.as_slice(), chars_of("- ").as_slice()) || starts_with(
        c.as_slice(),
        chars_of("* ").as_slice(),
    ) {
        (
            "\u{2022} ".to_string(),
            string_of(crate::text::slice_chars(c.as_slice(), 2, n).as_slice()),
            LineType::Bullet,
        )
    } else {
        (String::new(), line.to_string(), LineType::Normal)
    }
}

/// Where inline parsing stands after a prefix of the text.
pub ghost enum Mode {
    /// Plain text, with the run not yet emitted.
    Plain(Seq<char>),
    /// Plain text, then one `*` whose meaning the next character decides.
    Star(Seq<char>),
    /// Inside `**`; whether a `*` was just read that may close it.
    Bold(Seq<char>, bool),
    Italic(Seq<char>),
    Code(Seq<char>),
}

/// A plain run, if it is not empty.
pub open spec fn flush(cur: Seq<char>) -> Seq<Elem> {
    if cur.len() > 0 {
        seq![Elem::Normal(cur)]
    } else {
        Seq::empty()
    }
}

/// One character of inline parsing from `mode`, with the runs it completes.
pub open spec fn inline_step(mode: Mode, c: char) -> (Seq<Elem>, Mode) {
    match mode {
        Mode::Plain(cur) => if c == '*' {
            (Seq::empty(), Mode::Star(cur))
        } else if c == '`' {
            (flush(cur), Mode::Code(Seq::empty()))
        } else {
            (Seq::empty(), Mode::Plain(cur.push(c)))
        },
        Mode::Star(cur) => if c == '*' {
            (flush(cur), Mode::Bold(Seq::empty(), false))
        } else {
            (flush(cur), Mode::Italic(seq![c]))
        },
        Mode::Bold(b, star) => if c == '*' {
            if star {
                (seq![Elem::Bold(b)], Mode::Plain(Seq::empty()))
            } else {
                (Seq::empty(), Mode::Bold(b, true))
            }
        } else if star {
            (Seq::empty(), Mode::Bold(b.push('*').push(c), false))
        } else {
            (Seq::empty(), Mode::Bold(b.push(c), false))
        },
        Mode::Italic(b) => if c == '*' {
            (seq![Elem::Italic(b)], Mode::Plain(Seq::empty()))
        } else {
            (Seq::empty(), Mode::Italic(b.push(c)))
        },
        Mode::Code(b) => if c == '`' {
            (seq![Elem::Code(b)], Mode::Plain(Seq::empty()))
        } else {
            (Seq::empty(), Mode::Code(b.push(c)))
        },
    }
}

/// The runs completed by a prefix of the text, and the mode after it.
pub open spec fn inline_state(s: Seq<char>) -> (Seq<Elem>, Mode)
    decreases s.len(),
{
    if s.len() == 0 {
        (Seq::empty(), Mode::Plain(Seq::empty()))
    } else {
        let (out, mode) = inline_state(s.drop_last());
        let (more, next) = inline_step(mode, s.last());
        (out + more, next)
    }
}

/// The run left open when the text ends: an unclosed emphasis runs to the end.
pub open spec fn inline_finish(mode: Mode) -> Seq<Elem> {
    match mode {
        Mode::Plain(cur) => flush(cur),
        Mode::Star(cur) => flush(cur).push(Elem::Italic(Seq::empty())),
        Mode::Bold(b, star) => seq![Elem::Bold(if star { b.push('*') } else { b })],
        Mode::Italic(b) => seq![Elem::Italic(b)],
        Mode::Code(b) => seq![Elem::Code(b)],
    }
}

/// The runs of a line's text: `**bold**`, `*italic*`, `` `code` `` and plain
/// text; a text that yields none is one plain run.
pub open spec fn inline_elements(s: Seq<char>) -> Seq<Elem> {
    let (out, mode) = inline_state(s);
    let all = out + inline_finish(mode);
    if all.len() == 0 {
        seq![Elem::Normal(s)]
    } else {
        all
    }
}

enum ExecMode {
    Plain,
    Star,
    Bold(bool),
    Italic,
    Code,
}

spec fn mode_of(m: ExecMode, buf: Seq<char>) -> Mode {
    match m {
        ExecMode::Plain => Mode::Plain(buf),
        ExecMode::Star => Mode::Star(buf),
        ExecMode::Bold(s) => Mode::Bold(buf, s),
        ExecMode::Italic => Mode::Italic(buf),
        ExecMode::Code => Mode::Code(buf),
    }
}

fn push_normal(out: &mut Vec<MarkdownElement>, cur: &Vec<char>)
    ensures
        elems_view(final(out)@) == elems_view(old(out)@) + flush(cur@),
{
    let ghost before = out@;
    if cur.len() > 0 {
        out.push(MarkdownElement::Normal(string_of(cur.as_slice())));
        assert(elems_view(out@) =~= elems_view(before) + flush(cur@));
    } else {
        assert(elems_view(out@) =~= elems_view(before) + flush(cur@));
    }
}

fn push_elem(out: &mut Vec<MarkdownElement>, e: MarkdownElement)
    ensures
        elems_view(final(out)@) == elems_view(old(out)@).push(e@),
{
    let ghost before = out@;
    out.push(e);
    assert(elems_view(out@) =~= elems_view(before).push(e@));
}

pub fn parse_inline_elements(text: &str) -> (r: Vec<MarkdownElement>)
    ensures
        elems_view(r@) == inline_elements(text@),
{
    let s = chars_of(text);
    let mut out: Vec<MarkdownElement> = Vec::new();
    let mut mode = ExecMode::Plain;
    let mut buf: Vec<char> = Vec::new();
    let mut i: usize = 0;
    while i < s.len()
        invariant
            i <= s@.len(),
            s@ == text@,
            inline_state(s@.take(i as int)) == (elems_view(out@), mode_of(mode, buf@)),
        decreases s@.len() - i,
    {
        assert(s@.take(i + 1).drop_last() =~= s@.take(i as int));
        let c = s[i];
        let ghost before = elems_view(out@);
        match mode {
            ExecMode::Plain => {
                if c == '*' {
                    mode = ExecMode::Star;
                } else if c == '`' {
                    push_normal(&mut out, &buf);
                    buf = Vec::new();
                    mode = ExecMode::Code;
                } else {
                    buf.push(c);
                }
            },
            ExecMode::Star => {
                push_normal(&mut out, &buf);
                buf = Vec::new();
                if c == '*' {
                    mode = ExecMode::Bold(false);
                } else {
                    buf.push(c);
                    mode = ExecMode::Italic;
                    assert(buf@ =~= seq![c]);
                }
            },
            ExecMode::Bold(star) => {
                if c == '*' {
                    if star {
                        push_elem(&mut out, MarkdownElement::Bold(string_of(buf.as_slice())));
                        buf = Vec::new();
                        mode = ExecMode::Plain;
                    } else {
                        mode = ExecMode::Bold(true);
                    }
                } else {
                    if star {
                        buf.push('*');
                    }
                    buf.push(c);
                    mode = ExecMode::Bold(false);
                }
            },
            ExecMode::Italic => {
                if c == '*' {
                    push_elem(&mut out, MarkdownElement::Italic(string_of(buf.as_slice())));
                    buf = Vec::new();
                    mode = ExecMode::Plain;
                } else {
                    buf.push(c);
                }
            },
            ExecMode::Code => {
                if c == '`' {
                    push_elem(&mut out, MarkdownElement::Code(string_of(buf.as_slice())));
                    buf = Vec::new();
                    mode = ExecMode::Plain;
                } else {
                    buf.push(c);
                }
            },
        }
        i += 1;
    }
    assert(s@.take(i as int) =~= s@);
    let ghost done = elems_view(out@);
    let ghost fin = inline_finish(mode_of(mode, buf@));
    match mode {
        ExecMode::Plain => push_normal(&mut out, &buf),
        ExecMode::Star => {
            push_normal(&mut out, &buf);
            push_elem(&mut out, MarkdownElement::Italic(String::new()));
            assert(elems_view(out@) =~= done + fin);
        },
        ExecMode::Bold(star) => {
            if star {
                buf.push('*');
            }
            push_elem(&mut out, MarkdownElement::Bold(string_of(buf.as_slice())));
            assert(elems_view(out@) =~= done + fin);
        },
        ExecMode::Italic => {
            push_elem(&mut out, MarkdownElement::Italic(string_of(buf.as_slice())));
            assert(elems_view(out@) =~= done + fin);
        },
        ExecMode::Code => {
            push_elem(&mut out, MarkdownElement::Code(string_of(buf.as_slice())));
            assert(elems_view(out@) =~= done + fin);
        },
    }
    assert(elems_view(out@) == done + fin);
    if out.len() == 0 {
        out.push(MarkdownElement::Normal(text.to_string()));
        assert(elems_view(out@) =~= seq![Elem::Normal(text@)]);
    }
    out
}


/// The text a run carries; an empty line carries none.
pub open spec fn elem_text(e: Elem) -> Seq<char> {
    match e {
        Elem::Header1(t) => t,
        Elem::Header2(t) => t,
        Elem::Header3(t) => t,
        Elem::Header4(t) => t,
        Elem::Bold(t) => t,
        Elem::Italic(t) => t,
        Elem::Code(t) => t,
        Elem::Normal(t) => t,
        Elem::Empty => Seq::empty(),
    }
}

pub fn element_text(element: &MarkdownElement) -> (r: &str)
    ensures
        r@ == elem_text(element@),
{
    match element {
        MarkdownElement::Header1(t) => t.as_str(),
        MarkdownElement::Header2(t) => t.as_str(),
        MarkdownElement::Header3(t) => t.as_str(),
        MarkdownElement::Header4(t) => t.as_str(),
        MarkdownElement::Bold(t) => t.as_str(),
        MarkdownElement::Italic(t) => t.as_str(),
        MarkdownElement::Code(t) => t.as_str(),
        MarkdownElement::Normal(t) => t.as_str(),
        MarkdownElement::Empty => {
            proof {
                reveal_strlit("");
            }
            ""
        },
    }
}

/// The texts of the runs, one after another.
pub open spec fn runs_text(es: Seq<Elem>) -> Seq<char>
    decreases es.len(),
{
    if es.len() == 0 {
        Seq::empty()
    } else {
        runs_text(es.drop_last()) + elem_text(es.last())
    }
}

/// What `textwrap::fill` makes of a text for a width.
pub uninterp spec fn filled_of(text: Seq<char>, width: usize) -> Seq<char>;

/// Relies on `textwrap::fill`: the text broken into lines no wider than
/// `width` where it can be, joined by newlines.
#[verifier::external_body]
fn fill_text(text: &str, width: usize) -> (r: String)
    ensures
        r@ == filled_of(text@, width),
{
    textwrap::fill(text, width)
}

/// `p` without one trailing carriage return.
pub open spec fn strip_cr(p: Seq<char>) -> Seq<char> {
    if p.len() > 0 && p.last() == '\r' {
        p.drop_last()
    } else {
        p
    }
}

/// The lines done and the line being read, after a prefix of a text.
pub open spec fn lines_state(s: Seq<char>) -> (Seq<Seq<char>>, Seq<char>)
    decreases s.len(),
{
    if s.len() == 0 {
        (Seq::empty(), Seq::empty())
    } else {
        let (done, cur) = lines_state(s.drop_last());
        if s.last() == '\n' {
            (done.push(strip_cr(cur)), Seq::empty())
        } else {
            (done, cur.push(s.last()))
        }
    }
}

/// The lines of a text as `str::lines` gives them.
pub open spec fn split_lines(s: Seq<char>) -> Seq<Seq<char>> {
    let (done, cur) = lines_state(s);
    if cur.len() > 0 {
        done.push(strip_cr(cur))
    } else {
        done
    }
}

/// `n` spaces.
pub open spec fn spaces(n: nat) -> Seq<char> {
    Seq::new(n, |i: int| ' ')
}

/// Wrapped lines of one kind, the marker on the first and spaces of its
/// width before the others.
pub open spec fn wrapped(ls: Seq<Seq<char>>, prefix: Seq<char>, lt: LineType) -> Seq<LineV> {
    Seq::new(
        ls.len(),
        |i: int|
            LineV {
                elements: seq![Elem::Normal(ls[i])],
                prefix: if i == 0 {
                    prefix
                } else {
                    spaces(prefix.len())
                },
                line_type: lt,
            },
    )
}

/// The drawn lines of one markdown line for a width: blank lines stay
/// blank; a line wider than `width` is wrapped (its marker's width taken off)
/// and loses its emphasis; others keep their runs.
pub open spec fn parse_line(raw: Seq<char>, width: usize) -> Seq<LineV> {
    let line = trim(raw);
    if line.len() == 0 {
        seq![LineV { elements: seq![Elem::Empty], prefix: Seq::empty(), line_type: LineType::Normal }]
    } else {
        let (prefix, text, lt) = line_structure(line);
        let es = inline_elements(text);
        let combined = runs_text(es);
        if combined.len() > width {
            let w = if width > prefix.len() {
                (width - prefix.len()) as usize
            } else {
                0usize
            };
            wrapped(split_lines(filled_of(combined, w)), prefix, lt)
        } else {
            seq![LineV { elements: es, prefix, line_type: lt }]
        }
    }
}

/// The lines done and the line being read, after a prefix of a summary.
pub open spec fn structured_state(s: Seq<char>, width: usize) -> (Seq<LineV>, Seq<char>)
    decreases s.len(),
{
    if s.len() == 0 {
        (Seq::empty(), Seq::empty())
    } else {
        let (done, cur) = structured_state(s.drop_last(), width);
        if s.last() == '\n' {
            (done + parse_line(cur, width), Seq::empty())
        } else {
            (done, cur.push(s.last()))
        }
    }
}

/// The drawn lines of a markdown summary for a width.
pub open spec fn structured(s: Seq<char>, width: usize) -> Seq<LineV> {
    let (done, cur) = structured_state(s, width);
    if cur.len() > 0 {
        done + parse_line(cur, width)
    } else {
        done
    }
}

fn split_lines_of(s: &[char]) -> (r: Vec<Vec<char>>)
    ensures
        crate::html::chars_view(r@) == split_lines(s@),
{
    let mut done: Vec<Vec<char>> = Vec::new();
    let mut cur: Vec<char> = Vec::new();
    let mut i: usize = 0;
    while i < s.len()
        invariant
            i <= s@.len(),
            lines_state(s@.take(i as int)) == (crate::html::chars_view(done@), cur@),
        decreases s@.len() - i,
    {
        assert(s@.take(i + 1).drop_last() =~= s@.take(i as int));
        if s[i] == '\n' {
            if cur.len() > 0 && cur[cur.len() - 1] == '\r' {
                cur.pop();
            }
            let ghost before = done@;
            done.push(cur);
            assert(crate::html::chars_view(done@) =~= crate::html::chars_view(before).push(done@.last()@));
            cur = Vec::new();
        } else {
            cur.push(s[i]);
        }
        i += 1;
    }
    assert(s@.take(i as int) =~= s@);
    if cur.len() > 0 {
        if cur[cur.len() - 1] == '\r' {
            cur.pop();
        }
        let ghost before = done@;
        done.push(cur);
        assert(crate::html::chars_view(done@) =~= crate::html::chars_view(before).push(done@.last()@));
    }
    done
}

fn runs_text_of(es: &Vec<MarkdownElement>) -> (r: Vec<char>)
    ensures
        r@ == runs_text(elems_view(es@)),
{
    let ghost ev = elems_view(es@);
    let mut out: Vec<char> = Vec::new();
    let mut i: usize = 0;
    while i < es.len()
        invariant
            i <= es@.len(),
            ev == elems_view(es@),
            out@ == runs_text(ev.take(i as int)),
        decreases es@.len() - i,
    {
        assert(ev.take(i + 1).drop_last() =~= ev.take(i as int));
        let t = chars_of(element_text(&es[i]));
        let ghost before = out@;
        let mut j: usize = 0;
        while j < t.len()
            invariant
                j <= t@.len(),
                out@ == before + t@.take(j as int),
            decreases t@.len() - j,
        {
            out.push(t[j]);
            j += 1;
            assert(out@ =~= before + t@.take(j as int));
        }
        assert(t@.take(j as int) =~= t@);
        i += 1;
    }
    assert(ev.take(i as int) =~= ev);
    out
}

fn spaces_of(n: usize) -> (r: String)
    ensures
        r@ == spaces(n as nat),
{
    let mut v: Vec<char> = Vec::new();
    let mut i: usize = 0;
    while i < n
        invariant
            i <= n,
            v@ == spaces(i as nat),
        decreases n - i,
    {
        v.push(' ');
        i += 1;
        assert(v@ =~= spaces(i as nat));
    }
    string_of(v.as_slice())
}

fn push_lines(out: &mut Vec<ParsedLine>, raw: &[char], width: usize)
    ensures
        lines_view(final(out)@) == lines_view(old(out)@) + parse_line(raw@, width),
{
    let ghost before = lines_view(out@);
    let line = trim_chars(raw);
    if line.len() == 0 {
        let mut es: Vec<MarkdownElement> = Vec::new();
        es.push(MarkdownElement::Empty);
        assert(elems_view(es@) =~= seq![Elem::Empty]);
        out.push(ParsedLine { elements: es, prefix: String::new(), line_type: LineType::Normal });
        assert(lines_view(out@) =~= before + parse_line(raw@, width));
        return;
    }
    let (prefix, text, lt) = parse_markdown_line_structure(string_of(line.as_slice()).as_str());
    let es = parse_inline_elements(text.as_str());
    let combined = runs_text_of(&es);
    if combined.len() > width {
        let plen = chars_of(prefix.as_str()).len();
        let w = if width > plen {
            width - plen
        } else {
            0
        };
        let filled = fill_text(string_of(combined.as_slice()).as_str(), w);
        let ls = split_lines_of(chars_of(filled.as_str()).as_slice());
        let ghost lv = crate::html::chars_view(ls@);
        let ghost target = wrapped(lv, prefix@, lt);
        let mut k: usize = 0;
        while k < ls.len()
            invariant
                k <= ls@.len(),
                lv == crate::html::chars_view(ls@),
                plen == prefix@.len(),
                target == wrapped(lv, prefix@, lt),
                lines_view(out@) == before + target.take(k as int),
            decreases ls@.len() - k,
        {
            let p = if k == 0 {
                prefix.clone()
            } else {
                spaces_of(plen)
            };
            let ghost mid = lines_view(out@);
            let mut es: Vec<MarkdownElement> = Vec::new();
            es.push(MarkdownElement::Normal(string_of(ls[k].as_slice())));
            out.push(ParsedLine {
                elements: es,
                prefix: p,
                line_type: lt,
            });
            proof {
                let e = out@.last();
                assert(e@.elements =~= seq![Elem::Normal(lv[k as int])]);
                assert(e@ == target[k as int]);
                assert(lines_view(out@) =~= mid.push(target[k as int]));
            }
            k += 1;
            assert(lines_view(out@) =~= before + target.take(k as int));
        }
        assert(target.take(k as int) =~= target);
    } else {
        let ghost ev = elems_view(es@);
        out.push(ParsedLine { elements: es, prefix, line_type: lt });
        assert(lines_view(out@) =~= before + parse_line(raw@, width));
    }
}

/// Breaks a markdown summary into drawn lines for a width.
pub fn parse_markdown_to_structured(markdown: &str, width: usize) -> (r: Vec<ParsedLine>)
    ensures
        lines_view(r@) == structured(markdown@, width),
{
    let s = chars_of(markdown);
    let mut out: Vec<ParsedLine> = Vec::new();
    let mut cur: Vec<char> = Vec::new();
    let mut i: usize = 0;
    while i < s.len()
        invariant
            i <= s@.len(),
            s@ == markdown@,
            structured_state(s@.take(i as int), width) == (lines_view(out@), cur@),
        decreases s@.len() - i,
    {
        assert(s@.take(i + 1).drop_last() =~= s@.take(i as int));
        if s[i] == '\n' {
            push_lines(&mut out, cur.as_slice(), width);
            cur = Vec::new();
        } else {
            cur.push(s[i]);
        }
        i += 1;
    }
    assert(s@.take(i as int) =~= s@);
    if cur.len() > 0 {
        push_lines(&mut out, cur.as_slice(), width);
    }
    out
}

} // verus!
