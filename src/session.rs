use vstd::prelude::*;
use crate::error::BrowseError;
use crate::extractor::{page_text, title_text, TextExtractor};
use crate::history::{History, HistoryEntry};
use crate::links::{lists, page_links, Link, LinkExtractor};
use crate::text::{chars_of, string_of, trim, trim_chars};
use crate::urls::{
    fallback_suggestions, generate_fallback_suggestions, normalize_url, normalized, strings_view,
};

verus! {

broadcast use vstd::string::group_string_axioms;

/// What the user sees: one variant per screen.
#[derive(Debug)]
pub enum BrowserState {
    Loading { url: String, progress: u16, stage: String },
    Page { url: String, title: String, summary: String, links: Vec<Link> },
    URLInput { input: String },
    URLSuggestions {
        original_url: String,
        error_message: String,
        suggestions: Vec<String>,
        selected_index: usize,
    },
    History { entries: Vec<HistoryEntry>, current_index: Option<usize> },
    Error { message: String },
}

/// The screen state under the name the renderers first used.
pub type UIState = BrowserState;

/// What the user asked for, as the renderer reads it from the keyboard.
#[derive(Debug)]
pub enum UserAction {
    Quit,
    FollowLink(usize),
    FollowSelectedLink,
    GoBack,
    GoForward,
    ShowHistory,
    EnterUrl,
    ConfirmInput(String),
    CancelInput,
    Refresh,
    ScrollUp,
    ScrollDown,
    SelectPrevLink,
    SelectNextLink,
    InputChar(char),
    Backspace,
    SelectPrevSuggestion,
    SelectNextSuggestion,
    ConfirmSuggestion,
    DismissError,
}

/// Outside work the caller performs next, reporting back to the browser.
#[derive(Debug)]
pub enum Command {
    /// Nothing beyond drawing the new state.
    Idle,
    /// End the session.
    Quit,
    /// Fetch this page, then call `on_fetched` or `on_fetch_failed`.
    Fetch(String),
    /// Summarise this text of the page at `url`, then call `on_summary`.
    Summarize { text: String, url: String },
    /// Ask for addresses the user may have meant, then call `on_suggestions`.
    Suggest { failed_url: String, error_message: String },
    ScrollUp,
    ScrollDown,
    /// Move the link selection back, among this many links.
    SelectPrevLink(usize),
    /// Move the link selection forward, among this many links.
    SelectNextLink(usize),
}

/// The stages of loading a page, in order.
#[derive(Debug)]
pub enum Stage {
    Fetching,
    Extracting,
    Processing,
    Summarizing,
    Complete,
}

impl Stage {
    pub open spec fn progress_spec(&self) -> u16 {
        match self {
            Stage::Fetching => 25,
            Stage::Extracting => 50,
            Stage::Processing => 75,
            Stage::Summarizing => 90,
            Stage::Complete => 100,
        }
    }

    pub fn progress(&self) -> (r: u16)
        ensures
            r == self.progress_spec(),
    {
        match self {
            Stage::Fetching => 25,
            Stage::Extracting => 50,
            Stage::Processing => 75,
            Stage::Summarizing => 90,
            Stage::Complete => 100,
        }
    }

    pub open spec fn label_spec(&self) -> Seq<char> {
        match self {
            Stage::Fetching => "Fetching HTML content..."@,
            Stage::Extracting => "Extracting text content..."@,
            Stage::Processing => "Processing page structure..."@,
            Stage::Summarizing => "Generating AI summary..."@,
            Stage::Complete => "Complete!"@,
        }
    }

    pub fn label(&self) -> (r: String)
        ensures
            r@ == self.label_spec(),
    {
        match self {
            Stage::Fetching => "Fetching HTML content...".to_string(),
            Stage::Extracting => "Extracting text content...".to_string(),
            Stage::Processing => "Processing page structure...".to_string(),
            Stage::Summarizing => "Generating AI summary...".to_string(),
            Stage::Complete => "Complete!".to_string(),
        }
    }
}

/// Summary shown on returning to a page without loading it again.
pub open spec fn revisit_summary() -> Seq<char> {
    "Use 'r' to refresh for summary"@
}

/// Summary of a page without readable text.
pub open spec fn empty_page_summary() -> Seq<char> {
    "No content found on this page."@
}

/// Most characters of raw page text shown when summarising fails.
pub const RAW_TEXT_EXCERPT: usize = 1000;

/// The first `n` characters of `s`, or all of it.
pub open spec fn prefix_upto(s: Seq<char>, n: nat) -> Seq<char> {
    if s.len() <= n {
        s
    } else {
        s.take(n as int)
    }
}

/// What stands in for a summary when the summariser failed with `err`.
pub open spec fn summary_fallback(err: Seq<char>, text: Seq<char>) -> Seq<char> {
    "Failed to generate summary: "@ + err + "\n\nRaw text:\n"@ + prefix_upto(
        text,
        RAW_TEXT_EXCERPT as nat,
    )
}

/// A page's title: the trimmed text of its `<title>`, or "Untitled".
pub open spec fn page_title(html: Seq<char>) -> Seq<char> {
    match title_text(html) {
        Some(t) => trim(t),
        None => trim("Untitled"@),
    }
}

/// Text that describes an error to the user.
pub open spec fn error_text(e: BrowseError) -> Seq<char> {
    match e {
        BrowseError::UrlSyntax(m) => m@,
        BrowseError::Network(m) => m@,
        BrowseError::HttpStatus(_, m) => m@,
        BrowseError::ContentType(m) => m@,
    }
}

pub fn describe(e: &BrowseError) -> (r: String)
    ensures
        r@ == error_text(*e),
{
    match e {
        BrowseError::UrlSyntax(m) => m.clone(),
        BrowseError::Network(m) => m.clone(),
        BrowseError::HttpStatus(_, m) => m.clone(),
        BrowseError::ContentType(m) => m.clone(),
    }
}

pub fn copy_links(v: &Vec<Link>) -> (r: Vec<Link>)
    ensures
        r@ == v@,
{
    let mut out: Vec<Link> = Vec::new();
    let mut i: usize = 0;
    while i < v.len()
        invariant
            i <= v@.len(),
            out@ == v@.take(i as int),
        decreases v@.len() - i,
    {
        let l = &v[i];
        out.push(Link { text: l.text.clone(), url: l.url.clone(), index: l.index });
        i += 1;
        assert(out@ =~= v@.take(i as int));
    }
    assert(v@.take(i as int) =~= v@);
    out
}

fn copy_strings(v: &Vec<String>) -> (r: Vec<String>)
    ensures
        r@ == v@,
{
    let mut out: Vec<String> = Vec::new();
    let mut i: usize = 0;
    while i < v.len()
        invariant
            i <= v@.len(),
            out@ == v@.take(i as int),
        decreases v@.len() - i,
    {
        out.push(v[i].clone());
        i += 1;
        assert(out@ =~= v@.take(i as int));
    }
    assert(v@.take(i as int) =~= v@);
    out
}

/// The session: history, the links of the page shown, and the screen state.
pub struct Browser {
    history: History,
    current_url: Option<String>,
    current_links: Vec<Link>,
    state: BrowserState,
    url_input: Vec<char>,
    /// What the user asked to open, for the navigation under way.
    target: String,
    /// Why the navigation under way failed, once it has.
    failure: String,
    title: String,
    text: String,
    links: Vec<Link>,
}

impl Browser {
    pub closed spec fn history(&self) -> History {
        self.history
    }

    pub closed spec fn state(&self) -> BrowserState {
        self.state
    }

    pub closed spec fn current_links(&self) -> Seq<Link> {
        self.current_links@
    }

    pub closed spec fn current_url(&self) -> Option<String> {
        self.current_url
    }

    pub closed spec fn url_input(&self) -> Seq<char> {
        self.url_input@
    }

    /// What the user asked to open, for the navigation under way.
    pub closed spec fn target(&self) -> Seq<char> {
        self.target@
    }

    /// Why the navigation under way failed, once it has.
    pub closed spec fn failure(&self) -> Seq<char> {
        self.failure@
    }

    /// The title found by the page load under way.
    pub closed spec fn loaded_title(&self) -> String {
        self.title
    }

    /// The readable text found by the page load under way.
    pub closed spec fn loaded_text(&self) -> Seq<char> {
        self.text@
    }

    /// The links found by the page load under way.
    pub closed spec fn loaded_links(&self) -> Seq<Link> {
        self.links@
    }

    pub open spec fn wf(&self) -> bool {
        self.history().wf()
    }

    /// A navigation to `url` has begun: a URL loads, anything else goes to
    /// suggestions at once. History and links are left as they were.
    pub open spec fn begun(old: Browser, new: Browser, url: Seq<char>, r: Command) -> bool {
        &&& new.current_links() == old.current_links()
        &&& new.target() == url
        &&& match normalized(url) {
            Some(u) => {
                &&& r matches Command::Fetch(f) && f@ == u
                &&& new.current_url() matches Some(c) && c@ == u
                &&& new.state() matches BrowserState::Loading { url: lu, progress, .. } && lu@ == u
                    && progress == 0
            },
            None => {
                &&& r matches Command::Suggest { failed_url, .. } && failed_url@ == url
                &&& new.state() == old.state()
                &&& new.current_url() == old.current_url()
            },
        }
    }

    /// `new` shows the page the history is on, when it is on one, and is
    /// otherwise `old` unchanged.
    pub open spec fn returned(old: Browser, new: Browser, r: Command) -> bool {
        &&& r is Idle
        &&& old.history().current_entry() is Some ==> {
            &&& Browser::same_session(old, new)
            &&& new.url_input() == old.url_input()
            &&& old.shows_revisit(new.state())
        }
        &&& old.history().current_entry() is None ==> new == old
    }


    /// `st` shows the history's current page again, with the stand-in summary.
    pub open spec fn shows_revisit(&self, st: BrowserState) -> bool {
        let e = self.history().current_entry()->0;
        st matches BrowserState::Page { url, title, summary, links } && url == e.url && title
            == e.title && summary@ == revisit_summary() && links@ == self.current_links()
    }

    /// The suggestions offered after a failure: those of the outside
    /// suggester as it gave them; where it gave none or failed, the ones made
    /// locally from what the user asked for.
    pub open spec fn offered(target: Seq<char>, result: Result<Seq<Seq<char>>, Seq<char>>) -> Seq<Seq<char>> {
        let outside = match result {
            Ok(v) => v,
            Err(_) => Seq::empty(),
        };
        if outside.len() > 0 {
            outside
        } else {
            fallback_suggestions(target)
        }
    }

    /// The index before `i` among `n` suggestions, wrapping to the last.
    pub open spec fn prev_index(i: usize, n: nat) -> usize {
        if i > 0 {
            (i - 1) as usize
        } else if n > 0 {
            (n - 1) as usize
        } else {
            0
        }
    }

    /// The index after `i` among `n` suggestions, wrapping to the first.
    pub open spec fn next_index(i: usize, n: nat) -> usize {
        if n > 0 && i < n - 1 {
            (i + 1) as usize
        } else {
            0
        }
    }

    pub fn new() -> (r: Self)
        ensures
            r.wf(),
            r.history().entries().len() == 0,
            r.current_url() is None,
            r.current_links().len() == 0,
            r.state() matches BrowserState::Loading { progress, .. } && progress == 0,
    {
        Browser {
            history: History::new(),
            current_url: None,
            current_links: Vec::new(),
            state: BrowserState::Loading {
                url: "Starting...".to_string(),
                progress: 0,
                stage: "Initializing...".to_string(),
            },
            url_input: Vec::new(),
            target: String::new(),
            failure: String::new(),
            title: String::new(),
            text: String::new(),
            links: Vec::new(),
        }
    }

    pub fn state_ref(&self) -> (r: &BrowserState)
        ensures
            *r == self.state(),
    {
        &self.state
    }

    pub fn history_ref(&self) -> (r: &History)
        ensures
            *r == self.history(),
    {
        &self.history
    }

    pub fn links_ref(&self) -> (r: &Vec<Link>)
        ensures
            r@ == self.current_links(),
    {
        &self.current_links
    }

    /// Starts the session: with no address, asks the user for one.
    pub fn start(&mut self, url: Option<String>) -> (r: Command)
        requires
            old(self).wf(),
        ensures
            final(self).wf(),
            url is None ==> r is Idle,
            url is None ==> (final(self).state() matches BrowserState::URLInput { input }
                && input@.len() == 0),
            url matches Some(u) ==> Browser::begun(*old(self), *final(self), u@, r),
            final(self).history() == old(self).history(),
    {
        match url {
            Some(u) => self.navigate(u.as_str()),
            None => {
                self.url_input = Vec::new();
                self.state = BrowserState::URLInput { input: String::new() };
                Command::Idle
            },
        }
    }

    /// Begins loading the page the user asked for: a URL is normalised first,
    /// and one that is not a URL fails before any fetch.
    pub fn navigate(&mut self, url: &str) -> (r: Command)
        requires
            old(self).wf(),
        ensures
            final(self).wf(),
            final(self).history() == old(self).history(),
            final(self).url_input() == old(self).url_input(),
            Browser::begun(*old(self), *final(self), url@, r),
    {
        self.target = string_of(chars_of(url).as_slice());
        match normalize_url(url) {
            Ok(u) => {
                self.current_url = Some(u.clone());
                self.state = BrowserState::Loading {
                    url: u.clone(),
                    progress: 0,
                    stage: "Starting...".to_string(),
                };
                Command::Fetch(u)
            },
            Err(e) => {
                let msg = describe(&e);
                self.failure = msg.clone();
                Command::Suggest { failed_url: self.target.clone(), error_message: msg }
            },
        }
    }

    /// A loading screen moves to `stage` only forward: the stages of a load
    /// are shown in order, each at most once.
    pub open spec fn staged(st: BrowserState, stage: Stage) -> bool {
        st matches BrowserState::Loading { progress, .. } && progress < stage.progress_spec()
    }

    /// Reports a stage of the page load under way; only a loading screen
    /// changes, and only to a later stage.
    pub fn set_stage(&mut self, stage: Stage)
        requires
            old(self).wf(),
        ensures
            final(self).wf(),
            final(self).history() == old(self).history(),
            final(self).current_links() == old(self).current_links(),
            final(self).target() == old(self).target(),
            Browser::staged(old(self).state(), stage) ==> (final(self).state() matches BrowserState::Loading { url: u2, progress, stage: label }
                && old(self).state() matches BrowserState::Loading { url, .. } && u2 == url
                && progress == stage.progress_spec() && label@ == stage.label_spec()),
            !Browser::staged(old(self).state(), stage) ==> final(self).state() == old(self).state(),
    {
        if let BrowserState::Loading { url, progress, .. } = &self.state {
            if *progress >= stage.progress() {
                return;
            }
            let u = url.clone();
            self.state = BrowserState::Loading { url: u, progress: stage.progress(), stage: stage.label() };
        }
    }
}


impl Browser {
    /// Ends the page load under way: records the visit, keeps its links, and
    /// shows the page.
    fn complete(&mut self, summary: String)
        requires
            old(self).wf(),
            old(self).current_url() is Some,
        ensures
            final(self).wf(),
            Browser::completed(*old(self), *final(self), summary@),
            final(self).loaded_title() == old(self).loaded_title(),
            final(self).loaded_text() == old(self).loaded_text(),
            final(self).loaded_links() == old(self).loaded_links(),
            final(self).target() == old(self).target(),
            final(self).failure() == old(self).failure(),
            final(self).url_input() == old(self).url_input(),
    {
        let url = self.current_url.clone().unwrap();
        let links = copy_links(&self.links);
        self.history.add(url.clone(), self.title.clone());
        self.current_links = copy_links(&self.links);
        self.state = BrowserState::Page { url, title: self.title.clone(), summary, links };
    }

    /// `new` shows the page at `url` with this title, summary and links, and
    /// has recorded the visit in history `h`.
    pub open spec fn completed_with(
        h: History,
        url: String,
        title: String,
        links: Seq<Link>,
        new: Browser,
        summary: Seq<char>,
    ) -> bool {
        &&& new.history().entries() == crate::history::added(
            h.entries(),
            h.cursor(),
            HistoryEntry { url, title },
        )
        &&& new.history().cursor() == Some(new.history().entries().len() - 1)
        &&& new.current_links() == links
        &&& new.current_url() == Some(url)
        &&& new.state() matches BrowserState::Page { url: u, title: t, summary: s, links: l }
            && u == url && t == title && s@ == summary && l@ == links
    }

    /// `new` shows the page loaded by `old` with this summary, and has recorded it.
    pub open spec fn completed(old: Browser, new: Browser, summary: Seq<char>) -> bool {
        Browser::completed_with(
            old.history(),
            old.current_url()->0,
            old.loaded_title(),
            old.loaded_links(),
            new,
            summary,
        )
    }

    /// The page has arrived: extracts its text, title and links, then asks
    /// for a summary, or shows it at once when it has no readable text.
    pub fn on_fetched(&mut self, html: &str) -> (r: Command)
        requires
            old(self).wf(),
        ensures
            final(self).wf(),
            old(self).current_url() is None ==> *final(self) == *old(self) && r is Idle,
            old(self).current_url() matches Some(u) ==> {
                &&& final(self).loaded_title()@ == page_title(html@)
                &&& final(self).loaded_text() == page_text(html@)
                &&& crate::urls::parsed_url_of(u@) is Some ==> lists(
                    final(self).loaded_links(),
                    page_links(html@, u@),
                )
                &&& crate::urls::parsed_url_of(u@) is None ==> final(self).loaded_links().len() == 0
                &&& if trim(page_text(html@)).len() == 0 {
                    &&& r is Idle
                    &&& Browser::completed_with(
                        old(self).history(),
                        u,
                        final(self).loaded_title(),
                        final(self).loaded_links(),
                        *final(self),
                        empty_page_summary(),
                    )
                } else {
                    &&& r matches Command::Summarize { text, url } && text@ == page_text(html@) && url == u
                    &&& final(self).history() == old(self).history()
                    &&& final(self).state() matches BrowserState::Loading { url: lu, progress, .. } && lu == u && progress == 90
                }
            },
    {
        if self.current_url.is_none() {
            return Command::Idle;
        }
        let url = self.current_url.clone().unwrap();
        let text = TextExtractor::new().extract_text(html);
        let title = match TextExtractor::new().extract_title(html) {
            Some(t) => string_of(trim_chars(chars_of(t.as_str()).as_slice()).as_slice()),
            None => string_of(trim_chars(chars_of("Untitled").as_slice()).as_slice()),
        };
        let links = match LinkExtractor::new().extract_links(html, url.as_str()) {
            Ok(l) => l,
            Err(_) => Vec::new(),
        };
        self.title = title;
        self.text = text.clone();
        self.links = links;
        self.state = BrowserState::Loading {
            url: url.clone(),
            progress: Stage::Summarizing.progress(),
            stage: Stage::Summarizing.label(),
        };
        if trim_chars(chars_of(text.as_str()).as_slice()).len() == 0 {
            self.complete("No content found on this page.".to_string());
            Command::Idle
        } else {
            Command::Summarize { text, url }
        }
    }
}

/// `s` followed by the characters of `v`.
fn append_chars(s: &mut Vec<char>, v: &[char])
    ensures
        final(s)@ == old(s)@ + v@,
{
    let ghost start = s@;
    let mut i: usize = 0;
    while i < v.len()
        invariant
            i <= v@.len(),
            s@ == start + v@.take(i as int),
        decreases v@.len() - i,
    {
        s.push(v[i]);
        i += 1;
        assert(s@ =~= start + v@.take(i as int));
    }
    assert(v@.take(i as int) =~= v@);
}

/// The summary shown when the summariser failed: the error, then the start
/// of the page's raw text.
pub fn summary_or_fallback(result: Result<String, String>, text: &str) -> (r: String)
    ensures
        r@ == match result {
            Ok(s) => s@,
            Err(e) => summary_fallback(e@, text@),
        },
{
    match result {
        Ok(s) => s,
        Err(e) => {
            let mut out = chars_of("Failed to generate summary: ");
            append_chars(&mut out, chars_of(e.as_str()).as_slice());
            append_chars(&mut out, chars_of("\n\nRaw text:\n").as_slice());
            let t = chars_of(text);
            let n = if t.len() <= RAW_TEXT_EXCERPT {
                t.len()
            } else {
                RAW_TEXT_EXCERPT
            };
            let head = crate::text::slice_chars(t.as_slice(), 0, n);
            assert(head@ =~= prefix_upto(text@, RAW_TEXT_EXCERPT as nat));
            append_chars(&mut out, head.as_slice());
            string_of(out.as_slice())
        },
    }
}

/// Whether a summary is worth asking for: the text is not blank.
pub fn needs_summary(text: &str) -> (r: bool)
    ensures
        r == (trim(text@).len() > 0),
{
    trim_chars(chars_of(text).as_slice()).len() > 0
}

impl Browser {
    /// Everything but the screen and the typed address is as in `old`.
    pub open spec fn same_session(old: Browser, new: Browser) -> bool {
        &&& new.history() == old.history()
        &&& new.current_links() == old.current_links()
        &&& new.current_url() == old.current_url()
        &&& new.target() == old.target()
        &&& new.failure() == old.failure()
        &&& new.loaded_title() == old.loaded_title()
        &&& new.loaded_text() == old.loaded_text()
        &&& new.loaded_links() == old.loaded_links()
    }

    /// The summariser has answered: shows the page with its summary, or with
    /// the error and the start of the raw text.
    pub fn on_summary(&mut self, result: Result<String, String>) -> (r: Command)
        requires
            old(self).wf(),
        ensures
            final(self).wf(),
            r is Idle,
            old(self).current_url() is None ==> *final(self) == *old(self),
            old(self).current_url() is Some ==> Browser::completed(
                *old(self),
                *final(self),
                match result {
                    Ok(s) => s@,
                    Err(e) => summary_fallback(e@, old(self).loaded_text()),
                },
            ),
    {
        if self.current_url.is_none() {
            return Command::Idle;
        }
        let summary = summary_or_fallback(result, self.text.as_str());
        self.complete(summary);
        Command::Idle
    }

    /// The fetch failed: asks for suggestions for what the user asked to open.
    pub fn on_fetch_failed(&mut self, error: &BrowseError) -> (r: Command)
        requires
            old(self).wf(),
        ensures
            final(self).wf(),
            final(self).failure() == error_text(*error),
            final(self).state() == old(self).state(),
            final(self).history() == old(self).history(),
            final(self).current_links() == old(self).current_links(),
            final(self).target() == old(self).target(),
            r matches Command::Suggest { failed_url, error_message } && failed_url@ == old(self).target()
                && error_message@ == error_text(*error),
    {
        let msg = describe(error);
        self.failure = msg.clone();
        Command::Suggest { failed_url: self.target.clone(), error_message: msg }
    }

    /// The suggester has answered: offers its valid suggestions, else ones
    /// made locally, else shows the error.
    pub fn on_suggestions(&mut self, result: Result<Vec<String>, String>) -> (r: Command)
        requires
            old(self).wf(),
        ensures
            final(self).wf(),
            r is Idle,
            Browser::same_session(*old(self), *final(self)),
            final(self).url_input() == old(self).url_input(),
            ({
                let offered = Browser::offered(
                    old(self).target(),
                    match result {
                        Ok(v) => Ok(strings_view(v@)),
                        Err(e) => Err(e@),
                    },
                );
                if offered.len() > 0 {
                    final(self).state() matches BrowserState::URLSuggestions {
                        original_url,
                        error_message,
                        suggestions,
                        selected_index,
                    } && original_url@ == old(self).target() && error_message@ == old(self).failure() && strings_view(suggestions@) == offered && selected_index == 0
                } else {
                    final(self).state() matches BrowserState::Error { message } && message@
                        == "Failed to load page: "@ + old(self).failure()
                }
            }),
    {
        let outside = match result {
            Ok(v) => v,
            Err(_) => Vec::new(),
        };
        let list = if outside.len() > 0 {
            outside
        } else {
            generate_fallback_suggestions(self.target.as_str())
        };
        if list.len() > 0 {
            self.state = BrowserState::URLSuggestions {
                original_url: self.target.clone(),
                error_message: self.failure.clone(),
                suggestions: list,
                selected_index: 0,
            };
        } else {
            let mut m = chars_of("Failed to load page: ");
            append_chars(&mut m, chars_of(self.failure.as_str()).as_slice());
            self.state = BrowserState::Error { message: string_of(m.as_slice()) };
        }
        Command::Idle
    }
}

impl Browser {
    /// `new` has begun loading the link at position `k` of the page's links,
    /// or, with no such link, nothing changed.
    pub open spec fn followed(old: Browser, new: Browser, k: Option<int>, r: Command) -> bool {
        match k {
            Some(i) => {
                &&& Browser::begun(old, new, old.current_links()[i].url@, r)
                &&& new.history() == old.history()
                &&& new.url_input() == old.url_input()
            },
            None => new == old && r is Idle,
        }
    }

    /// The first position among `links` of the one numbered `n`.
    pub open spec fn numbered(links: Seq<Link>, n: usize) -> Option<int> {
        if exists|i: int| 0 <= i < links.len() && links[i].index == n {
            Some(
                choose|i: int|
                    0 <= i < links.len() && links[i].index == n && forall|k: int|
                        0 <= k < i ==> links[k].index != n,
            )
        } else {
            None
        }
    }

    /// The history moved one step (`back` or forward) and `new` loads the page
    /// it moved to; where it cannot move, nothing changed.
    pub open spec fn stepped(old: Browser, new: Browser, back: bool, r: Command) -> bool {
        let h = old.history();
        let can = if back {
            h.can_go_back_spec()
        } else {
            h.can_go_forward_spec()
        };
        let to = if back {
            h.cursor()->0 - 1
        } else {
            h.cursor()->0 + 1
        };
        if can {
            &&& new.history().entries() == h.entries()
            &&& new.history().cursor() == Some(to)
            &&& new.url_input() == old.url_input()
            &&& Browser::begun(old, new, h.entries()[to].url@, r)
        } else {
            new == old && r is Idle
        }
    }

    /// `new` shows the URL entry screen, empty.
    pub open spec fn asks_url(old: Browser, new: Browser, r: Command) -> bool {
        &&& r is Idle
        &&& Browser::same_session(old, new)
        &&& new.url_input().len() == 0
        &&& new.state() matches BrowserState::URLInput { input } && input@.len() == 0
    }

    /// `new` shows the URL entry screen holding `input`.
    pub open spec fn typing(old: Browser, new: Browser, input: Seq<char>, r: Command) -> bool {
        &&& r is Idle
        &&& Browser::same_session(old, new)
        &&& new.url_input() == input
        &&& new.state() matches BrowserState::URLInput { input: i } && i@ == input
    }

    /// On a suggestions screen, the selection moved to `f(index, count)`;
    /// elsewhere nothing changed.
    pub open spec fn reselected(old: Browser, new: Browser, forward: bool, r: Command) -> bool {
        &&& r is Idle
        &&& match old.state() {
            BrowserState::URLSuggestions { original_url, error_message, suggestions, selected_index } => {
                &&& Browser::same_session(old, new)
                &&& new.url_input() == old.url_input()
                &&& new.state() matches BrowserState::URLSuggestions {
                    original_url: o2,
                    error_message: e2,
                    suggestions: s2,
                    selected_index: i2,
                } && o2 == original_url && e2 == error_message && s2@ == suggestions@ && i2 == if forward {
                    Browser::next_index(selected_index, suggestions@.len())
                } else {
                    Browser::prev_index(selected_index, suggestions@.len())
                }
            },
            _ => new == old,
        }
    }

    /// What each user action does: the transition table of the session.
    pub open spec fn acted(old: Browser, new: Browser, action: UserAction, selected: usize, r: Command) -> bool {
        match action {
            UserAction::Quit => r is Quit && new == old,
            UserAction::FollowLink(n) => Browser::followed(old, new, Browser::numbered(old.current_links(), n), r),
            UserAction::FollowSelectedLink => Browser::followed(
                old,
                new,
                if selected < old.current_links().len() {
                    Some(selected as int)
                } else {
                    None
                },
                r,
            ),
            UserAction::GoBack => if old.state() is History || old.state() is Error {
                Browser::returned(old, new, r)
            } else {
                Browser::stepped(old, new, true, r)
            },
            UserAction::GoForward => Browser::stepped(old, new, false, r),
            UserAction::ShowHistory => {
                &&& r is Idle
                &&& Browser::same_session(old, new)
                &&& new.url_input() == old.url_input()
                &&& new.state() matches BrowserState::History { entries, current_index } && entries@
                    == old.history().entries() && match old.history().current_entry() {
                    Some(_) => current_index matches Some(i) && old.history().cursor() == Some(i as int),
                    None => current_index is None,
                }
            },
            UserAction::EnterUrl => Browser::asks_url(old, new, r),
            UserAction::ConfirmInput(t) => if t@.len() > 0 {
                &&& Browser::begun(old, new, t@, r)
                &&& new.history() == old.history()
                &&& new.url_input() == old.url_input()
            } else {
                new == old && r is Idle
            },
            UserAction::CancelInput => if old.history().current_entry() is Some {
                Browser::returned(old, new, r)
            } else if old.state() is URLSuggestions {
                Browser::asks_url(old, new, r)
            } else {
                new == old && r is Idle
            },
            UserAction::Refresh => if old.state() is Error {
                Browser::returned(old, new, r)
            } else {
                match old.current_url() {
                    Some(u) => {
                        &&& Browser::begun(old, new, u@, r)
                        &&& new.history() == old.history()
                        &&& new.url_input() == old.url_input()
                    },
                    None => new == old && r is Idle,
                }
            },
            UserAction::ScrollUp => r is ScrollUp && new == old,
            UserAction::ScrollDown => r is ScrollDown && new == old,
            UserAction::SelectPrevLink => r matches Command::SelectPrevLink(n) && n
                == old.current_links().len() && new == old,
            UserAction::SelectNextLink => r matches Command::SelectNextLink(n) && n
                == old.current_links().len() && new == old,
            UserAction::InputChar(c) => Browser::typing(old, new, old.url_input().push(c), r),
            UserAction::Backspace => Browser::typing(
                old,
                new,
                if old.url_input().len() > 0 {
                    old.url_input().drop_last()
                } else {
                    old.url_input()
                },
                r,
            ),
            UserAction::SelectPrevSuggestion => Browser::reselected(old, new, false, r),
            UserAction::SelectNextSuggestion => Browser::reselected(old, new, true, r),
            UserAction::ConfirmSuggestion => match old.state() {
                BrowserState::URLSuggestions { suggestions, selected_index, .. } => if selected_index
                    < suggestions@.len() {
                    &&& Browser::begun(old, new, suggestions@[selected_index as int]@, r)
                    &&& new.history() == old.history()
                    &&& new.url_input() == old.url_input()
                } else {
                    new == old && r is Idle
                },
                _ => new == old && r is Idle,
            },
            UserAction::DismissError => if old.history().current_entry() is Some {
                Browser::returned(old, new, r)
            } else {
                Browser::asks_url(old, new, r)
            },
        }
    }

    fn follow_link_by_index(&mut self, index: usize) -> (r: Command)
        requires
            old(self).wf(),
        ensures
            final(self).wf(),
            Browser::followed(*old(self), *final(self), Browser::numbered(old(self).current_links(), index), r),
    {
        let mut i: usize = 0;
        while i < self.current_links.len()
            invariant
                *self == *old(self),
                self.wf(),
                i <= self.current_links@.len(),
                forall|k: int| 0 <= k < i ==> self.current_links@[k].index != index,
            decreases self.current_links@.len() - i,
        {
            if self.current_links[i].index == index {
                let url = self.current_links[i].url.clone();
                let ghost links = self.current_links@;
                proof {
                    let k = Browser::numbered(links, index)->0;
                    assert(links[i as int].index == index);
                    if k < i {
                        assert(links[k].index != index);
                    } else if k > i {
                        assert(links[i as int].index != index);
                    }
                }
                return self.navigate(url.as_str());
            }
            i += 1;
        }
        Command::Idle
    }

    fn follow_selected_link(&mut self, selected: usize) -> (r: Command)
        requires
            old(self).wf(),
        ensures
            final(self).wf(),
            Browser::followed(
                *old(self),
                *final(self),
                if selected < old(self).current_links().len() {
                    Some(selected as int)
                } else {
                    None
                },
                r,
            ),
    {
        if selected < self.current_links.len() {
            let url = self.current_links[selected].url.clone();
            self.navigate(url.as_str())
        } else {
            Command::Idle
        }
    }

    /// Shows the history's current page again, with the stand-in summary.
    fn return_to_page(&mut self) -> (r: Command)
        requires
            old(self).wf(),
        ensures
            final(self).wf(),
            Browser::returned(*old(self), *final(self), r),
    {
        match self.history.current() {
            Some(e) => {
                let url = e.url.clone();
                let title = e.title.clone();
                let links = copy_links(&self.current_links);
                self.state = BrowserState::Page {
                    url,
                    title,
                    summary: "Use 'r' to refresh for summary".to_string(),
                    links,
                };
            },
            None => {},
        }
        Command::Idle
    }

    fn step_history(&mut self, back: bool) -> (r: Command)
        requires
            old(self).wf(),
        ensures
            final(self).wf(),
            Browser::stepped(*old(self), *final(self), back, r),
    {
        let entry = if back {
            self.history.go_back()
        } else {
            self.history.go_forward()
        };
        match entry {
            Some(e) => {
                let url = e.url.clone();
                self.navigate(url.as_str())
            },
            None => Command::Idle,
        }
    }

    fn show_history(&mut self) -> (r: Command)
        requires
            old(self).wf(),
        ensures
            final(self).wf(),
            Browser::acted(*old(self), *final(self), UserAction::ShowHistory, 0, r),
    {
        let listed = self.history.list();
        let mut entries: Vec<HistoryEntry> = Vec::new();
        let mut i: usize = 0;
        while i < listed.len()
            invariant
                i <= listed@.len(),
                listed@.len() == self.history.entries().len(),
                forall|j: int| 0 <= j < listed@.len() ==> *listed@[j] == self.history.entries()[j],
                entries@ == self.history.entries().take(i as int),
            decreases listed@.len() - i,
        {
            let e = listed[i];
            entries.push(HistoryEntry { url: e.url.clone(), title: e.title.clone() });
            i += 1;
            assert(entries@ =~= self.history.entries().take(i as int));
        }
        assert(entries@ =~= self.history.entries());
        let current_index = self.history.current_index();
        self.state = BrowserState::History { entries, current_index };
        Command::Idle
    }

    fn enter_url_mode(&mut self) -> (r: Command)
        requires
            old(self).wf(),
        ensures
            final(self).wf(),
            Browser::asks_url(*old(self), *final(self), r),
    {
        self.url_input = Vec::new();
        self.state = BrowserState::URLInput { input: String::new() };
        Command::Idle
    }

    fn type_input(&mut self, c: Option<char>) -> (r: Command)
        requires
            old(self).wf(),
        ensures
            final(self).wf(),
            Browser::typing(
                *old(self),
                *final(self),
                match c {
                    Some(ch) => old(self).url_input().push(ch),
                    None => if old(self).url_input().len() > 0 {
                        old(self).url_input().drop_last()
                    } else {
                        old(self).url_input()
                    },
                },
                r,
            ),
    {
        match c {
            Some(ch) => self.url_input.push(ch),
            None => {
                self.url_input.pop();
            },
        }
        self.state = BrowserState::URLInput { input: string_of(self.url_input.as_slice()) };
        Command::Idle
    }

    fn move_suggestion(&mut self, forward: bool) -> (r: Command)
        requires
            old(self).wf(),
        ensures
            final(self).wf(),
            Browser::reselected(*old(self), *final(self), forward, r),
    {
        if let BrowserState::URLSuggestions { original_url, error_message, suggestions, selected_index } = &self.state {
            let n = suggestions.len();
            let i = *selected_index;
            let next = if forward {
                if n > 0 && i < n - 1 {
                    i + 1
                } else {
                    0
                }
            } else {
                if i > 0 {
                    i - 1
                } else if n > 0 {
                    n - 1
                } else {
                    0
                }
            };
            let st = BrowserState::URLSuggestions {
                original_url: original_url.clone(),
                error_message: error_message.clone(),
                suggestions: copy_strings(suggestions),
                selected_index: next,
            };
            self.state = st;
        }
        Command::Idle
    }

    fn confirm_suggestion(&mut self) -> (r: Command)
        requires
            old(self).wf(),
        ensures
            final(self).wf(),
            Browser::acted(*old(self), *final(self), UserAction::ConfirmSuggestion, 0, r),
    {
        let mut target: Option<String> = None;
        if let BrowserState::URLSuggestions { suggestions, selected_index, .. } = &self.state {
            if *selected_index < suggestions.len() {
                target = Some(suggestions[*selected_index].clone());
            }
        }
        match target {
            Some(t) => self.navigate(t.as_str()),
            None => Command::Idle,
        }
    }

    /// Applies one user action; see `acted` for what each does.
    pub fn apply(&mut self, action: UserAction, selected_link: usize) -> (r: Command)
        requires
            old(self).wf(),
        ensures
            final(self).wf(),
            Browser::acted(*old(self), *final(self), action, selected_link, r),
    {
        match action {
            UserAction::Quit => Command::Quit,
            UserAction::FollowLink(n) => self.follow_link_by_index(n),
            UserAction::FollowSelectedLink => self.follow_selected_link(selected_link),
            UserAction::GoBack => {
                if matches!(self.state, BrowserState::History { .. }) || matches!(self.state, BrowserState::Error { .. }) {
                    self.return_to_page()
                } else {
                    self.step_history(true)
                }
            },
            UserAction::GoForward => self.step_history(false),
            UserAction::ShowHistory => self.show_history(),
            UserAction::EnterUrl => self.enter_url_mode(),
            UserAction::ConfirmInput(t) => {
                if chars_of(t.as_str()).len() > 0 {
                    self.navigate(t.as_str())
                } else {
                    Command::Idle
                }
            },
            UserAction::CancelInput => {
                if self.history.current().is_some() {
                    self.return_to_page()
                } else if matches!(self.state, BrowserState::URLSuggestions { .. }) {
                    self.enter_url_mode()
                } else {
                    Command::Idle
                }
            },
            UserAction::Refresh => {
                if matches!(self.state, BrowserState::Error { .. }) {
                    self.return_to_page()
                } else {
                    match self.current_url.clone() {
                        Some(u) => self.navigate(u.as_str()),
                        None => Command::Idle,
                    }
                }
            },
            UserAction::ScrollUp => Command::ScrollUp,
            UserAction::ScrollDown => Command::ScrollDown,
            UserAction::SelectPrevLink => Command::SelectPrevLink(self.current_links.len()),
            UserAction::SelectNextLink => Command::SelectNextLink(self.current_links.len()),
            UserAction::InputChar(c) => self.type_input(Some(c)),
            UserAction::Backspace => self.type_input(None),
            UserAction::SelectPrevSuggestion => self.move_suggestion(false),
            UserAction::SelectNextSuggestion => self.move_suggestion(true),
            UserAction::ConfirmSuggestion => self.confirm_suggestion(),
            UserAction::DismissError => {
                if self.history.current().is_some() {
                    self.return_to_page()
                } else {
                    self.enter_url_mode()
                }
            },
        }
    }
}

/// When the outside suggester fails, the suggestions offered are those made
/// locally: at most five, each a URL whose host has a dot and at least three
/// characters. With none, `on_suggestions` shows the error instead.
pub proof fn lemma_failed_suggester_falls_back(target: Seq<char>, err: Seq<char>)
    ensures
        Browser::offered(target, Err(err)) == fallback_suggestions(target),
        fallback_suggestions(target).len() <= crate::urls::MAX_SUGGESTIONS,
        forall|i: int|
            0 <= i < fallback_suggestions(target).len() ==> crate::urls::valid_url_format(
                #[trigger] fallback_suggestions(target)[i],
            ),
{
    crate::urls::lemma_first_valid(
        crate::urls::fallback_candidates(target),
        |s: Seq<char>| crate::urls::valid_url_format(s),
    );
}

} // verus!
