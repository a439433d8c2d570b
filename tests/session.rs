use bbow::error::BrowseError;
use bbow::session::{Browser, BrowserState, Command, Stage, UserAction};

fn load(b: &mut Browser, url: &str, html: &str, summary: Result<String, String>) {
    let cmd = b.navigate(url);
    assert!(matches!(cmd, Command::Fetch(_)));
    b.set_stage(Stage::Fetching);
    if let Command::Summarize { .. } = b.on_fetched(html) {
        b.on_summary(summary);
    }
}

const PAGE: &str = r#"<html><title>T</title><body><a href="/a">Link A</a></body></html>"#;

#[test]
fn navigation_shows_page_with_links_and_summary() {
    let mut b = Browser::new();
    let cmd = b.navigate("example.com");
    match cmd {
        Command::Fetch(u) => assert_eq!(u, "https://example.com/"),
        other => panic!("unexpected {:?}", other),
    }
    assert!(matches!(b.state_ref(), BrowserState::Loading { progress: 0, .. }));
    b.set_stage(Stage::Fetching);
    assert!(matches!(b.state_ref(), BrowserState::Loading { progress: 25, .. }));
    match b.on_fetched(PAGE) {
        Command::Summarize { text, url } => {
            assert_eq!(text, "# T Link A");
            assert_eq!(url, "https://example.com/");
        }
        other => panic!("unexpected {:?}", other),
    }
    assert!(matches!(b.state_ref(), BrowserState::Loading { progress: 90, .. }));
    b.on_summary(Ok("Summary S".to_string()));
    match b.state_ref() {
        BrowserState::Page { url, title, summary, links } => {
            assert_eq!(url, "https://example.com/");
            assert_eq!(title, "T");
            assert_eq!(summary, "Summary S");
            assert_eq!(links.len(), 1);
            assert_eq!(links[0].index, 1);
            assert_eq!(links[0].url, "https://example.com/a");
            assert_eq!(links[0].text, "Link A");
        }
        other => panic!("unexpected {:?}", other),
    }
    assert_eq!(b.history_ref().current().unwrap().title, "T");
}

#[test]
fn empty_page_gets_placeholder_summary() {
    let mut b = Browser::new();
    b.navigate("https://example.com/");
    let cmd = b.on_fetched("<html><body>   </body></html>");
    assert!(matches!(cmd, Command::Idle));
    match b.state_ref() {
        BrowserState::Page { title, summary, links, .. } => {
            assert_eq!(title, "Untitled");
            assert_eq!(summary, "No content found on this page.");
            assert!(links.is_empty());
        }
        other => panic!("unexpected {:?}", other),
    }
}

#[test]
fn summary_failure_falls_back_to_raw_text() {
    let mut b = Browser::new();
    load(&mut b, "https://example.com/", PAGE, Err("quota".to_string()));
    match b.state_ref() {
        BrowserState::Page { summary, .. } => {
            assert_eq!(summary, "Failed to generate summary: quota\n\nRaw text:\n# T Link A");
        }
        other => panic!("unexpected {:?}", other),
    }
}

#[test]
fn network_failure_leads_to_local_suggestions() {
    let mut b = Browser::new();
    let cmd = b.navigate("http://bad.invalid");
    assert!(matches!(cmd, Command::Fetch(_)));
    let err = BrowseError::Network("Failed to fetch http://bad.invalid/: dns error".to_string());
    match b.on_fetch_failed(&err) {
        Command::Suggest { failed_url, error_message } => {
            assert_eq!(failed_url, "http://bad.invalid");
            assert_eq!(error_message, "Failed to fetch http://bad.invalid/: dns error");
        }
        other => panic!("unexpected {:?}", other),
    }
    b.on_suggestions(Err("no credential".to_string()));
    match b.state_ref() {
        BrowserState::URLSuggestions { original_url, suggestions, selected_index, .. } => {
            assert_eq!(original_url, "http://bad.invalid");
            assert!(!suggestions.is_empty() && suggestions.len() <= 5);
            assert_eq!(suggestions[0], "http://www.bad.invalid/");
            assert_eq!(*selected_index, 0);
        }
        other => panic!("unexpected {:?}", other),
    }
}

#[test]
fn failure_without_any_suggestion_shows_error() {
    let mut b = Browser::new();
    b.navigate("http://www.x");
    b.on_fetch_failed(&BrowseError::Network("down".to_string()));
    b.on_suggestions(Ok(vec![]));
    match b.state_ref() {
        BrowserState::Error { message } => assert_eq!(message, "Failed to load page: down"),
        other => panic!("unexpected {:?}", other),
    }
    b.apply(UserAction::DismissError, 0);
    assert!(matches!(b.state_ref(), BrowserState::URLInput { input } if input.is_empty()));
}

#[test]
fn outside_suggestions_shown_as_given() {
    let mut b = Browser::new();
    b.navigate("wired");
    b.on_fetch_failed(&BrowseError::Network("down".to_string()));
    b.on_suggestions(Ok(vec!["https://www.wired.com".to_string(), "junk".to_string()]));
    match b.state_ref() {
        BrowserState::URLSuggestions { suggestions, .. } => {
            assert_eq!(
                suggestions,
                &vec!["https://www.wired.com".to_string(), "junk".to_string()]
            );
        }
        other => panic!("unexpected {:?}", other),
    }
}

#[test]
fn invalid_input_fails_before_fetch() {
    let mut b = Browser::new();
    match b.navigate("not a url") {
        Command::Suggest { failed_url, .. } => assert_eq!(failed_url, "not a url"),
        other => panic!("unexpected {:?}", other),
    }
}

#[test]
fn suggestion_selection_wraps() {
    let mut b = Browser::new();
    b.navigate("wired");
    b.on_fetch_failed(&BrowseError::Network("down".to_string()));
    b.on_suggestions(Err("x".to_string()));
    let sel = |b: &Browser| match b.state_ref() {
        BrowserState::URLSuggestions { selected_index, .. } => *selected_index,
        _ => usize::MAX,
    };
    b.apply(UserAction::SelectPrevSuggestion, 0);
    assert_eq!(sel(&b), 4);
    b.apply(UserAction::SelectNextSuggestion, 0);
    assert_eq!(sel(&b), 0);
    b.apply(UserAction::SelectNextSuggestion, 0);
    assert_eq!(sel(&b), 1);
    match b.apply(UserAction::ConfirmSuggestion, 0) {
        Command::Fetch(u) => assert_eq!(u, "https://wired.com/"),
        other => panic!("unexpected {:?}", other),
    }
}

#[test]
fn url_input_editing_and_cancel() {
    let mut b = Browser::new();
    assert!(matches!(b.start(None), Command::Idle));
    b.apply(UserAction::InputChar('a'), 0);
    b.apply(UserAction::InputChar('b'), 0);
    b.apply(UserAction::Backspace, 0);
    assert!(matches!(b.state_ref(), BrowserState::URLInput { input } if input == "a"));
    b.apply(UserAction::CancelInput, 0);
    assert!(matches!(b.state_ref(), BrowserState::URLInput { input } if input == "a"));
    assert!(matches!(b.apply(UserAction::ConfirmInput(String::new()), 0), Command::Idle));
    assert!(matches!(b.apply(UserAction::Quit, 0), Command::Quit));
}

#[test]
fn back_forward_history_and_links() {
    let mut b = Browser::new();
    load(&mut b, "https://example.com/", PAGE, Ok("S1".to_string()));
    load(&mut b, "https://example.org/", "<title>Two</title><p>x</p>", Ok("S2".to_string()));
    match b.apply(UserAction::ShowHistory, 0) {
        Command::Idle => {}
        other => panic!("unexpected {:?}", other),
    }
    match b.state_ref() {
        BrowserState::History { entries, current_index } => {
            assert_eq!(entries.len(), 2);
            assert_eq!(*current_index, Some(1));
        }
        other => panic!("unexpected {:?}", other),
    }
    b.apply(UserAction::GoBack, 0);
    match b.state_ref() {
        BrowserState::Page { title, summary, .. } => {
            assert_eq!(title, "Two");
            assert_eq!(summary, "Use 'r' to refresh for summary");
        }
        other => panic!("unexpected {:?}", other),
    }
    match b.apply(UserAction::GoBack, 0) {
        Command::Fetch(u) => assert_eq!(u, "https://example.com/"),
        other => panic!("unexpected {:?}", other),
    }
    assert!(matches!(b.apply(UserAction::ScrollDown, 0), Command::ScrollDown));
    assert!(matches!(b.apply(UserAction::SelectNextLink, 0), Command::SelectNextLink(0)));
    assert!(matches!(b.apply(UserAction::FollowLink(7), 0), Command::Idle));
    assert!(matches!(b.apply(UserAction::FollowSelectedLink, 3), Command::Idle));
}

#[test]
fn follow_link_by_number() {
    let mut b = Browser::new();
    load(&mut b, "https://example.com/", PAGE, Ok("S".to_string()));
    match b.apply(UserAction::FollowLink(1), 0) {
        Command::Fetch(u) => assert_eq!(u, "https://example.com/a"),
        other => panic!("unexpected {:?}", other),
    }
    match b.apply(UserAction::Refresh, 0) {
        Command::Fetch(u) => assert_eq!(u, "https://example.com/a"),
        other => panic!("unexpected {:?}", other),
    }
}

#[test]
fn history_view_marks_the_cursor() {
    let mut b = Browser::new();
    load(&mut b, "https://a.example.com/", PAGE, Ok("S".to_string()));
    load(&mut b, "https://b.example.com/", PAGE, Ok("S".to_string()));
    load(&mut b, "https://a.example.com/", PAGE, Ok("S".to_string()));
    b.apply(UserAction::ShowHistory, 0);
    match b.state_ref() {
        BrowserState::History { entries, current_index } => {
            assert_eq!(entries.len(), 3);
            assert_eq!(*current_index, Some(2));
        }
        other => panic!("unexpected {:?}", other),
    }
    b.apply(UserAction::GoBack, 0);
    assert_eq!(b.history_ref().list().len(), 3);
    assert_eq!(b.history_ref().current_index(), Some(2));
}

#[test]
fn stages_only_move_forward() {
    let mut b = Browser::new();
    b.navigate("https://example.com/");
    b.set_stage(Stage::Processing);
    b.set_stage(Stage::Fetching);
    assert!(matches!(b.state_ref(), BrowserState::Loading { progress: 75, .. }));
    b.set_stage(Stage::Complete);
    assert!(matches!(b.state_ref(), BrowserState::Loading { progress: 100, .. }));
}
