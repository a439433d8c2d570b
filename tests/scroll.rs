use bbow::error::{check_response, BrowseError};
use bbow::scroll::{calculate_scroll_bounds, update_links_scroll, ScrollState};

#[test]
fn scroll_bounds_clamp() {
    assert_eq!(calculate_scroll_bounds(0, 10, 5), (0, 0, 0));
    assert_eq!(calculate_scroll_bounds(30, 10, 5), (5, 15, 20));
    assert_eq!(calculate_scroll_bounds(30, 10, 50), (20, 30, 20));
    assert_eq!(calculate_scroll_bounds(5, 10, 3), (0, 5, 0));
}

#[test]
fn links_scroll_follows_selection() {
    assert_eq!(update_links_scroll(3, 5, 10), 3);
    assert_eq!(update_links_scroll(15, 0, 10), 6);
    assert_eq!(update_links_scroll(7, 2, 10), 2);
    assert_eq!(update_links_scroll(7, 2, 0), 2);
}

#[test]
fn scroll_state_moves_within_bounds() {
    let mut s = ScrollState::new();
    s.scroll_up();
    assert_eq!(s.scroll_position, 0);
    s.set_content_height(12, 10);
    s.scroll_down();
    s.scroll_down();
    s.scroll_down();
    assert_eq!(s.scroll_position, 2);
    s.select_prev_link(3);
    assert_eq!(s.get_selected_link(), 0);
    for _ in 0..5 {
        s.select_next_link(3);
    }
    assert_eq!(s.get_selected_link(), 2);
    s.reset_scroll();
    assert_eq!((s.scroll_position, s.selected_link, s.links_scroll), (0, 0, 0));
}

#[test]
fn response_checks() {
    assert!(check_response(200, "200 OK", "text/html; charset=utf-8", "u").is_ok());
    assert!(matches!(
        check_response(404, "404 Not Found", "text/html", "u"),
        Err(BrowseError::HttpStatus(404, m)) if m == "HTTP error 404 Not Found: u"
    ));
    assert!(matches!(
        check_response(200, "200 OK", "application/json", "u"),
        Err(BrowseError::ContentType(m)) if m == "Not an HTML page: application/json"
    ));
}
