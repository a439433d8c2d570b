use bbow::history::{History, MAX_HISTORY_SIZE};

fn urls(h: &History) -> Vec<String> {
    h.list().iter().map(|e| e.url.clone()).collect()
}

#[test]
fn new_history_is_empty() {
    let h = History::new();
    assert!(h.current().is_none());
    assert!(h.list().is_empty());
    assert!(!h.can_go_back());
    assert!(!h.can_go_forward());
}

#[test]
fn add_moves_cursor_to_tail() {
    let mut h = History::new();
    h.add("a".to_string(), "A".to_string());
    h.add("b".to_string(), "B".to_string());
    assert_eq!(h.current().unwrap().url, "b");
    assert_eq!(h.current().unwrap().title, "B");
    assert!(h.can_go_back());
    assert!(!h.can_go_forward());
    assert_eq!(urls(&h), vec!["a", "b"]);
}

#[test]
fn back_and_forward_move_cursor() {
    let mut h = History::new();
    h.add("a".to_string(), "A".to_string());
    h.add("b".to_string(), "B".to_string());
    h.add("c".to_string(), "C".to_string());
    assert_eq!(h.go_back().unwrap().url, "b");
    assert_eq!(h.go_back().unwrap().url, "a");
    assert!(h.go_back().is_none());
    assert_eq!(h.current().unwrap().url, "a");
    assert_eq!(h.go_forward().unwrap().url, "b");
    assert_eq!(h.go_forward().unwrap().url, "c");
    assert!(h.go_forward().is_none());
    assert_eq!(urls(&h), vec!["a", "b", "c"]);
}

#[test]
fn add_after_back_truncates_forward_branch() {
    let mut h = History::new();
    for u in ["a", "b", "c", "d"] {
        h.add(u.to_string(), u.to_uppercase());
    }
    h.go_back();
    h.go_back();
    h.add("x".to_string(), "X".to_string());
    assert_eq!(urls(&h), vec!["a", "b", "x"]);
    assert_eq!(h.current().unwrap().url, "x");
    assert!(!h.can_go_forward());
}

#[test]
fn capacity_evicts_oldest() {
    let mut h = History::new();
    for i in 0..(MAX_HISTORY_SIZE + 5) {
        h.add(format!("u{}", i), format!("t{}", i));
        assert!(h.list().len() <= MAX_HISTORY_SIZE);
        assert_eq!(h.current().unwrap().url, format!("u{}", i));
    }
    let list = urls(&h);
    assert_eq!(list.len(), 100);
    assert_eq!(list[0], "u5");
    assert_eq!(list[99], "u104");
}
