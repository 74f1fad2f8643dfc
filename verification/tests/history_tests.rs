use uikit::history::{NavigationChange, NavigationHistory};

#[test]
fn new_history_is_empty() {
    let mut h = NavigationHistory::new();
    assert!(!h.contains(0));
    assert_eq!(h.nav_back(), None);
    assert_eq!(h.nav_forward(), None);
    let mut h = NavigationHistory::with_capacity(8);
    assert_eq!(h.nav_back(), None);
    assert_eq!(h.nav_forward(), None);
}

#[test]
fn push_into_empty_history_removes_nothing() {
    let mut h = NavigationHistory::new();
    assert_eq!(h.push_history(3), Vec::<usize>::new());
    assert!(h.contains(3));
    assert!(!h.contains(4));
    assert_eq!(h.nav_back(), None);
    assert_eq!(h.nav_forward(), None);
}

#[test]
fn back_then_forward_returns_to_the_same_page() {
    let mut h = NavigationHistory::new();
    h.push_history(1);
    h.push_history(2);
    h.push_history(3);
    assert_eq!(h.nav_back(), Some(2));
    assert_eq!(h.nav_forward(), Some(3));
    assert_eq!(h.nav_forward(), None);
    assert_eq!(h.nav_back(), Some(2));
    assert_eq!(h.nav_back(), Some(1));
    assert_eq!(h.nav_back(), None);
    assert_eq!(h.nav_forward(), Some(2));
}

#[test]
fn push_after_back_drops_forward_entries_in_order() {
    let mut h = NavigationHistory::new();
    for p in [10, 11, 12, 13] {
        h.push_history(p);
    }
    assert_eq!(h.nav_back(), Some(12));
    assert_eq!(h.nav_back(), Some(11));
    assert_eq!(h.push_history(20), vec![12, 13]);
    assert!(!h.contains(12));
    assert!(!h.contains(13));
    assert!(h.contains(20));
    assert_eq!(h.nav_forward(), None);
    assert_eq!(h.nav_back(), Some(11));
    assert_eq!(h.nav_back(), Some(10));
}

#[test]
fn push_at_the_end_removes_nothing() {
    let mut h = NavigationHistory::new();
    h.push_history(1);
    assert_eq!(h.push_history(2), Vec::<usize>::new());
    assert_eq!(h.push_history(2), Vec::<usize>::new());
    assert_eq!(h.nav_back(), Some(2));
    assert_eq!(h.nav_back(), Some(1));
}

#[test]
fn navigation_change_is_copyable() {
    let c = NavigationChange::Back;
    let d = c;
    assert_eq!(c, d);
    assert_ne!(NavigationChange::Back, NavigationChange::Forward);
}
