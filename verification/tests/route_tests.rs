use std::any::TypeId;
use uikit::history::NavigationChange;
use uikit::route::{EnterStep, LeaveStep, LifeCycle, PageSwitch, RouteTable};

struct Home;
struct Settings;
struct About;

fn three_pages() -> RouteTable {
    let mut t = RouteTable::new();
    assert_eq!(t.add(TypeId::of::<Home>(), LifeCycle::Drop, false, false, "Home".to_string()), 0);
    assert_eq!(
        t.add(TypeId::of::<Settings>(), LifeCycle::Suspend, false, true, "Settings".to_string()),
        1
    );
    assert_eq!(t.add(TypeId::of::<About>(), LifeCycle::Drop, true, false, "About".to_string()), 2);
    t
}

#[test]
fn new_router_shows_nothing() {
    let t = RouteTable::new();
    assert_eq!(t.current(), None);
    assert_eq!(t.len(), 0);
    assert!(t.labels().is_empty());
}

#[test]
fn add_records_pages_and_labels() {
    let t = three_pages();
    assert_eq!(t.len(), 3);
    assert_eq!(t.labels(), vec![(0, "Home"), (1, "Settings"), (2, "About")]);
    assert!(!t.page(0).has_instance);
    assert!(t.page(2).has_instance);
    assert!(t.page(1).override_parent_styling);
    assert_eq!(t.page(1).lifecycle, LifeCycle::Suspend);
    assert_eq!(t.current(), None);
}

#[test]
fn first_navigation_creates_the_page() {
    let mut t = three_pages();
    let n = t.navigate_id(0).unwrap();
    assert_eq!(n.page, 0);
    assert_eq!(
        n.switch,
        PageSwitch { leave: None, enter: Some(EnterStep::Create(0, TypeId::of::<Home>())) }
    );
    assert!(n.drop_snapshots.is_empty());
    assert_eq!(t.current(), Some(0));
    assert!(t.page(0).has_instance);
}

#[test]
fn navigating_to_a_missing_page_does_nothing() {
    let mut t = three_pages();
    t.navigate_id(0);
    assert!(t.navigate_id(3).is_none());
    assert_eq!(t.current(), Some(0));
    assert!(t.navigate_type(TypeId::of::<u8>()).is_none());
    assert_eq!(t.current(), Some(0));
}

#[test]
fn leaving_a_drop_page_disposes_and_returning_recreates_it() {
    let mut t = three_pages();
    t.navigate_id(0);
    let n = t.navigate_id(1).unwrap();
    assert_eq!(
        n.switch,
        PageSwitch {
            leave: Some(LeaveStep::Dispose(0, TypeId::of::<Home>())),
            enter: Some(EnterStep::Create(1, TypeId::of::<Settings>())),
        }
    );
    assert!(!t.page(0).has_instance);
    let s = t.navigate(NavigationChange::Back).unwrap();
    assert_eq!(
        s,
        PageSwitch {
            leave: Some(LeaveStep::Suspend(1)),
            enter: Some(EnterStep::Create(0, TypeId::of::<Home>())),
        }
    );
    assert_eq!(t.current(), Some(0));
    assert!(t.page(1).suspended);
    assert!(t.page(1).has_instance);
}

#[test]
fn returning_to_a_suspended_page_resumes_it() {
    let mut t = three_pages();
    t.navigate_id(1);
    t.navigate_id(0);
    let s = t.navigate(NavigationChange::Back).unwrap();
    assert_eq!(
        s,
        PageSwitch {
            leave: Some(LeaveStep::Dispose(0, TypeId::of::<Home>())),
            enter: Some(EnterStep::Resume(1)),
        }
    );
    assert!(!t.page(1).suspended);
}

#[test]
fn eager_page_is_shown_without_new_instance() {
    let mut t = three_pages();
    let n = t.navigate_id(2).unwrap();
    assert_eq!(n.switch, PageSwitch { leave: None, enter: None });
    assert_eq!(t.current(), Some(2));
}

#[test]
fn showing_the_shown_page_takes_no_step() {
    let mut t = three_pages();
    t.navigate_id(0);
    assert_eq!(t.set_current(0), PageSwitch { leave: None, enter: None });
    let n = t.navigate_id(0).unwrap();
    assert_eq!(n.switch, PageSwitch { leave: None, enter: None });
}

#[test]
fn back_and_forward_at_the_ends_do_nothing() {
    let mut t = three_pages();
    assert!(t.navigate(NavigationChange::Back).is_none());
    t.navigate_id(0);
    assert!(t.navigate(NavigationChange::Back).is_none());
    assert!(t.navigate(NavigationChange::Forward).is_none());
    assert_eq!(t.current(), Some(0));
}

#[test]
fn navigate_type_goes_to_the_last_page_of_the_type() {
    let mut t = three_pages();
    assert_eq!(t.add(TypeId::of::<Home>(), LifeCycle::Suspend, false, false, "Home 2".to_string()), 3);
    let n = t.navigate_type(TypeId::of::<Home>()).unwrap();
    assert_eq!(n.page, 3);
    assert_eq!(t.current(), Some(3));
}

#[test]
fn branching_drops_snapshots_of_unreachable_pages() {
    let mut t = three_pages();
    t.navigate_id(0);
    t.navigate_id(1);
    t.navigate_id(2);
    t.navigate(NavigationChange::Back);
    t.navigate(NavigationChange::Back);
    // History: 0 1 2 with the cursor on 0; going to 1 drops 1 and 2.
    let n = t.navigate_id(1).unwrap();
    // 1 is shown again, so only page 2's snapshot goes.
    assert_eq!(n.drop_snapshots, vec![TypeId::of::<About>()]);
    assert!(t.navigate(NavigationChange::Forward).is_none());
    assert_eq!(t.navigate(NavigationChange::Back).map(|s| s.enter), Some(Some(EnterStep::Create(0, TypeId::of::<Home>()))));
}

#[test]
fn back_after_two_navigations_returns_to_the_first() {
    let mut t = three_pages();
    t.navigate_id(2);
    t.navigate_id(0);
    t.navigate(NavigationChange::Back);
    assert_eq!(t.current(), Some(2));
    t.navigate(NavigationChange::Forward);
    assert_eq!(t.current(), Some(0));
}
