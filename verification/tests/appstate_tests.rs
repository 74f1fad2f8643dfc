use uikit::appstate::AppState;
use uikit::kit::{Sonata, SonataProvider};

#[test]
fn clones_share_the_state() {
    let a = AppState::new(1u32);
    let b = a.clone();
    *b.try_write().unwrap() = 7;
    assert_eq!(*a.try_read().unwrap(), 7);
    {
        let r1 = a.try_read().unwrap();
        let r2 = b.try_read().unwrap();
        assert_eq!(*r1 + *r2, 14);
    }
}

#[test]
fn separate_states_are_separate() {
    let a = AppState::new(String::from("x"));
    let b = AppState::new(String::from("x"));
    b.try_write().unwrap().push('y');
    assert_eq!(a.try_read().unwrap().as_str(), "x");
    assert_eq!(b.try_read().unwrap().as_str(), "xy");
}

#[test]
fn held_lock_is_refused_without_blocking() {
    let a = AppState::new(0u8);
    let b = a.clone();
    {
        let _w = a.try_write().unwrap();
        assert!(b.try_read().is_none());
        assert!(b.try_write().is_none());
    }
    {
        let _r = a.try_read().unwrap();
        assert!(b.try_read().is_some());
        assert!(b.try_write().is_none());
    }
    assert!(b.try_write().is_some());
}

#[test]
fn rw_lock_is_the_shared_lock() {
    let a = AppState::new(3i32);
    let b = a.clone();
    *a.rw_lock().write().unwrap() = 4;
    assert_eq!(*b.try_read().unwrap(), 4);
}

#[test]
fn sonata_handles() {
    let _k: Sonata<u8> = Sonata::new();
    let _d: Sonata<u8> = Sonata::default();
    assert_eq!(SonataProvider, SonataProvider);
}
