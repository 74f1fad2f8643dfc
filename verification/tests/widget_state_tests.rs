use uikit::content::Content;
use uikit::border::{click_focus, BorderSide, PointerInput, PressState, Status};
use uikit::cached::{
    at_rest, padded_size, raises_supersample, record_mode, snaps_bounds, snaps_composite,
    CompositingMode, PixelSnap, RecordMode, MARGIN,
};
use uikit::press::{ScaleTarget, SidebarFold, SpringPress};
use uikit::stack::{pages_to_layout, ContentIndex, SlideRequest};

#[test]
fn content_index_starts_and_settles_a_slide() {
    let mut ix = ContentIndex::new();
    assert_eq!(
        ix.request(2, 4),
        Some(SlideRequest { target: 2, invalidate_from: 0, invalidate_to: 2 })
    );
    assert_eq!(ix.next, Some(2));
    assert_eq!(ix.request(2, 4), None);
    ix.settle();
    assert_eq!(ix, ContentIndex { next: None, current: 2 });
    assert_eq!(ix.request(2, 4), None);
}

#[test]
fn content_index_clamps_requests() {
    let mut ix = ContentIndex::new();
    assert_eq!(
        ix.request(9, 3),
        Some(SlideRequest { target: 2, invalidate_from: 0, invalidate_to: 2 })
    );
    let mut empty = ContentIndex::new();
    assert_eq!(empty.request(5, 0), None);
}

#[test]
fn content_index_slides_backwards() {
    let mut ix = ContentIndex { next: None, current: 3 };
    assert_eq!(
        ix.request(1, 4),
        Some(SlideRequest { target: 1, invalidate_from: 1, invalidate_to: 3 })
    );
    assert!(ix.in_slide(2));
    assert!(ix.in_slide(3));
    assert!(!ix.in_slide(0));
}

#[test]
fn layout_takes_one_or_two_pages() {
    assert_eq!(pages_to_layout(1, 2, 4), vec![1, 2]);
    assert_eq!(pages_to_layout(1, 1, 4), vec![1]);
    assert_eq!(pages_to_layout(3, 4, 4), vec![3]);
    assert_eq!(pages_to_layout(4, 4, 4), Vec::<usize>::new());
}

#[test]
fn press_state_follows_pointer() {
    let mut s = PressState::new();
    assert!(s.on_input(PointerInput::LeftPressed, true, true));
    assert!(s.is_pressed && s.is_focused);
    assert!(!s.on_input(PointerInput::Other, false, true));
    assert!(s.on_input(PointerInput::LeftReleased, true, true));
    assert!(!s.is_pressed);
    assert!(s.on_input(PointerInput::FingerPressed, false, false));
    assert!(!s.is_pressed && !s.is_focused);
    assert!(!s.is_hovered);
}

#[test]
fn disabled_status_hides_focus() {
    let mut s = PressState::new();
    s.on_input(PointerInput::LeftPressed, true, true);
    assert_eq!(
        s.status(true),
        Status { is_pressed: true, is_hovered: false, is_focused: false, is_disabled: true }
    );
    assert!(s.status(false).is_focused);
    assert!(click_focus(Some(true)));
    assert!(!click_focus(Some(false)));
    assert!(!click_focus(None));
    assert_ne!(BorderSide::Outer, BorderSide::Inner);
}

#[test]
fn snap_policies() {
    assert!(snaps_bounds(PixelSnap::Hybrid));
    assert!(!snaps_bounds(PixelSnap::Auto));
    assert!(snaps_composite(PixelSnap::Auto, true, true));
    assert!(!snaps_composite(PixelSnap::Auto, true, false));
    assert!(!snaps_composite(PixelSnap::Auto, false, true));
    assert!(snaps_composite(PixelSnap::Always, false, false));
    assert!(!snaps_composite(PixelSnap::Never, true, true));
    assert!(!snaps_composite(PixelSnap::Hybrid, true, true));
    assert_eq!(PixelSnap::default(), PixelSnap::Auto);
    assert_eq!(CompositingMode::default(), CompositingMode::Layer);
}

#[test]
fn recording_decisions() {
    assert_eq!(record_mode(CompositingMode::Layer, false, true), RecordMode::TraverseOnly);
    assert_eq!(record_mode(CompositingMode::Layer, true, true), RecordMode::Flush);
    assert_eq!(record_mode(CompositingMode::Layer, false, false), RecordMode::Flush);
    assert_eq!(record_mode(CompositingMode::Bake, false, true), RecordMode::Flush);
    assert!(raises_supersample(true, false));
    assert!(!raises_supersample(true, true));
    assert!(!raises_supersample(false, false));
    assert!(at_rest(None));
    assert!(at_rest(Some(true)));
    assert!(!at_rest(Some(false)));
}

#[test]
fn padded_size_adds_margins() {
    assert_eq!(padded_size(10, 20, MARGIN), (14, 24));
    assert_eq!(padded_size(0, 0, MARGIN), (5, 5));
    assert_eq!(padded_size(7, 1, 0), (7, 1));
}

#[test]
fn spring_press_and_release() {
    let mut p = SpringPress::new();
    assert_eq!(p.on_input(PointerInput::LeftReleased, true), None);
    assert_eq!(p.on_input(PointerInput::LeftPressed, false), None);
    assert_eq!(p.on_input(PointerInput::LeftPressed, true), Some(ScaleTarget::Pressed));
    assert!(p.is_pressed);
    assert_eq!(p.on_input(PointerInput::LeftReleased, false), Some(ScaleTarget::Released));
    assert!(!p.is_pressed);
}

#[test]
fn sidebar_toggles_only_from_header() {
    let mut f = SidebarFold::new(false);
    assert!(!f.on_input(false, PointerInput::LeftPressed, true));
    assert!(!f.collapsed);
    assert!(!f.on_input(true, PointerInput::LeftPressed, false));
    assert!(f.on_input(true, PointerInput::LeftPressed, true));
    assert!(f.collapsed);
    assert!(f.on_input(true, PointerInput::LeftPressed, true));
    assert!(!f.collapsed);
}

#[test]
fn button_content_gains_label_and_icon_in_any_order() {
    let a: Content<'_, u8> = Content::Text("").add_text("Save").add_icon(7);
    let b: Content<'_, u8> = Content::Text("").add_icon(7).add_text("Save");
    for c in [a, b] {
        match c {
            Content::Combined { icon, text } => {
                assert_eq!(icon, 7);
                assert_eq!(text, "Save");
            }
            _ => panic!("expected combined content"),
        }
    }
    let icon_only: Content<'_, u8> = Content::Icon(1);
    match icon_only.add_icon(2) {
        Content::Icon(i) => assert_eq!(i, 2),
        _ => panic!("expected an icon"),
    }
    let both: Content<'_, u8> = Content::Combined { icon: 1, text: "a" };
    match both.add_text("b") {
        Content::Combined { icon, text } => assert_eq!((icon, text), (1, "b")),
        _ => panic!("expected combined content"),
    }
}

#[test]
fn layer_and_invalidation_decisions() {
    use_layer_decisions();
}

fn use_layer_decisions() {
    assert!(uikit::cached::registers_layer(true, CompositingMode::Layer));
    assert!(!uikit::cached::registers_layer(true, CompositingMode::Bake));
    assert!(!uikit::cached::registers_layer(false, CompositingMode::Layer));
    assert!(uikit::cached::invalidates_after_event(true, false, true));
    assert!(!uikit::cached::invalidates_after_event(true, true, true));
    assert!(!uikit::cached::invalidates_after_event(false, false, true));
    assert!(!uikit::cached::invalidates_after_event(true, false, false));
}
