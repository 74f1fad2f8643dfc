use uikit::input::{
    bubble_place, focus_ring, input_border, shows_bubble, BubblePlace, FocusRing, InputBorder,
    InputStatus,
};

#[test]
fn input_border_by_status() {
    assert_eq!(input_border(InputStatus::Disabled, true), InputBorder::Plain);
    assert_eq!(input_border(InputStatus::Disabled, false), InputBorder::Plain);
    assert_eq!(input_border(InputStatus::Focused, false), InputBorder::Hidden);
    assert_eq!(input_border(InputStatus::Focused, true), InputBorder::Error);
    assert_eq!(input_border(InputStatus::Hovered, true), InputBorder::Error);
    assert_eq!(input_border(InputStatus::Active, false), InputBorder::Plain);
}

#[test]
fn focus_ring_by_focus_and_error() {
    assert_eq!(focus_ring(false, true), FocusRing::Transparent);
    assert_eq!(focus_ring(true, false), FocusRing::Focused);
    assert_eq!(focus_ring(true, true), FocusRing::FocusedError);
}

#[test]
fn bubble_placement() {
    assert_eq!(bubble_place(true, true, false), BubblePlace::Above);
    assert_eq!(bubble_place(false, true, true), BubblePlace::Below);
    assert_eq!(bubble_place(false, false, true), BubblePlace::ViewportTop);
    assert_eq!(bubble_place(false, false, false), BubblePlace::ViewportBottom);
    assert!(shows_bubble(true, true));
    assert!(!shows_bubble(true, false));
    assert!(!shows_bubble(false, true));
}
