//! The interaction state of the multi-border wrapper: pressed, focused,
//! hovered, and the status that its style function is given.

use vstd::prelude::*;

verus! {

/// Which side of the content a border layer is drawn on.
#[derive(Debug, Clone, Copy, PartialEq, Eq)]
pub enum BorderSide {
    /// Around the content, taking layout space.
    Outer,
    /// Over the content's edge, taking no space.
    Inner,
}

/// What the style function sees.
#[derive(Debug, Clone, Copy, PartialEq, Eq)]
pub struct Status {
    pub is_pressed: bool,
    pub is_hovered: bool,
    pub is_focused: bool,
    pub is_disabled: bool,
}

/// The pointer events that change the wrapper's state.
#[derive(Debug, Clone, Copy, PartialEq, Eq)]
pub enum PointerInput {
    LeftPressed,
    LeftReleased,
    FingerPressed,
    FingerLifted,
    Other,
}

/// The wrapper's state between frames.
#[derive(Debug, Clone, Copy, PartialEq, Eq)]
pub struct PressState {
    pub is_pressed: bool,
    pub is_focused: bool,
    pub is_hovered: bool,
}

/// The pressed flag after `input`; `inside` tells whether the event
/// happened over the wrapper.
pub open spec fn pressed_after(pressed: bool, input: PointerInput, inside: bool) -> bool {
    match input {
        PointerInput::LeftPressed | PointerInput::FingerPressed => inside,
        PointerInput::LeftReleased | PointerInput::FingerLifted => false,
        PointerInput::Other => pressed,
    }
}

impl PressState {
    pub fn new() -> (r: Self)
        ensures
            !r.is_pressed && !r.is_focused && !r.is_hovered,
    {
        PressState { is_pressed: false, is_focused: false, is_hovered: false }
    }

    /// Takes in one event. A press over the wrapper presses it, a press
    /// elsewhere releases it, a release releases it; focus then becomes
    /// `focus`, as the focus detector decided. Returns whether anything
    /// changed, so that a redraw is due.
    pub fn on_input(&mut self, input: PointerInput, inside: bool, focus: bool) -> (redraw: bool)
        ensures
            final(self).is_pressed == pressed_after(old(self).is_pressed, input, inside),
            final(self).is_focused == focus,
            final(self).is_hovered == old(self).is_hovered,
            redraw == (*final(self) != *old(self)),
    {
        let before = *self;
        match input {
            PointerInput::LeftPressed => {
                self.is_pressed = inside;
                self.is_focused = inside;
            },
            PointerInput::LeftReleased => {
                self.is_pressed = false;
            },
            PointerInput::FingerPressed => {
                self.is_focused = inside;
                self.is_pressed = inside;
            },
            PointerInput::FingerLifted => {
                self.is_pressed = false;
            },
            PointerInput::Other => {},
        }
        self.is_focused = focus;
        !(self.is_pressed == before.is_pressed && self.is_focused == before.is_focused
            && self.is_hovered == before.is_hovered)
    }

    /// The status given to the style function: a disabled wrapper never
    /// shows focus.
    pub fn status(&self, is_disabled: bool) -> (s: Status)
        ensures
            s == (Status {
                is_hovered: self.is_hovered,
                is_pressed: self.is_pressed,
                is_focused: !is_disabled && self.is_focused,
                is_disabled,
            }),
    {
        Status {
            is_hovered: self.is_hovered,
            is_pressed: self.is_pressed,
            is_focused: if is_disabled {
                false
            } else {
                self.is_focused
            },
            is_disabled,
        }
    }
}

/// Focus as the click-based detector sees it: a click inside focuses, no
/// click information means no focus.
pub fn click_focus(is_click_inside: Option<bool>) -> (r: bool)
    ensures
        r == (is_click_inside == Some(true)),
{
    match is_click_inside {
        Some(b) => b,
        None => false,
    }
}

/// A release always releases, wherever it happens, and a press decides by
/// where it happens; any other event (a move, a hover) leaves the pressed
/// flag as it was, so only a press inside ever presses; a disabled wrapper
/// never reports focus.
pub proof fn lemma_press_release(s: PressState, inside: bool, is_disabled: bool)
    ensures
        !pressed_after(s.is_pressed, PointerInput::LeftReleased, inside),
        !pressed_after(s.is_pressed, PointerInput::FingerLifted, inside),
        pressed_after(s.is_pressed, PointerInput::LeftPressed, inside) == inside,
        pressed_after(s.is_pressed, PointerInput::FingerPressed, inside) == inside,
        pressed_after(s.is_pressed, PointerInput::Other, inside) == s.is_pressed,
        forall|input: PointerInput|
            #![trigger pressed_after(s.is_pressed, input, inside)]
            pressed_after(s.is_pressed, input, inside) != s.is_pressed ==> input
                != PointerInput::Other,
        !s.is_pressed && !inside ==> forall|input: PointerInput|
            #![trigger pressed_after(false, input, false)]
            !pressed_after(false, input, false),
        is_disabled ==> !(Status {
            is_hovered: s.is_hovered,
            is_pressed: s.is_pressed,
            is_focused: !is_disabled && s.is_focused,
            is_disabled,
        }).is_focused,
{
}

} // verus!
