//! Press handling of the spring-scaled layer and the collapsible sidebar.

use vstd::prelude::*;

use crate::border::PointerInput;

verus! {

/// The scale that the layer's spring heads to.
#[derive(Debug, Clone, Copy, PartialEq, Eq)]
pub enum ScaleTarget {
    Pressed,
    Released,
}

/// Whether the spring-scaled layer is held down.
#[derive(Debug, Clone, Copy, PartialEq, Eq)]
pub struct SpringPress {
    pub is_pressed: bool,
}

impl SpringPress {
    pub fn new() -> (r: Self)
        ensures
            !r.is_pressed,
    {
        SpringPress { is_pressed: false }
    }

    /// Takes in one event; `over` tells whether the pointer is over the
    /// layer as it is currently scaled. A left press over it presses it and
    /// heads the spring to the pressed scale; a left release of a pressed
    /// layer releases it and heads back. Any other event changes nothing.
    pub fn on_input(&mut self, input: PointerInput, over: bool) -> (r: Option<ScaleTarget>)
        ensures
            input == PointerInput::LeftPressed && over ==> final(self).is_pressed && r == Some(
                ScaleTarget::Pressed,
            ),
            input == PointerInput::LeftReleased && old(self).is_pressed ==> !final(self).is_pressed
                && r == Some(ScaleTarget::Released),
            !(input == PointerInput::LeftPressed && over) && !(input == PointerInput::LeftReleased
                && old(self).is_pressed) ==> r is None && *final(self) == *old(self),
    {
        match input {
            PointerInput::LeftPressed => {
                if over {
                    self.is_pressed = true;
                    return Some(ScaleTarget::Pressed);
                }
                None
            },
            PointerInput::LeftReleased => {
                if self.is_pressed {
                    self.is_pressed = false;
                    return Some(ScaleTarget::Released);
                }
                None
            },
            _ => None,
        }
    }
}

/// Whether the sidebar is folded.
#[derive(Debug, Clone, Copy, PartialEq, Eq)]
pub struct SidebarFold {
    pub collapsed: bool,
}

impl SidebarFold {
    pub fn new(collapsed: bool) -> (r: Self)
        ensures
            r.collapsed == collapsed,
    {
        SidebarFold { collapsed }
    }

    /// A left press on the header's toggle, when the header is shown, flips
    /// the fold; returns whether it did, so that the event is captured and
    /// the toggle message published.
    pub fn on_input(&mut self, show_header: bool, input: PointerInput, over_toggle: bool) -> (r:
        bool)
        ensures
            r == (show_header && input == PointerInput::LeftPressed && over_toggle),
            final(self).collapsed == (old(self).collapsed != r),
    {
        if show_header {
            if let PointerInput::LeftPressed = input {
                if over_toggle {
                    self.collapsed = !self.collapsed;
                    return true;
                }
            }
        }
        false
    }
}

} // verus!
