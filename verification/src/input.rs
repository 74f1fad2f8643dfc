//! The text input's decisions: the border it shows, the focus ring around
//! it, and where its error bubble goes.

use vstd::prelude::*;

verus! {

/// The text input's state, as iced reports it.
#[derive(Debug, Clone, Copy, PartialEq, Eq)]
pub enum InputStatus {
    Active,
    Hovered,
    Focused,
    Disabled,
}

/// The input's own border.
#[derive(Debug, Clone, Copy, PartialEq, Eq)]
pub enum InputBorder {
    /// The plain border, one pixel wide.
    Plain,
    /// No border: the focus ring stands in for it.
    Hidden,
    /// The error border, one pixel wide.
    Error,
}

/// The ring drawn around the input.
#[derive(Debug, Clone, Copy, PartialEq, Eq)]
pub enum FocusRing {
    /// No ring (a transparent one, or none when disabled).
    Transparent,
    Focused,
    FocusedError,
}

/// Where the error bubble goes relative to the input.
#[derive(Debug, Clone, Copy, PartialEq, Eq)]
pub enum BubblePlace {
    Above,
    Below,
    /// At the viewport's top edge: there is room on neither side, and no
    /// less above than below.
    ViewportTop,
    /// At the viewport's bottom edge: there is room on neither side, and
    /// less above than below.
    ViewportBottom,
}

/// A disabled input has the plain border; a focused one has none, unless
/// it is in error; any other shows the error border when in error and the
/// plain one otherwise.
pub fn input_border(status: InputStatus, is_error: bool) -> (r: InputBorder)
    ensures
        r == (if status == InputStatus::Disabled {
            InputBorder::Plain
        } else if is_error {
            InputBorder::Error
        } else if status == InputStatus::Focused {
            InputBorder::Hidden
        } else {
            InputBorder::Plain
        }),
{
    match (status, is_error) {
        (InputStatus::Disabled, _) => InputBorder::Plain,
        (InputStatus::Focused, false) => InputBorder::Hidden,
        (InputStatus::Focused, true) => InputBorder::Error,
        (_, true) => InputBorder::Error,
        (_, false) => InputBorder::Plain,
    }
}

/// The ring around a focused input shows focus, in the error color when
/// in error; an unfocused input's ring is transparent.
pub fn focus_ring(is_focused: bool, is_error: bool) -> (r: FocusRing)
    ensures
        r == (if !is_focused {
            FocusRing::Transparent
        } else if is_error {
            FocusRing::FocusedError
        } else {
            FocusRing::Focused
        }),
{
    match (is_focused, is_error) {
        (true, true) => FocusRing::FocusedError,
        (true, false) => FocusRing::Focused,
        (false, _) => FocusRing::Transparent,
    }
}

/// The bubble goes above when it fits there, else below when it fits
/// there, else to the viewport edge on the side with more room (the top
/// on a tie).
pub fn bubble_place(fits_above: bool, fits_below: bool, more_room_above: bool) -> (r: BubblePlace)
    ensures
        r == (if fits_above {
            BubblePlace::Above
        } else if fits_below {
            BubblePlace::Below
        } else if more_room_above {
            BubblePlace::ViewportTop
        } else {
            BubblePlace::ViewportBottom
        }),
{
    if fits_above {
        BubblePlace::Above
    } else if fits_below {
        BubblePlace::Below
    } else if more_room_above {
        BubblePlace::ViewportTop
    } else {
        BubblePlace::ViewportBottom
    }
}

/// The error bubble shows only for an input in error that has a message.
pub fn shows_bubble(is_error: bool, has_message: bool) -> (r: bool)
    ensures
        r == (is_error && has_message),
{
    is_error && has_message
}

} // verus!
