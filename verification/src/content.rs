//! What a button shows: a label, an icon, or both.

use vstd::prelude::*;

verus! {

/// A button's content; `I` is the icon type of the widget toolkit.
pub enum Content<'a, I> {
    Text(&'a str),
    Icon(I),
    Combined { icon: I, text: &'a str },
}

/// The content after a label is added: an icon gains the label, a
/// combined content has its label replaced, a label is replaced.
pub open spec fn with_text<'a, I>(c: Content<'a, I>, text: &'a str) -> Content<'a, I> {
    match c {
        Content::Icon(i) => Content::Combined { icon: i, text },
        Content::Combined { icon, .. } => Content::Combined { icon, text },
        Content::Text(_) => Content::Text(text),
    }
}

/// The content after an icon is added: a label gains the icon, a combined
/// content has its icon replaced, an icon is replaced.
pub open spec fn with_icon<'a, I>(c: Content<'a, I>, icon: I) -> Content<'a, I> {
    match c {
        Content::Text(text) => Content::Combined { icon, text },
        Content::Combined { text, .. } => Content::Combined { icon, text },
        Content::Icon(_) => Content::Icon(icon),
    }
}

impl<'a, I> Content<'a, I> {
    pub fn add_text(self, text: &'a str) -> (r: Self)
        ensures
            r == with_text(self, text),
    {
        match self {
            Content::Icon(i) => Content::Combined { icon: i, text },
            Content::Combined { icon, .. } => Content::Combined { icon, text },
            Content::Text(_) => Content::Text(text),
        }
    }

    pub fn add_icon(self, icon: I) -> (r: Self)
        ensures
            r == with_icon(self, icon),
    {
        match self {
            Content::Text(text) => Content::Combined { icon, text },
            Content::Combined { text, .. } => Content::Combined { icon, text },
            Content::Icon(_) => Content::Icon(icon),
        }
    }
}

/// Adding a label and an icon to any content gives the same content in either
/// order: both, with the new label and the new icon.
pub proof fn lemma_label_icon_commute<'a, I>(c: Content<'a, I>, text: &'a str, icon: I)
    ensures
        with_icon(with_text(c, text), icon) == (Content::Combined { icon, text }),
        with_text(with_icon(c, icon), text) == (Content::Combined { icon, text }),
{
}

/// The last label added wins, and so does the last icon.
pub proof fn lemma_last_addition_wins<'a, I>(c: Content<'a, I>, t1: &'a str, t2: &'a str, i1: I, i2: I)
    ensures
        with_text(with_text(c, t1), t2) == with_text(c, t2),
        with_icon(with_icon(c, i1), i2) == with_icon(c, i2),
{
}

} // verus!
