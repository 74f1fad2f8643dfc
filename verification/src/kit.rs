//! The Sonata design kit's handles. The kit builds iced widgets, which is
//! done outside the verified library; here stand the types that name it.

use std::marker::PhantomData;
use vstd::prelude::*;

verus! {

/// Hands out a Sonata kit for any message type.
#[derive(Clone, Copy, Debug, PartialEq, Eq)]
pub struct SonataProvider;

/// The Sonata kit for widgets that emit `Message`.
pub struct Sonata<Message> {
    _marker: PhantomData<Message>,
}

impl<Message> Sonata<Message> {
    pub fn new() -> Self {
        Sonata { _marker: PhantomData }
    }
}

impl<Message> Clone for Sonata<Message> {
    fn clone(&self) -> Self {
        Sonata { _marker: PhantomData }
    }
}

impl<Message> Default for Sonata<Message> {
    fn default() -> Self {
        Sonata { _marker: PhantomData }
    }
}

} // verus!
