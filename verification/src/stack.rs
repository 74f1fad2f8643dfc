//! Page selection of the content stack: which page is shown, which one a
//! slide is heading to, which pages are laid out and drawn during a slide.

use vstd::prelude::*;

verus! {

/// The shown page and the page that a running slide heads to.
#[derive(Debug, Clone, Copy, PartialEq, Eq)]
pub struct ContentIndex {
    pub next: Option<usize>,
    pub current: usize,
}

/// A slide to start: its target page, and the range of pages (both ends
/// included) whose cached textures are now stale.
#[derive(Debug, Clone, Copy, PartialEq, Eq)]
pub struct SlideRequest {
    pub target: usize,
    pub invalidate_from: usize,
    pub invalidate_to: usize,
}

/// The highest valid page index of a stack of `len` pages (0 when empty).
pub open spec fn last_index(len: usize) -> int {
    if len == 0 {
        0
    } else {
        len - 1
    }
}

pub open spec fn min_int(a: int, b: int) -> int {
    if a <= b {
        a
    } else {
        b
    }
}

pub open spec fn max_int(a: int, b: int) -> int {
    if a >= b {
        a
    } else {
        b
    }
}

/// The page that the stack heads for: the slide's target, or the shown page.
pub open spec fn heading(ix: ContentIndex) -> int {
    match ix.next {
        Some(n) => n as int,
        None => ix.current as int,
    }
}

/// The page that a request for `requested` among `len` pages asks for.
pub open spec fn clamped(requested: usize, len: usize) -> int {
    min_int(requested as int, last_index(len))
}

/// Whether a request for `requested` starts a slide: the page the stack
/// heads for, clamped like the request, differs from the requested one.
pub open spec fn starts_slide(ix: ContentIndex, requested: usize, len: usize) -> bool {
    min_int(heading(ix), last_index(len)) != clamped(requested, len)
}

impl ContentIndex {
    pub fn new() -> (r: Self)
        ensures
            r.current == 0,
            r.next is None,
    {
        ContentIndex { next: None, current: 0 }
    }

    /// Asks for page `requested` of a stack of `len` pages. When that page
    /// (clamped to the last one) is not where the stack heads, a slide to
    /// it starts from the shown page; every page between the two, both
    /// included, is stale.
    pub fn request(&mut self, requested: usize, len: usize) -> (r: Option<SlideRequest>)
        ensures
            starts_slide(*old(self), requested, len) ==> {
                &&& final(self).next == Some(clamped(requested, len) as usize)
                &&& final(self).current == old(self).current
                &&& r == Some(
                    SlideRequest {
                        target: clamped(requested, len) as usize,
                        invalidate_from: min_int(old(self).current as int, clamped(requested, len))
                            as usize,
                        invalidate_to: max_int(old(self).current as int, clamped(requested, len))
                            as usize,
                    },
                )
            },
            !starts_slide(*old(self), requested, len) ==> r is None && *final(self) == *old(self),
    {
        let last = if len == 0 {
            0
        } else {
            len - 1
        };
        let target = if requested < last {
            requested
        } else {
            last
        };
        let heading = match self.next {
            Some(n) => n,
            None => self.current,
        };
        let heading_clamped = if heading < last {
            heading
        } else {
            last
        };
        if heading_clamped != target {
            self.next = Some(target);
            let from = self.current;
            let lo = if from < target {
                from
            } else {
                target
            };
            let hi = if from > target {
                from
            } else {
                target
            };
            Some(SlideRequest { target, invalidate_from: lo, invalidate_to: hi })
        } else {
            None
        }
    }

    /// Ends a slide: its target becomes the shown page.
    pub fn settle(&mut self)
        ensures
            final(self).next is None,
            final(self).current == heading(*old(self)),
    {
        if let Some(n) = self.next {
            self.current = n;
            self.next = None;
        }
    }

    /// Whether page `i` lies between the shown page and the page the stack
    /// heads for, both included: the pages drawn during a slide.
    pub fn in_slide(&self, i: usize) -> (r: bool)
        ensures
            r == (min_int(self.current as int, heading(*self)) <= i && i <= max_int(
                self.current as int,
                heading(*self),
            )),
    {
        let target = match self.next {
            Some(n) => n,
            None => self.current,
        };
        let lo = if self.current < target {
            self.current
        } else {
            target
        };
        let hi = if self.current > target {
            self.current
        } else {
            target
        };
        lo <= i && i <= hi
    }
}

/// The pages to lay out when the slide stands between pages `a` and `b`
/// (`a` the lower): `a` when it exists, then `b` when it exists and is
/// another page.
pub fn pages_to_layout(a: usize, b: usize, len: usize) -> (r: Vec<usize>)
    ensures
        r@ == (if a < len {
            seq![a]
        } else {
            Seq::<usize>::empty()
        }) + (if b < len && b != a {
            seq![b]
        } else {
            Seq::<usize>::empty()
        }),
{
    let mut r: Vec<usize> = Vec::new();
    if a < len {
        r.push(a);
    }
    if b < len && b != a {
        r.push(b);
    }
    proof {
        if a < len && b < len && b != a {
            assert(r@ =~= seq![a] + seq![b]);
        } else if a < len {
            assert(r@ =~= seq![a] + Seq::<usize>::empty());
        } else if b < len && b != a {
            assert(r@ =~= Seq::<usize>::empty() + seq![b]);
        } else {
            assert(r@ =~= Seq::<usize>::empty() + Seq::<usize>::empty());
        }
    }
    r
}

/// A request for the page the stack already heads for starts no slide:
/// asking twice in a row for one page starts at most one slide.
pub proof fn lemma_request_is_idempotent(ix: ContentIndex, requested: usize, len: usize)
    requires
        starts_slide(ix, requested, len),
    ensures
        !starts_slide(
            ContentIndex { next: Some(clamped(requested, len) as usize), current: ix.current },
            requested,
            len,
        ),
{
}

/// A slide's target is a page of the stack, and the stale range runs from
/// the shown page to the target.
pub proof fn lemma_slide_target_in_range(ix: ContentIndex, requested: usize, len: usize)
    requires
        len > 0,
    ensures
        0 <= clamped(requested, len) < len,
        min_int(ix.current as int, clamped(requested, len)) <= clamped(requested, len) <= max_int(
            ix.current as int,
            clamped(requested, len),
        ),
{
}

/// Once a slide settles on the requested page, asking for that page again
/// starts nothing.
pub proof fn lemma_settled_request_is_quiet(ix: ContentIndex, requested: usize, len: usize)
    requires
        starts_slide(ix, requested, len),
    ensures
        !starts_slide(
            ContentIndex { next: None, current: clamped(requested, len) as usize },
            requested,
            len,
        ),
{
}

} // verus!
