//! Back/forward navigation history over page ids, as a browser keeps it.

use vstd::prelude::*;

verus! {

/// A step through the history, as the mouse's back and forward buttons ask.
#[derive(Debug, Clone, Copy, PartialEq, Eq)]
pub enum NavigationChange {
    Back,
    Forward,
}

/// The history as a sequence of visited page ids with a cursor on the
/// page that is shown.
pub struct NavigationHistory {
    history: Vec<usize>,
    cursor: usize,
}

/// An empty history has its cursor at 0; a non-empty one has it on an entry.
pub open spec fn history_wf(entries: Seq<usize>, cursor: int) -> bool {
    &&& entries.len() == 0 ==> cursor == 0
    &&& entries.len() > 0 ==> 0 <= cursor < entries.len()
}

/// The entries that survive a push: all of them when the history is empty,
/// otherwise those up to and including the cursor.
pub open spec fn kept_on_push(entries: Seq<usize>, cursor: int) -> Seq<usize> {
    if entries.len() == 0 {
        entries
    } else {
        entries.take(cursor + 1)
    }
}

/// The forward entries that a push discards.
pub open spec fn dropped_on_push(entries: Seq<usize>, cursor: int) -> Seq<usize> {
    if entries.len() == 0 {
        Seq::empty()
    } else {
        entries.skip(cursor + 1)
    }
}

/// Whether a step back is possible from this cursor.
pub open spec fn can_go_back(entries: Seq<usize>, cursor: int) -> bool {
    cursor > 0
}

/// Whether a step forward is possible from this cursor.
pub open spec fn can_go_forward(entries: Seq<usize>, cursor: int) -> bool {
    cursor + 1 < entries.len()
}

/// A step back: the new cursor and the page it lands on, or the same
/// cursor and nothing when there is no earlier entry.
pub open spec fn back_step(entries: Seq<usize>, cursor: int) -> (int, Option<usize>) {
    if can_go_back(entries, cursor) {
        (cursor - 1, Some(entries[cursor - 1]))
    } else {
        (cursor, None)
    }
}

/// A step forward: the new cursor and the page it lands on, or the same
/// cursor and nothing when there is no later entry.
pub open spec fn forward_step(entries: Seq<usize>, cursor: int) -> (int, Option<usize>) {
    if can_go_forward(entries, cursor) {
        (cursor + 1, Some(entries[cursor + 1]))
    } else {
        (cursor, None)
    }
}

impl NavigationHistory {
    /// The cursor lies on an entry, or at 0 in an empty history.
    pub open spec fn wf(self) -> bool {
        history_wf(self.entries(), self.cursor())
    }

    /// The visited page ids, oldest first.
    pub closed spec fn entries(self) -> Seq<usize> {
        self.history@
    }

    /// The position of the shown page in `entries()`.
    pub closed spec fn cursor(self) -> int {
        self.cursor as int
    }

    pub fn new() -> (h: Self)
        ensures
            h.entries() == Seq::<usize>::empty(),
            h.cursor() == 0,
            h.wf(),
    {
        NavigationHistory { history: Vec::new(), cursor: 0 }
    }

    /// As `new`; the capacity only reserves room.
    pub fn with_capacity(capacity: usize) -> (h: Self)
        ensures
            h.entries() == Seq::<usize>::empty(),
            h.cursor() == 0,
            h.wf(),
    {
        NavigationHistory { history: Vec::with_capacity(capacity), cursor: 0 }
    }

    /// Visits `page`: drops every entry after the cursor, appends `page`
    /// and moves the cursor onto it. Returns the dropped entries in order.
    pub fn push_history(&mut self, page: usize) -> (removed: Vec<usize>)
        requires
            old(self).wf(),
        ensures
            removed@ == dropped_on_push(old(self).entries(), old(self).cursor()),
            final(self).entries() == kept_on_push(old(self).entries(), old(self).cursor()).push(page),
            final(self).cursor() == final(self).entries().len() - 1,
            final(self).wf(),
    {
        let mut removed = Vec::new();
        if self.history.len() > 0 {
            let cut = self.cursor + 1;
            if cut < self.history.len() {
                removed = self.history.split_off(cut);
            }
            assert(self.history@ =~= kept_on_push(old(self).entries(), old(self).cursor()));
        }
        proof {
            assert(removed@ =~= dropped_on_push(old(self).entries(), old(self).cursor()));
        }
        self.history.push(page);
        self.cursor = self.history.len() - 1;
        removed
    }

    /// Whether `page` was visited and is still in the history.
    pub fn contains(&self, page: usize) -> (r: bool)
        ensures
            r == self.entries().contains(page),
    {
        let mut i: usize = 0;
        while i < self.history.len()
            invariant
                0 <= i <= self.history@.len(),
                forall|j: int| 0 <= j < i ==> self.history@[j] != page,
            decreases self.history@.len() - i,
        {
            if self.history[i] == page {
                assert(self.history@[i as int] == page);
                return true;
            }
            i += 1;
        }
        false
    }

    /// Moves the cursor one entry back and returns the page there, if any.
    pub fn nav_back(&mut self) -> (r: Option<usize>)
        requires
            old(self).wf(),
        ensures
            final(self).entries() == old(self).entries(),
            final(self).wf(),
            (final(self).cursor(), r) == back_step(old(self).entries(), old(self).cursor()),
    {
        if self.cursor > 0 {
            self.cursor = self.cursor - 1;
            return Some(self.history[self.cursor]);
        }
        None
    }

    /// Moves the cursor one entry forward and returns the page there, if any.
    pub fn nav_forward(&mut self) -> (r: Option<usize>)
        requires
            old(self).wf(),
        ensures
            final(self).entries() == old(self).entries(),
            final(self).wf(),
            (final(self).cursor(), r) == forward_step(old(self).entries(), old(self).cursor()),
    {
        let len = self.history.len();
        if len > 0 && self.cursor < len - 1 {
            self.cursor = self.cursor + 1;
            return Some(self.history[self.cursor]);
        }
        None
    }
}

/// A push loses nothing: the entries it keeps, followed by the entries it
/// returns, are exactly the history before the push.
pub proof fn lemma_push_partitions_history(entries: Seq<usize>, cursor: int)
    requires
        history_wf(entries, cursor),
    ensures
        kept_on_push(entries, cursor) + dropped_on_push(entries, cursor) == entries,
{
    assert(kept_on_push(entries, cursor) + dropped_on_push(entries, cursor) =~= entries);
}

/// What a push keeps and drops, by position: in a non-empty history it
/// keeps exactly the entries up to and including the cursor, and drops
/// exactly the entries after it, in order; so after the push the history
/// is those entries followed by the pushed page, and a step back from the
/// pushed page reaches the former shown page with nothing beyond it that
/// was after the cursor.
pub proof fn lemma_push_keeps_up_to_cursor(entries: Seq<usize>, cursor: int, page: usize)
    requires
        history_wf(entries, cursor),
        entries.len() > 0,
    ensures
        kept_on_push(entries, cursor).len() == cursor + 1,
        forall|i: int| 0 <= i <= cursor ==> #[trigger] kept_on_push(entries, cursor)[i] == entries[i],
        dropped_on_push(entries, cursor).len() == entries.len() - cursor - 1,
        forall|j: int|
            0 <= j < entries.len() - cursor - 1 ==> #[trigger] dropped_on_push(entries, cursor)[j]
                == entries[cursor + 1 + j],
        kept_on_push(entries, cursor).push(page).len() == cursor + 2,
{
}

/// Pushing onto an empty history keeps nothing, drops nothing, and leaves
/// the pushed page alone in it.
pub proof fn lemma_push_onto_empty(page: usize)
    ensures
        kept_on_push(Seq::<usize>::empty(), 0).push(page) == seq![page],
        dropped_on_push(Seq::<usize>::empty(), 0).len() == 0,
{
    assert(kept_on_push(Seq::<usize>::empty(), 0).push(page) =~= seq![page]);
}

/// After a push there is nowhere to go forward, the pushed page is the one
/// shown, and it is in the history.
pub proof fn lemma_push_ends_history(entries: Seq<usize>, cursor: int, page: usize)
    requires
        history_wf(entries, cursor),
    ensures
        ({
            let e = kept_on_push(entries, cursor).push(page);
            &&& !can_go_forward(e, e.len() - 1)
            &&& e[e.len() - 1] == page
            &&& e.contains(page)
            &&& history_wf(e, e.len() - 1)
        }),
{
    let e = kept_on_push(entries, cursor).push(page);
    assert(e[e.len() - 1] == page);
}

/// After a push onto a non-empty history, a step back shows the page that
/// was shown before the push.
pub proof fn lemma_push_then_back(entries: Seq<usize>, cursor: int, page: usize)
    requires
        history_wf(entries, cursor),
        entries.len() > 0,
    ensures
        ({
            let e = kept_on_push(entries, cursor).push(page);
            &&& can_go_back(e, e.len() - 1)
            &&& e[e.len() - 2] == entries[cursor]
        }),
{
}

/// A step back that lands on a page is undone by a step forward, which
/// comes back to the former cursor and shows the former page.
pub proof fn lemma_back_then_forward(entries: Seq<usize>, cursor: int)
    requires
        history_wf(entries, cursor),
        back_step(entries, cursor).1 is Some,
    ensures
        history_wf(entries, back_step(entries, cursor).0),
        forward_step(entries, back_step(entries, cursor).0) == (cursor, Some(entries[cursor])),
{
}

/// A step forward that lands on a page is undone by a step back.
pub proof fn lemma_forward_then_back(entries: Seq<usize>, cursor: int)
    requires
        history_wf(entries, cursor),
        forward_step(entries, cursor).1 is Some,
    ensures
        history_wf(entries, forward_step(entries, cursor).0),
        back_step(entries, forward_step(entries, cursor).0) == (cursor, Some(entries[cursor])),
{
}

/// Stepping never leaves the history: a step that lands on a page lands on
/// an entry, and a step with nowhere to go keeps the cursor.
pub proof fn lemma_steps_keep_wf(entries: Seq<usize>, cursor: int)
    requires
        history_wf(entries, cursor),
    ensures
        history_wf(entries, back_step(entries, cursor).0),
        history_wf(entries, forward_step(entries, cursor).0),
{
}

} // verus!
