//! The page router's bookkeeping: which pages exist, which one is shown,
//! which hold a live instance, which are suspended, and the navigation
//! history. Each navigation returns the lifecycle steps that the caller
//! performs on the page instances and the snapshot store.

use std::any::TypeId;
use vstd::prelude::*;

use crate::history::{
    back_step, dropped_on_push, forward_step, kept_on_push, NavigationChange, NavigationHistory,
};
use crate::type_map::TypeMap;

verus! {

/// What happens to a page's instance when another page is shown.
#[derive(Debug, Clone, Copy, PartialEq, Eq)]
pub enum LifeCycle {
    /// The instance is dropped; a snapshot of it may be kept.
    Drop,
    /// The instance is kept and told that it is suspended.
    Suspend,
}

/// What the router knows of one page.
pub struct PageRecord {
    pub type_id: TypeId,
    pub lifecycle: LifeCycle,
    pub override_parent_styling: bool,
    /// The page has a live instance.
    pub has_instance: bool,
    /// The page was left while its lifecycle is `Suspend`.
    pub suspended: bool,
    pub label: String,
}

/// The step to take on the page that is left.
#[derive(Debug, Clone, Copy, PartialEq, Eq)]
pub enum LeaveStep {
    /// Tell the instance that it is suspended; it stays alive.
    Suspend(usize),
    /// Drop the instance, after saving its snapshot under the type id.
    Dispose(usize, TypeId),
}

/// The step to take on the page that is shown.
#[derive(Debug, Clone, Copy, PartialEq, Eq)]
pub enum EnterStep {
    /// Build a new instance and restore the snapshot saved under the type id.
    Create(usize, TypeId),
    /// Tell the suspended instance that it is resumed.
    Resume(usize),
}

/// The steps of one change of the shown page, performed leave first.
#[derive(Debug, Clone, Copy, PartialEq, Eq)]
pub struct PageSwitch {
    pub leave: Option<LeaveStep>,
    pub enter: Option<EnterStep>,
}

/// The result of a navigation to a page: the page shown, the switch to
/// perform, then the type ids whose snapshots to drop.
pub struct Navigation {
    pub page: usize,
    pub switch: PageSwitch,
    pub drop_snapshots: Vec<TypeId>,
}

/// The record of a page that is left.
pub open spec fn left_record(r: PageRecord) -> PageRecord {
    match r.lifecycle {
        LifeCycle::Suspend => PageRecord { suspended: true, ..r },
        LifeCycle::Drop => PageRecord { has_instance: false, suspended: false, ..r },
    }
}

/// The record of a page that is shown.
pub open spec fn entered_record(r: PageRecord) -> PageRecord {
    PageRecord { has_instance: true, suspended: false, ..r }
}

/// The step for the page `from` that is left.
pub open spec fn leave_step(pages: Seq<PageRecord>, from: usize) -> LeaveStep {
    match pages[from as int].lifecycle {
        LifeCycle::Suspend => LeaveStep::Suspend(from),
        LifeCycle::Drop => LeaveStep::Dispose(from, pages[from as int].type_id),
    }
}

/// The step for the page `to` that is shown: a new instance when it has
/// none, a resume when it is suspended, nothing otherwise.
pub open spec fn enter_step(pages: Seq<PageRecord>, to: usize) -> Option<EnterStep> {
    if !pages[to as int].has_instance {
        Some(EnterStep::Create(to, pages[to as int].type_id))
    } else if pages[to as int].suspended {
        Some(EnterStep::Resume(to))
    } else {
        None
    }
}

/// The switch from the shown page `current` to `to`; nothing at all when
/// `to` is already shown.
pub open spec fn switch_plan(pages: Seq<PageRecord>, current: Option<usize>, to: usize) -> PageSwitch {
    if current == Some(to) {
        PageSwitch { leave: None, enter: None }
    } else {
        PageSwitch {
            leave: match current {
                Some(from) => Some(leave_step(pages, from)),
                None => None,
            },
            enter: enter_step(pages, to),
        }
    }
}

/// The page records after the switch from `current` to `to`.
pub open spec fn switched_pages(pages: Seq<PageRecord>, current: Option<usize>, to: usize) -> Seq<
    PageRecord,
> {
    if current == Some(to) {
        pages
    } else {
        let p = match current {
            Some(from) => pages.update(from as int, left_record(pages[from as int])),
            None => pages,
        };
        p.update(to as int, entered_record(p[to as int]))
    }
}

/// The type ids whose snapshots go when the history drops `removed`:
/// those of the dropped pages that are neither still in the history
/// `kept` nor shown, in the order in which they were dropped.
pub open spec fn snapshot_drops(
    pages: Seq<PageRecord>,
    removed: Seq<usize>,
    kept: Seq<usize>,
    current: Option<usize>,
) -> Seq<TypeId>
    decreases removed.len(),
{
    if removed.len() == 0 {
        Seq::empty()
    } else {
        let rest = snapshot_drops(pages, removed.drop_last(), kept, current);
        let id = removed.last();
        if !kept.contains(id) && current != Some(id) {
            rest.push(pages[id as int].type_id)
        } else {
            rest
        }
    }
}

/// The router's state.
pub struct RouteTable {
    pages: Vec<PageRecord>,
    index: TypeMap<usize>,
    current: Option<usize>,
    history: NavigationHistory,
}

impl RouteTable {
    /// The pages in the order in which they were added; a page's id is its
    /// position.
    pub closed spec fn pages(&self) -> Seq<PageRecord> {
        self.pages@
    }

    /// For each page type, the id of the last page added with it.
    pub closed spec fn index(&self) -> Map<TypeId, usize> {
        self.index@
    }

    /// The page shown, if any.
    pub closed spec fn shown(&self) -> Option<usize> {
        self.current
    }

    /// The navigation history's entries.
    pub closed spec fn history_entries(&self) -> Seq<usize> {
        self.history.entries()
    }

    /// The navigation history's cursor.
    pub closed spec fn history_cursor(&self) -> int {
        self.history.cursor()
    }

    /// The router's invariant: the index maps each type to the last page
    /// of that type; the shown page has a live instance and is not
    /// suspended; only live, left pages of a `Suspend` lifecycle are
    /// suspended; the history holds page ids only.
    pub closed spec fn wf(&self) -> bool {
        &&& self.index.wf()
        &&& self.history.wf()
        &&& forall|k: TypeId| #[trigger]
            self.index@.contains_key(k) ==> {
                &&& self.index@[k] < self.pages@.len()
                &&& self.pages@[self.index@[k] as int].type_id == k
            }
        &&& forall|i: int|
            0 <= i < self.pages@.len() ==> {
                &&& self.index@.contains_key(#[trigger] self.pages@[i].type_id)
                &&& i <= self.index@[self.pages@[i].type_id]
            }
        &&& self.current matches Some(c) ==> {
            &&& c < self.pages@.len()
            &&& self.pages@[c as int].has_instance
            &&& !self.pages@[c as int].suspended
        }
        &&& forall|i: int|
            0 <= i < self.pages@.len() && #[trigger] self.pages@[i].suspended ==> {
                &&& self.pages@[i].lifecycle == LifeCycle::Suspend
                &&& self.pages@[i].has_instance
                &&& self.current != Some(i as usize)
            }
        &&& forall|j: int|
            0 <= j < self.history.entries().len() ==> #[trigger] self.history.entries()[j]
                < self.pages@.len()
    }

    pub fn new() -> (r: Self)
        ensures
            r.wf(),
            r.pages() == Seq::<PageRecord>::empty(),
            r.index() == Map::<TypeId, usize>::empty(),
            r.shown() is None,
            r.history_entries() == Seq::<usize>::empty(),
    {
        RouteTable {
            pages: Vec::new(),
            index: TypeMap::new(),
            current: None,
            history: NavigationHistory::with_capacity(50),
        }
    }

    /// The number of pages.
    pub fn len(&self) -> (r: usize)
        ensures
            r == self.pages().len(),
    {
        self.pages.len()
    }

    /// The page shown, if any.
    pub fn current(&self) -> (r: Option<usize>)
        ensures
            r == self.shown(),
    {
        self.current
    }

    /// The record of page `id`.
    pub fn page(&self, id: usize) -> (r: &PageRecord)
        requires
            id < self.pages().len(),
        ensures
            *r == self.pages()[id as int],
    {
        &self.pages[id]
    }

    /// Each page's id with its label, in id order.
    pub fn labels(&self) -> (r: Vec<(usize, &str)>)
        ensures
            r@.len() == self.pages().len(),
            forall|i: int|
                0 <= i < r@.len() ==> #[trigger] r@[i].0 == i && r@[i].1@ == self.pages()[i].label@,
    {
        let mut out: Vec<(usize, &str)> = Vec::new();
        let mut i: usize = 0;
        while i < self.pages.len()
            invariant
                0 <= i <= self.pages@.len(),
                out@.len() == i,
                forall|j: int|
                    0 <= j < i ==> #[trigger] out@[j].0 == j && out@[j].1@ == self.pages@[j].label@,
            decreases self.pages@.len() - i,
        {
            out.push((i, self.pages[i].label.as_str()));
            i += 1;
        }
        out
    }

    /// Adds a page of type `type_id` and returns its id. The type now
    /// leads to this page. An `eager` page is added with a live instance,
    /// which the caller builds.
    pub fn add(
        &mut self,
        type_id: TypeId,
        lifecycle: LifeCycle,
        eager: bool,
        override_parent_styling: bool,
        label: String,
    ) -> (id: usize)
        requires
            old(self).wf(),
        ensures
            final(self).wf(),
            id == old(self).pages().len(),
            final(self).pages() == old(self).pages().push(
                PageRecord {
                    type_id,
                    lifecycle,
                    override_parent_styling,
                    has_instance: eager,
                    suspended: false,
                    label,
                },
            ),
            final(self).index() == old(self).index().insert(type_id, id),
            final(self).shown() == old(self).shown(),
            final(self).history_entries() == old(self).history_entries(),
            final(self).history_cursor() == old(self).history_cursor(),
    {
        let id = self.pages.len();
        self.pages.push(
            PageRecord {
                type_id,
                lifecycle,
                override_parent_styling,
                has_instance: eager,
                suspended: false,
                label,
            },
        );
        self.index.insert(type_id, id);
        proof {
            let p = self.pages@;
            assert forall|k: TypeId| #[trigger] self.index@.contains_key(k) implies {
                &&& self.index@[k] < p.len()
                &&& p[self.index@[k] as int].type_id == k
            } by {
                if k != type_id {
                    assert(old(self).index@.contains_key(k));
                }
            }
            assert forall|i: int| 0 <= i < p.len() implies {
                &&& self.index@.contains_key(#[trigger] p[i].type_id)
                &&& i <= self.index@[p[i].type_id]
            } by {
                if i < id {
                    assert(p[i] == old(self).pages@[i]);
                }
            }
            assert forall|i: int| 0 <= i < p.len() && #[trigger] p[i].suspended implies {
                &&& p[i].lifecycle == LifeCycle::Suspend
                &&& p[i].has_instance
                &&& self.current != Some(i as usize)
            } by {
                assert(p[i] == old(self).pages@[i]);
            }
        }
        id
    }

    /// Shows page `to`: the page shown so far is left as its lifecycle
    /// says, and `to` gets a live instance and is no longer suspended.
    /// The history is not touched.
    pub fn set_current(&mut self, to: usize) -> (s: PageSwitch)
        requires
            old(self).wf(),
            to < old(self).pages().len(),
        ensures
            final(self).wf(),
            s == switch_plan(old(self).pages(), old(self).shown(), to),
            final(self).pages() == switched_pages(old(self).pages(), old(self).shown(), to),
            final(self).shown() == Some(to),
            final(self).index() == old(self).index(),
            final(self).history_entries() == old(self).history_entries(),
            final(self).history_cursor() == old(self).history_cursor(),
    {
        let ghost p0 = self.pages@;
        if let Some(c) = self.current {
            if c == to {
                return PageSwitch { leave: None, enter: None };
            }
        }
        let leave = match self.current {
            Some(from) => {
                match self.pages[from].lifecycle {
                    LifeCycle::Suspend => {
                        self.pages[from].suspended = true;
                        Some(LeaveStep::Suspend(from))
                    },
                    LifeCycle::Drop => {
                        self.pages[from].has_instance = false;
                        self.pages[from].suspended = false;
                        Some(LeaveStep::Dispose(from, self.pages[from].type_id))
                    },
                }
            },
            None => None,
        };
        let ghost p1 = self.pages@;
        assert(p1 == match old(self).current {
            Some(from) => p0.update(from as int, left_record(p0[from as int])),
            None => p0,
        });
        let enter = if !self.pages[to].has_instance {
            Some(EnterStep::Create(to, self.pages[to].type_id))
        } else if self.pages[to].suspended {
            Some(EnterStep::Resume(to))
        } else {
            None
        };
        self.pages[to].has_instance = true;
        self.pages[to].suspended = false;
        self.current = Some(to);
        proof {
            let p = self.pages@;
            assert(p =~= p1.update(to as int, entered_record(p1[to as int])));
            assert forall|k: TypeId| #[trigger] self.index@.contains_key(k) implies {
                &&& self.index@[k] < p.len()
                &&& p[self.index@[k] as int].type_id == k
            } by {
                assert(old(self).index@.contains_key(k));
            }
            assert forall|i: int| 0 <= i < p.len() implies {
                &&& self.index@.contains_key(#[trigger] p[i].type_id)
                &&& i <= self.index@[p[i].type_id]
            } by {
                assert(p[i].type_id == p0[i].type_id);
            }
            assert forall|i: int| 0 <= i < p.len() && #[trigger] p[i].suspended implies {
                &&& p[i].lifecycle == LifeCycle::Suspend
                &&& p[i].has_instance
                &&& self.current != Some(i as usize)
            } by {
                let iu = i as usize;
                assert(iu as int == i);
                if i != to as int {
                    match old(self).current {
                        Some(from) => {
                            if from as int == i {
                                assert(p[i] == left_record(p0[i]));
                                assert(p0[i].has_instance);
                            } else {
                                assert(p[i] == p0[i]);
                            }
                        },
                        None => {
                            assert(p[i] == p0[i]);
                        },
                    }
                }
            }
            assert forall|j: int| 0 <= j < self.history.entries().len() implies #[trigger]
                self.history.entries()[j] < p.len() by {
                assert(old(self).history.entries()[j] < p0.len());
            }
        }
        PageSwitch { leave, enter }
    }
    /// The type ids whose snapshots go after the history dropped
    /// `removed`: see `snapshot_drops`.
    fn cleanup_snapshots(&self, removed: &Vec<usize>) -> (r: Vec<TypeId>)
        requires
            self.wf(),
            forall|j: int| 0 <= j < removed@.len() ==> #[trigger] removed@[j] < self.pages@.len(),
        ensures
            r@ == snapshot_drops(self.pages@, removed@, self.history.entries(), self.current),
    {
        let mut out: Vec<TypeId> = Vec::new();
        let mut i: usize = 0;
        while i < removed.len()
            invariant
                self.wf(),
                0 <= i <= removed@.len(),
                forall|j: int| 0 <= j < removed@.len() ==> #[trigger] removed@[j] < self.pages@.len(),
                out@ == snapshot_drops(
                    self.pages@,
                    removed@.take(i as int),
                    self.history.entries(),
                    self.current,
                ),
            decreases removed@.len() - i,
        {
            let id = removed[i];
            assert(removed@.take(i as int + 1).drop_last() =~= removed@.take(i as int));
            assert(removed@.take(i as int + 1).last() == id);
            let shown = match self.current {
                Some(c) => c == id,
                None => false,
            };
            if !self.history.contains(id) && !shown {
                out.push(self.pages[id].type_id);
            }
            i += 1;
        }
        assert(removed@.take(removed@.len() as int) =~= removed@);
        out
    }

    /// Shows page `id` and records it in the history; nothing happens when
    /// there is no such page. The history's forward entries are dropped,
    /// and with them the snapshots of pages that are no longer reachable.
    pub fn navigate_id(&mut self, id: usize) -> (r: Option<Navigation>)
        requires
            old(self).wf(),
        ensures
            final(self).wf(),
            id >= old(self).pages().len() ==> r is None && *final(self) == *old(self),
            id < old(self).pages().len() ==> (r matches Some(n) && n.page == id
                && navigated(*old(self), *final(self), id, n)),
    {
        if id < self.pages.len() {
            Some(self.go_to(id))
        } else {
            None
        }
    }

    /// Shows the last page added with type `type_id` and records it in the
    /// history, as `navigate_id` does; nothing happens when no page has
    /// this type.
    pub fn navigate_type(&mut self, type_id: TypeId) -> (r: Option<Navigation>)
        requires
            old(self).wf(),
        ensures
            final(self).wf(),
            !old(self).index().contains_key(type_id) ==> r is None && *final(self) == *old(self),
            old(self).index().contains_key(type_id) ==> (r matches Some(n) && n.page == old(
                self,
            ).index()[type_id] && navigated(*old(self), *final(self), n.page, n)),
    {
        match self.index.get(&type_id) {
            Some(id) => {
                let id = *id;
                Some(self.go_to(id))
            },
            None => None,
        }
    }

    fn go_to(&mut self, id: usize) -> (n: Navigation)
        requires
            old(self).wf(),
            id < old(self).pages().len(),
        ensures
            final(self).wf(),
            n.page == id,
            navigated(*old(self), *final(self), id, n),
    {
        let switch = self.set_current(id);
        let removed = self.history.push_history(id);
        proof {
            let e = self.history.entries();
            let old_e = old(self).history.entries();
            let c = old(self).history.cursor();
            assert forall|j: int| 0 <= j < e.len() implies #[trigger] e[j] < self.pages@.len() by {
                if j < e.len() - 1 {
                    if old_e.len() > 0 {
                        assert(e[j] == old_e[j]);
                    }
                }
            }
            assert forall|j: int| 0 <= j < removed@.len() implies #[trigger] removed@[j]
                < self.pages@.len() by {
                assert(removed@[j] == old_e[c + 1 + j]);
            }
        }
        let drop_snapshots = self.cleanup_snapshots(&removed);
        Navigation { page: id, switch, drop_snapshots }
    }

    /// Steps back or forward in the history and shows the page there;
    /// nothing happens when there is no entry in that direction.
    pub fn navigate(&mut self, change: NavigationChange) -> (r: Option<PageSwitch>)
        requires
            old(self).wf(),
        ensures
            final(self).wf(),
            ({
                let (cursor, page) = match change {
                    NavigationChange::Back => back_step(
                        old(self).history_entries(),
                        old(self).history_cursor(),
                    ),
                    NavigationChange::Forward => forward_step(
                        old(self).history_entries(),
                        old(self).history_cursor(),
                    ),
                };
                &&& final(self).history_entries() == old(self).history_entries()
                &&& final(self).history_cursor() == cursor
                &&& final(self).index() == old(self).index()
                &&& match page {
                    None => r is None && final(self).pages() == old(self).pages()
                        && final(self).shown() == old(self).shown(),
                    Some(to) => r == Some(switch_plan(old(self).pages(), old(self).shown(), to))
                        && final(self).pages() == switched_pages(
                        old(self).pages(),
                        old(self).shown(),
                        to,
                    ) && final(self).shown() == Some(to),
                }
            }),
    {
        let step = match change {
            NavigationChange::Back => self.history.nav_back(),
            NavigationChange::Forward => self.history.nav_forward(),
        };
        match step {
            Some(to) => {
                proof {
                    let e = self.history.entries();
                    assert(e[self.history.cursor()] == to);
                }
                Some(self.set_current(to))
            },
            None => None,
        }
    }
}

/// `after` is `before` after showing page `id` and recording it in the
/// history, and `n` tells what to do for it.
pub open spec fn navigated(before: RouteTable, after: RouteTable, id: usize, n: Navigation) -> bool {
    let kept = kept_on_push(before.history_entries(), before.history_cursor()).push(id);
    &&& n.switch == switch_plan(before.pages(), before.shown(), id)
    &&& after.pages() == switched_pages(before.pages(), before.shown(), id)
    &&& after.shown() == Some(id)
    &&& after.index() == before.index()
    &&& after.history_entries() == kept
    &&& after.history_cursor() == kept.len() - 1
    &&& n.drop_snapshots@ == snapshot_drops(
        after.pages(),
        dropped_on_push(before.history_entries(), before.history_cursor()),
        kept,
        Some(id),
    )
}


/// In any valid router the shown page has a live instance and is not
/// suspended, every suspended page is a live page of a `Suspend` lifecycle
/// that is not shown, every history entry is a page, and the index leads
/// each type to the last page added with it.
pub proof fn lemma_router_invariant(t: RouteTable)
    requires
        t.wf(),
    ensures
        t.shown() matches Some(c) ==> c < t.pages().len() && t.pages()[c as int].has_instance
            && !t.pages()[c as int].suspended,
        forall|i: int|
            0 <= i < t.pages().len() && #[trigger] t.pages()[i].suspended ==> t.pages()[i].lifecycle
                == LifeCycle::Suspend && t.pages()[i].has_instance && t.shown() != Some(i as usize),
        forall|j: int|
            0 <= j < t.history_entries().len() ==> #[trigger] t.history_entries()[j]
                < t.pages().len(),
        forall|k: TypeId| #[trigger]
            t.index().contains_key(k) ==> t.index()[k] < t.pages().len() && t.pages()[t.index()[k] as int].type_id == k
                && forall|i: int| 0 <= i < t.pages().len() && t.pages()[i].type_id == k ==> i <= t.index()[k],
{
    assert forall|k: TypeId| #[trigger] t.index().contains_key(k) implies t.index()[k] < t.pages().len()
        && t.pages()[t.index()[k] as int].type_id == k && forall|i: int|
        0 <= i < t.pages().len() && t.pages()[i].type_id == k ==> i <= t.index()[k] by {
        assert forall|i: int| 0 <= i < t.pages().len() && t.pages()[i].type_id == k implies i <= t.index()[k] by {
            assert(t.index@.contains_key(t.pages@[i].type_id));
        }
    }
}

/// Showing the page that is already shown takes no step and changes no page.
pub proof fn lemma_switch_to_shown_is_noop(pages: Seq<PageRecord>, to: usize)
    ensures
        switch_plan(pages, Some(to), to) == (PageSwitch { leave: None, enter: None }),
        switched_pages(pages, Some(to), to) == pages,
{
}

/// Leaving a page keeps its instance when its lifecycle is `Suspend` and
/// drops it when its lifecycle is `Drop`; the page shown instead is live
/// and not suspended; every other page is untouched.
pub proof fn lemma_switch_effects(pages: Seq<PageRecord>, from: usize, to: usize)
    requires
        from < pages.len(),
        to < pages.len(),
        from != to,
    ensures
        ({
            let after = switched_pages(pages, Some(from), to);
            &&& after.len() == pages.len()
            &&& pages[from as int].lifecycle == LifeCycle::Suspend ==> after[from as int].has_instance
                == pages[from as int].has_instance && after[from as int].suspended
            &&& pages[from as int].lifecycle == LifeCycle::Drop ==> !after[from as int].has_instance
                && !after[from as int].suspended
            &&& after[to as int].has_instance && !after[to as int].suspended
            &&& forall|i: int| 0 <= i < pages.len() && i != from && i != to ==> #[trigger] after[i] == pages[i]
        }),
{
}

/// Coming back to a page that was left: a `Suspend` page that was live is
/// resumed, never rebuilt; a `Drop` page is rebuilt from its type, so its
/// snapshot can be restored.
pub proof fn lemma_return_after_leave(pages: Seq<PageRecord>, from: usize, to: usize)
    requires
        from < pages.len(),
        to < pages.len(),
        from != to,
        pages[from as int].has_instance,
    ensures
        ({
            let after = switched_pages(pages, Some(from), to);
            &&& pages[from as int].lifecycle == LifeCycle::Suspend ==> switch_plan(after, Some(to), from).enter
                == Some(EnterStep::Resume(from))
            &&& pages[from as int].lifecycle == LifeCycle::Drop ==> switch_plan(after, Some(to), from).enter
                == Some(EnterStep::Create(from, pages[from as int].type_id))
        }),
{
}

/// `ty` is the type of a page in `removed` that is neither in `kept` nor
/// `current`.
pub open spec fn unreachable_type(
    pages: Seq<PageRecord>,
    removed: Seq<usize>,
    kept: Seq<usize>,
    current: Option<usize>,
    ty: TypeId,
) -> bool {
    exists|i: int|
        0 <= i < removed.len() && !kept.contains(#[trigger] removed[i]) && current != Some(removed[i])
            && ty == pages[removed[i] as int].type_id
}

/// Every page that the history dropped and that is neither still in the
/// history nor shown has its snapshot dropped: `snapshot_drops` lists the
/// type of each such page, wherever it stands among the dropped entries.
pub proof fn lemma_unreachable_snapshots_are_dropped(
    pages: Seq<PageRecord>,
    removed: Seq<usize>,
    kept: Seq<usize>,
    current: Option<usize>,
)
    ensures
        forall|i: int|
            0 <= i < removed.len() && !kept.contains(#[trigger] removed[i]) && current != Some(
                removed[i],
            ) ==> snapshot_drops(pages, removed, kept, current).contains(
                pages[removed[i] as int].type_id,
            ),
        snapshot_drops(pages, removed, kept, current).len() <= removed.len(),
    decreases removed.len(),
{
    if removed.len() > 0 {
        let rest = removed.drop_last();
        lemma_unreachable_snapshots_are_dropped(pages, rest, kept, current);
        let d = snapshot_drops(pages, removed, kept, current);
        let dr = snapshot_drops(pages, rest, kept, current);
        assert forall|i: int|
            0 <= i < removed.len() && !kept.contains(#[trigger] removed[i]) && current != Some(
                removed[i],
            ) implies d.contains(pages[removed[i] as int].type_id) by {
            let t = pages[removed[i] as int].type_id;
            if i < rest.len() {
                assert(rest[i] == removed[i]);
                assert(dr.contains(t));
                let k = choose|k: int| 0 <= k < dr.len() && dr[k] == t;
                if d != dr {
                    assert(d == dr.push(pages[removed.last() as int].type_id));
                    assert(d[k] == t);
                }
            } else {
                assert(removed[i] == removed.last());
                assert(d == dr.push(t));
                assert(d[d.len() - 1] == t);
            }
        }
    }
}

/// The step on the page that is shown follows its record alone: a page
/// without an instance is created from its type; a suspended page is
/// resumed; a live page that is not suspended gets no step. So a resume is
/// only ever asked of a suspended, live page.
pub proof fn lemma_enter_step_follows_record(pages: Seq<PageRecord>, current: Option<usize>, to: usize)
    requires
        to < pages.len(),
    ensures
        !pages[to as int].has_instance ==> enter_step(pages, to) == Some(
            EnterStep::Create(to, pages[to as int].type_id),
        ),
        pages[to as int].has_instance && pages[to as int].suspended ==> enter_step(pages, to)
            == Some(EnterStep::Resume(to)),
        pages[to as int].has_instance && !pages[to as int].suspended ==> enter_step(pages, to)
            is None,
        enter_step(pages, to) == Some(EnterStep::Resume(to)) ==> pages[to as int].suspended
            && pages[to as int].has_instance,
        current != Some(to) ==> switch_plan(pages, current, to).enter == enter_step(pages, to),
{
}

/// A snapshot is dropped only for a page that the history dropped and
/// that is neither still in the history nor shown.
pub proof fn lemma_dropped_snapshots_are_unreachable(
    pages: Seq<PageRecord>,
    removed: Seq<usize>,
    kept: Seq<usize>,
    current: Option<usize>,
)
    ensures
        forall|j: int|
            0 <= j < snapshot_drops(pages, removed, kept, current).len() ==> unreachable_type(
                pages,
                removed,
                kept,
                current,
                #[trigger] snapshot_drops(pages, removed, kept, current)[j],
            ),
    decreases removed.len(),
{
    if removed.len() > 0 {
        let rest = removed.drop_last();
        lemma_dropped_snapshots_are_unreachable(pages, rest, kept, current);
        let d = snapshot_drops(pages, removed, kept, current);
        let dr = snapshot_drops(pages, rest, kept, current);
        assert forall|j: int| 0 <= j < d.len() implies unreachable_type(
            pages,
            removed,
            kept,
            current,
            #[trigger] d[j],
        ) by {
            if j < dr.len() {
                assert(unreachable_type(pages, rest, kept, current, dr[j]));
                let i = choose|i: int|
                    0 <= i < rest.len() && !kept.contains(#[trigger] rest[i]) && current != Some(rest[i])
                        && dr[j] == pages[rest[i] as int].type_id;
                assert(removed[i] == rest[i]);
            } else {
                let i = removed.len() - 1;
                assert(removed[i] == removed.last());
            }
        }
    }
}

/// After a navigation to a page, the page shown is the history entry under
/// the cursor, and there is nowhere to go forward.
pub proof fn lemma_navigation_shows_history_entry(
    before: RouteTable,
    after: RouteTable,
    id: usize,
    n: Navigation,
)
    requires
        before.wf(),
        navigated(before, after, id, n),
    ensures
        0 <= after.history_cursor() < after.history_entries().len(),
        after.history_entries()[after.history_cursor()] == id,
        after.shown() == Some(id),
        forward_step(after.history_entries(), after.history_cursor()).1 is None,
{
}

/// After two navigations, to `a` and then to `b`, a step back shows `a`.
pub proof fn lemma_back_returns_to_previous(
    t0: RouteTable,
    t1: RouteTable,
    t2: RouteTable,
    a: usize,
    b: usize,
    n1: Navigation,
    n2: Navigation,
)
    requires
        t0.wf(),
        navigated(t0, t1, a, n1),
        navigated(t1, t2, b, n2),
    ensures
        back_step(t2.history_entries(), t2.history_cursor()) == (t1.history_cursor(), Some(a)),
{
    let e1 = t1.history_entries();
    let e2 = t2.history_entries();
    assert(e1[e1.len() - 1] == a);
    assert(e2[e2.len() - 2] == e1[e1.len() - 1]);
}

} // verus!
