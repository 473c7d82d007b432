//! The generic tabbed collection: an ordered sequence of named tabs with one
//! active index.  Editor tabs, terminal tabs and sidebar widgets all live in
//! one of these.
//!
//! The collection's invariant — a non-empty collection keeps its active index
//! strictly inside the sequence, an empty one keeps it at zero — is
//! established by the constructor and preserved by every operation.
use vstd::prelude::*;

verus! {

/// One named tab.
pub struct Tab<T> {
    pub title: String,
    pub content: T,
}

/// An ordered collection of tabs with one active index.
pub struct TabbedCollection<T> {
    pub tabs: Vec<Tab<T>>,
    pub active: usize,
}

/// The tabs that survive a liveness sweep: those whose flag is not set.
pub open spec fn live_filter<T>(tabs: Seq<Tab<T>>, dead: Seq<bool>) -> Seq<Tab<T>>
    decreases tabs.len(),
{
    if tabs.len() == 0 {
        Seq::<Tab<T>>::empty()
    } else {
        let rest = live_filter(tabs.drop_last(), dead.drop_last());
        if dead[tabs.len() - 1] {
            rest
        } else {
            rest.push(tabs.last())
        }
    }
}

/// Every tab that survives a sweep is one of the original tabs, at a
/// position whose flag was not set: no dead tab survives.
pub proof fn lemma_live_filter_no_dead<T>(tabs: Seq<Tab<T>>, dead: Seq<bool>)
    requires
        dead.len() == tabs.len(),
    ensures
        forall|j: int|
            0 <= j < live_filter(tabs, dead).len() ==> exists|i: int|
                0 <= i < tabs.len() && !dead[i] && #[trigger] live_filter(tabs, dead)[j] == tabs[i],
    decreases tabs.len(),
{
    if tabs.len() > 0 {
        lemma_live_filter_no_dead(tabs.drop_last(), dead.drop_last());
        let rest = live_filter(tabs.drop_last(), dead.drop_last());
        assert forall|j: int| 0 <= j < live_filter(tabs, dead).len() implies exists|i: int|
            0 <= i < tabs.len() && !dead[i] && #[trigger] live_filter(tabs, dead)[j]
                == tabs[i] by {
            if j < rest.len() {
                let i = choose|i: int|
                    0 <= i < tabs.drop_last().len() && !dead.drop_last()[i] && #[trigger] rest[j]
                        == tabs.drop_last()[i];
                assert(0 <= i < tabs.len() && !dead[i] && live_filter(tabs, dead)[j] == tabs[i]);
            } else {
                let i = tabs.len() - 1;
                assert(0 <= i < tabs.len() && !dead[i] && live_filter(tabs, dead)[j] == tabs[i]);
            }
        }
    }
}

/// If no flag is set, a sweep keeps every tab.
pub proof fn lemma_live_filter_all_live<T>(tabs: Seq<Tab<T>>, dead: Seq<bool>)
    requires
        dead.len() == tabs.len(),
        forall|i: int| 0 <= i < dead.len() ==> !dead[i],
    ensures
        live_filter(tabs, dead) == tabs,
    decreases tabs.len(),
{
    if tabs.len() > 0 {
        lemma_live_filter_all_live(tabs.drop_last(), dead.drop_last());
        assert(live_filter(tabs, dead) =~= tabs);
    } else {
        assert(live_filter(tabs, dead) =~= tabs);
    }
}

/// The active index after cycling forward in a collection of `len` tabs.
pub open spec fn spec_cycle_next_ix(len: int, ix: int) -> int {
    if len == 0 {
        0int
    } else {
        (ix + 1) % len
    }
}

/// The active index after cycling backward in a collection of `len` tabs.
pub open spec fn spec_cycle_prev_ix(len: int, ix: int) -> int {
    if len == 0 {
        0int
    } else if ix == 0 {
        len - 1
    } else {
        ix - 1
    }
}

impl<T> TabbedCollection<T> {
    /// The tabs as a sequence.
    pub open spec fn entries(&self) -> Seq<Tab<T>> {
        self.tabs@
    }

    /// The active index.
    pub open spec fn active_ix(&self) -> int {
        self.active as int
    }

    /// The collection invariant: a non-empty collection's active index lies
    /// inside it; an empty collection's active index is zero and is never
    /// dereferenced.
    pub open spec fn wf(&self) -> bool {
        &&& (self.tabs@.len() == 0 ==> self.active == 0)
        &&& (self.tabs@.len() > 0 ==> (self.active as int) < self.tabs@.len())
    }

    /// An empty collection.
    pub fn new() -> (r: TabbedCollection<T>)
        ensures
            r.wf(),
            r.entries().len() == 0,
            r.active_ix() == 0,
    {
        TabbedCollection { tabs: Vec::new(), active: 0 }
    }

    pub fn len(&self) -> (r: usize)
        ensures
            r == self.entries().len(),
    {
        self.tabs.len()
    }

    pub fn is_empty(&self) -> (r: bool)
        ensures
            r == (self.entries().len() == 0),
    {
        self.tabs.len() == 0
    }

    pub fn active_index(&self) -> (r: usize)
        ensures
            r == self.active_ix(),
    {
        self.active
    }

    pub fn get(&self, i: usize) -> (r: &Tab<T>)
        requires
            i < self.entries().len(),
        ensures
            *r == self.entries()[i as int],
    {
        &self.tabs[i]
    }

    /// The active tab of a non-empty collection.
    pub fn active_tab(&self) -> (r: &Tab<T>)
        requires
            self.wf(),
            self.entries().len() > 0,
        ensures
            *r == self.entries()[self.active_ix()],
    {
        &self.tabs[self.active]
    }

    /// Appends a tab and makes it active.
    pub fn push(&mut self, title: String, content: T)
        requires
            old(self).wf(),
        ensures
            final(self).wf(),
            final(self).entries() == old(self).entries().push(
                (Tab { title, content }),
            ),
            final(self).active_ix() == final(self).entries().len() - 1,
    {
        self.tabs.push(Tab { title, content });
        self.active = self.tabs.len() - 1;
    }

    /// Removes the tab at `i`.  The active index is kept when it still points
    /// inside the collection, and clamped to the new last tab otherwise; an
    /// emptied collection resets it to zero.
    pub fn remove(&mut self, i: usize)
        requires
            old(self).wf(),
            i < old(self).entries().len(),
        ensures
            final(self).wf(),
            final(self).entries() == old(self).entries().remove(i as int),
            final(self).active_ix() == if final(self).entries().len() == 0 {
                0int
            } else if old(self).active_ix() < final(self).entries().len() {
                old(self).active_ix()
            } else {
                final(self).entries().len() - 1
            },
    {
        self.tabs.remove(i);
        if self.tabs.len() == 0 {
            self.active = 0;
        } else if self.active >= self.tabs.len() {
            self.active = self.tabs.len() - 1;
        }
    }

    /// Moves the active index forward, wrapping; a no-op on empty and
    /// singleton collections.
    pub fn cycle_next(&mut self)
        requires
            old(self).wf(),
        ensures
            final(self).wf(),
            final(self).entries() == old(self).entries(),
            final(self).active_ix() == spec_cycle_next_ix(
                old(self).entries().len() as int,
                old(self).active_ix(),
            ),
    {
        if self.tabs.len() > 0 {
            self.active = (self.active + 1) % self.tabs.len();
        }
    }

    /// Moves the active index backward, wrapping; a no-op on empty and
    /// singleton collections.
    pub fn cycle_prev(&mut self)
        requires
            old(self).wf(),
        ensures
            final(self).wf(),
            final(self).entries() == old(self).entries(),
            final(self).active_ix() == spec_cycle_prev_ix(
                old(self).entries().len() as int,
                old(self).active_ix(),
            ),
    {
        if self.tabs.len() > 0 {
            if self.active == 0 {
                self.active = self.tabs.len() - 1;
            } else {
                self.active = self.active - 1;
            }
        }
    }

    /// Removes every tab whose flag is set, then repairs the active index:
    /// the liveness sweep of one collection.
    pub fn remove_flagged(&mut self, dead: &Vec<bool>)
        requires
            old(self).wf(),
            dead@.len() == old(self).entries().len(),
        ensures
            final(self).wf(),
            final(self).entries() == live_filter(old(self).entries(), dead@),
            final(self).active_ix() == if final(self).entries().len() == 0 {
                0int
            } else if old(self).active_ix() < final(self).entries().len() {
                old(self).active_ix()
            } else {
                final(self).entries().len() - 1
            },
    {
        let ghost orig: Seq<Tab<T>> = self.tabs@;
        let mut kept: Vec<Tab<T>> = Vec::new();
        let mut i: usize = 0;
        let len = self.tabs.len();
        while i < len
            invariant
                i <= len,
                len == orig.len(),
                dead@.len() == orig.len(),
                self.active == old(self).active,
                self.tabs@ == orig.skip(i as int),
                kept@ == live_filter(orig.take(i as int), dead@.take(i as int)),
            decreases len - i,
        {
            let tab = self.tabs.remove(0);
            proof {
                assert(orig.skip(i as int).remove(0) =~= orig.skip(i as int + 1));
            }
            if !dead[i] {
                kept.push(tab);
            }
            proof {
                assert(orig.take(i as int + 1).drop_last() =~= orig.take(i as int));
                assert(dead@.take(i as int + 1).drop_last() =~= dead@.take(i as int));
                assert(orig.take(i as int + 1).last() == orig[i as int]);
            }
            i += 1;
        }
        proof {
            assert(orig.take(len as int) =~= orig);
            assert(dead@.take(len as int) =~= dead@);
        }
        self.tabs = kept;
        if self.tabs.len() == 0 {
            self.active = 0;
        } else if self.active >= self.tabs.len() {
            self.active = self.tabs.len() - 1;
        }
    }
}

} // verus!
