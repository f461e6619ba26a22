//! The call registry: a mapping from outstanding call ids to their shared
//! reset cells.
//!
//! The receive loop inserts an entry when it decodes a call and removes and
//! trips it when the peer resets that call; a dropped or sent response
//! removes its own entry; connection teardown trips every remaining entry.
//! Ids are unique: registering an id that is already present overwrites the
//! earlier entry, as a peer that reuses an id violates the protocol but must
//! not corrupt the registry. Contracts name both membership
//! ([`CallRegistry::contains_spec`]) and which cell an id maps to
//! ([`CallRegistry::cell_for`]).

use vstd::prelude::*;

use crate::abort::{trip_cell, ResetShared};

verus! {

/// The registry of outstanding calls.
pub struct CallRegistry {
    entries: Vec<(u32, ResetShared)>,
}

impl CallRegistry {
    /// Whether a call with this id is outstanding.
    pub closed spec fn contains_spec(&self, id: u32) -> bool {
        exists|i: int| 0 <= i < self.entries@.len() && self.entries@[i].0 == id
    }

    /// The cell stored under this id, where one is.
    pub closed spec fn cell_for(&self, id: u32) -> ResetShared {
        self.entries@[choose|i: int|
            0 <= i < self.entries@.len() && self.entries@[i].0 == id].1
    }

    /// How many calls are outstanding.
    pub closed spec fn len_spec(&self) -> nat {
        self.entries@.len()
    }

    /// Well-formedness: no id occurs twice.
    pub closed spec fn wf(&self) -> bool {
        forall|i: int, j: int|
            0 <= i < j < self.entries@.len() ==> self.entries@[i].0 != self.entries@[j].0
    }

    /// In a well-formed registry, the cell stored under the id at any
    /// position is that position's cell.
    proof fn lemma_cell_at(self, i: int)
        requires
            self.wf(),
            0 <= i < self.entries@.len(),
        ensures
            self.cell_for(self.entries@[i].0) == self.entries@[i].1,
    {
        let id = self.entries@[i].0;
        assert(0 <= i < self.entries@.len() && self.entries@[i].0 == id);
        let j = choose|j: int| 0 <= j < self.entries@.len() && self.entries@[j].0 == id;
        assert(j == i);
    }

    /// An empty registry.
    pub fn new() -> (r: CallRegistry)
        ensures
            r.wf(),
            forall|x: u32| !r.contains_spec(x),
            r.len_spec() == 0,
    {
        CallRegistry { entries: Vec::new() }
    }

    /// The position of the entry with this id, if one exists.
    fn find(&self, id: u32) -> (r: Option<usize>)
        ensures
            match r {
                Some(i) => i < self.entries@.len() && self.entries@[i as int].0 == id,
                None => !self.contains_spec(id),
            },
    {
        let mut i: usize = 0;
        while i < self.entries.len()
            invariant
                i <= self.entries@.len(),
                forall|j: int| 0 <= j < i ==> self.entries@[j].0 != id,
            decreases self.entries@.len() - i,
        {
            if self.entries[i].0 == id {
                return Some(i);
            }
            i = i + 1;
        }
        None
    }

    /// Whether a call with this id is outstanding.
    pub fn contains(&self, id: u32) -> (r: bool)
        ensures
            r == self.contains_spec(id),
    {
        match self.find(id) {
            Some(_) => true,
            None => false,
        }
    }

    /// Removes the entry with this id and returns the cell stored under it.
    /// Afterwards the id is absent; every other id is untouched and keeps
    /// its cell.
    pub fn remove(&mut self, id: u32) -> (r: Option<ResetShared>)
        requires
            old(self).wf(),
        ensures
            final(self).wf(),
            !final(self).contains_spec(id),
            forall|x: u32| x != id ==> final(self).contains_spec(x) == old(self).contains_spec(x),
            r is Some <==> old(self).contains_spec(id),
            r matches Some(c) ==> c == old(self).cell_for(id),
            forall|x: u32|
                x != id && old(self).contains_spec(x) ==> final(self).cell_for(x) == old(
                    self,
                ).cell_for(x),
            final(self).len_spec() == if old(self).contains_spec(id) {
                old(self).len_spec() - 1
            } else {
                old(self).len_spec() as int
            },
    {
        let ghost pre = self.entries@;
        match self.find(id) {
            Some(i) => {
                let (_, cell) = self.entries.swap_remove(i);
                proof {
                    let post = self.entries@;
                    let n = pre.len() as int;
                    old(self).lemma_cell_at(i as int);
                    assert forall|k: int| 0 <= k < post.len() implies post[k].0 != id by {
                        if k == i {
                            assert(post[k] == pre[n - 1]);
                        } else {
                            assert(post[k] == pre[k]);
                        }
                    }
                    assert forall|x: u32, k: int|
                        x != id && 0 <= k < pre.len() && pre[k].0 == x implies self.contains_spec(
                        x,
                    ) by {
                        if k == n - 1 {
                            assert(post[i as int].0 == x);
                        } else {
                            assert(post[k].0 == x);
                        }
                    }
                    assert forall|a: int, b: int| 0 <= a < b < post.len() implies post[a].0
                        != post[b].0 by {
                        let pa = if a == i { n - 1 } else { a };
                        let pb = if b == i { n - 1 } else { b };
                        assert(post[a] == pre[pa]);
                        assert(post[b] == pre[pb]);
                    }
                    assert forall|x: u32|
                        x != id && old(self).contains_spec(x) implies self.cell_for(x) == old(
                        self,
                    ).cell_for(x) by {
                        let k = choose|k: int| 0 <= k < pre.len() && pre[k].0 == x;
                        old(self).lemma_cell_at(k);
                        let k2: int = if k == n - 1 {
                            i as int
                        } else {
                            k
                        };
                        assert(post[k2] == pre[k]);
                        self.lemma_cell_at(k2);
                    }
                }
                Some(cell)
            },
            None => None,
        }
    }

    /// Inserts an entry mapping this id to this cell, overwriting any
    /// earlier entry with the same id. Afterwards the id maps to exactly
    /// this cell; every other id is untouched and keeps its cell.
    pub fn register(&mut self, id: u32, cell: ResetShared)
        requires
            old(self).wf(),
        ensures
            final(self).wf(),
            final(self).contains_spec(id),
            final(self).cell_for(id) == cell,
            forall|x: u32| x != id ==> final(self).contains_spec(x) == old(self).contains_spec(x),
            forall|x: u32|
                x != id && old(self).contains_spec(x) ==> final(self).cell_for(x) == old(
                    self,
                ).cell_for(x),
            final(self).len_spec() == if old(self).contains_spec(id) {
                old(self).len_spec() as int
            } else {
                old(self).len_spec() + 1 as int
            },
    {
        let _ = self.remove(id);
        let ghost mid = *self;
        self.entries.push((id, cell));
        proof {
            let post = self.entries@;
            let n = post.len() as int;
            assert(post[n - 1].0 == id);
            assert forall|x: u32, k: int|
                x != id && 0 <= k < post.len() && post[k].0 == x implies mid.contains_spec(x) by {
                assert(post[k] == mid.entries@[k]);
            }
            assert forall|x: u32, k: int|
                0 <= k < mid.entries@.len() && mid.entries@[k].0 == x implies self.contains_spec(
                x,
            ) by {
                assert(post[k].0 == x);
            }
            self.lemma_cell_at(n - 1);
            assert forall|x: u32|
                x != id && mid.contains_spec(x) implies self.cell_for(x) == mid.cell_for(x) by {
                let k = choose|k: int| 0 <= k < mid.entries@.len() && mid.entries@[k].0 == x;
                mid.lemma_cell_at(k);
                assert(post[k] == mid.entries@[k]);
                self.lemma_cell_at(k);
            }
        }
    }

    /// Removes the entry with this id and trips its cell: the removed cell —
    /// `cell_for(id)` of the registry before the call — goes through one
    /// verified [`crate::abort::ResetInner::reset`] step under its lock.
    /// Reports whether an entry was found.
    pub fn trip(&mut self, id: u32) -> (found: bool)
        requires
            old(self).wf(),
        ensures
            final(self).wf(),
            !final(self).contains_spec(id),
            forall|x: u32| x != id ==> final(self).contains_spec(x) == old(self).contains_spec(x),
            forall|x: u32|
                x != id && old(self).contains_spec(x) ==> final(self).cell_for(x) == old(
                    self,
                ).cell_for(x),
            found == old(self).contains_spec(id),
    {
        match self.remove(id) {
            Some(cell) => {
                trip_cell(&cell);
                true
            },
            None => false,
        }
    }

    /// Drains the registry, tripping every entry's cell through one
    /// verified reset step. Afterwards no call is outstanding.
    pub fn trip_all(&mut self)
        requires
            old(self).wf(),
        ensures
            final(self).wf(),
            forall|x: u32| !final(self).contains_spec(x),
            final(self).len_spec() == 0,
    {
        loop
            ensures
                self.entries@.len() == 0,
            decreases self.entries@.len(),
        {
            match self.entries.pop() {
                Some((_, cell)) => {
                    trip_cell(&cell);
                },
                None => {
                    break ;
                },
            }
        }
    }
}

} // verus!
