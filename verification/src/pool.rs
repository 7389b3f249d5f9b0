//! Fixed-capacity slot pool with an embedded freelist.
//!
//! The pool hands out small stable integer handles in O(1); a handle is meant
//! to serve directly as the 64-bit correlation token that the kernel echoes
//! back on completion, so no second lookup structure is needed. The free
//! slots are threaded into a singly linked chain through the slots
//! themselves; the chain behaves as a LIFO stack, so the slot freed most
//! recently is the next one reused.
//!
//! The index returned by `allocidx` is the canonical way to name a slot in a
//! completion: it is the value to place in the request's correlation field.
//! Recovering a slot from the raw address of its contents is deliberately
//! not offered, since it rests on address arithmetic over the backing
//! storage that nothing could check.
use vstd::prelude::*;
use vstd::pervasive::unreached;
use vstd::seq_lib::*;
use vstd::set_lib::set_int_range;
use vstd::set_lib::lemma_int_range;
use vstd::set_lib::lemma_len_subset;

verus! {

/// One pool entry: either free, holding the index of the next free entry
/// (with the pool's capacity standing for "end of chain"), or allocated,
/// holding a caller value.
pub enum Slot<T> {
    Free(usize),
    Alloc(T),
}

/// Simple fixed size pool allocator.
///
/// Every index reachable from the allocation cursor names a `Free` slot and
/// appears once in the chain; the occupied count plus the chain length always
/// equals the capacity. The chain of free indices is kept as a ghost
/// sequence, ordered from the cursor onward.
pub struct Pool<T> {
    pool: Vec<Slot<T>>,
    used: usize,
    next: usize,
    free_order: Ghost<Seq<int>>,
}

impl<T> Pool<T> {
    /// Capacity fixed at creation.
    pub closed spec fn spec_limit(self) -> int {
        self.pool@.len() as int
    }

    /// Number of currently allocated slots.
    pub closed spec fn spec_used(self) -> int {
        self.used as int
    }

    /// Number of slots still free.
    pub open spec fn spec_avail(self) -> int {
        self.spec_limit() - self.spec_used()
    }

    /// Whether `i` names an allocated slot.
    pub closed spec fn is_alloc(self, i: int) -> bool {
        0 <= i < self.pool@.len() && self.pool@[i] is Alloc
    }

    /// The value stored in allocated slot `i`.
    pub closed spec fn value_at(self, i: int) -> T {
        self.pool@[i]->Alloc_0
    }

    /// The index the next successful allocation will claim, if any slot is
    /// free: the head of the freelist chain.
    pub closed spec fn next_alloc_index(self) -> Option<int> {
        if (self.next as int) < self.spec_limit() {
            Some(self.next as int)
        } else {
            None
        }
    }

    /// The freelist chain, from the allocation cursor onward: an allocation
    /// claims its head, a release pushes the freed index on the front (LIFO),
    /// and a fresh pool's chain is 0, 1, ..., capacity - 1, so successive
    /// allocations from a fresh pool claim the indices in that order.
    pub closed spec fn free_chain(self) -> Seq<int> {
        self.free_order@
    }

    /// Well-formedness: the ghost chain lists exactly the free slots, each
    /// once, linked in order through their stored `Free` links, with the
    /// cursor at its head; the occupied count accounts for the rest.
    pub closed spec fn wf(self) -> bool {
        let n = self.pool@.len() as int;
        let ord = self.free_order@;
        &&& n >= 1
        &&& self.used as int + ord.len() == n
        &&& self.next as int == (if ord.len() == 0 { n } else { ord[0] })
        &&& (forall|k: int| 0 <= k < ord.len() ==> 0 <= #[trigger] ord[k] < n)
        &&& ord.no_duplicates()
        &&& (forall|k: int| 0 <= k < ord.len() ==> (#[trigger] self.pool@[ord[k]] matches Slot::Free(nxt)
                && nxt as int == (if k + 1 < ord.len() { ord[k + 1] } else { n })))
        &&& (forall|i: int| 0 <= i < n && !((#[trigger] self.pool@[i]) is Alloc) ==> ord.contains(i))
    }

    /// A chain of distinct indices drawn from `[0, n)` that avoids `x` cannot
    /// fill the whole range.
    proof fn lemma_chain_shorter_than_range(ord: Seq<int>, n: int, x: int)
        requires
            ord.no_duplicates(),
            forall|k: int| 0 <= k < ord.len() ==> 0 <= #[trigger] ord[k] < n,
            !ord.contains(x),
            0 <= x < n,
        ensures
            ord.len() < n,
    {
        ord.unique_seq_to_set();
        lemma_int_range(0, n);
        let range_without = set_int_range(0, n).remove(x);
        assert forall|y: int| ord.to_set().contains(y) implies range_without.contains(y) by {
            let k = choose|k: int| 0 <= k < ord.len() && ord[k] == y;
            assert(0 <= y < n && y != x);
        }
        lemma_len_subset(ord.to_set(), range_without);
        assert(range_without.len() == n - 1);
    }

    /// An allocated slot never sits on the freelist chain.
    proof fn lemma_alloc_not_in_chain(self, i: int)
        requires
            self.wf(),
            self.is_alloc(i),
        ensures
            !self.free_order@.contains(i),
    {
        if self.free_order@.contains(i) {
            let k = choose|k: int| 0 <= k < self.free_order@.len() && self.free_order@[k] == i;
            assert(self.pool@[i] matches Slot::Free(_));
        }
    }

    /// Create a new pool with a given size: every slot free, chained
    /// upward from slot 0, where the allocation cursor starts.
    pub fn new(size: usize) -> (r: Pool<T>)
        requires
            size > 0,
        ensures
            r.wf(),
            r.spec_limit() == size,
            r.spec_used() == 0,
            forall|i: int| 0 <= i < size ==> !r.is_alloc(i),
            r.next_alloc_index() == Some(0int),
            r.free_chain() == Seq::new(size as nat, |k: int| k),
    {
        let mut slots: Vec<Slot<T>> = Vec::new();
        let mut i: usize = 0;
        while i < size
            invariant
                i <= size,
                slots@.len() == i,
                forall|k: int| 0 <= k < i ==> (#[trigger] slots@[k] matches Slot::Free(nxt)
                    && nxt as int == k + 1),
            decreases size - i,
        {
            slots.push(Slot::Free(i + 1));
            i = i + 1;
        }
        let r = Pool { pool: slots, used: 0, next: 0, free_order: Ghost(Seq::new(size as nat, |k: int| k)) };
        proof {
            let ord = r.free_order@;
            assert forall|j: int| 0 <= j < size && !((#[trigger] r.pool@[j]) is Alloc) implies ord.contains(j) by {
                assert(ord[j] == j);
            }
            assert forall|j: int, k: int| 0 <= j < k < ord.len() implies ord[j] != ord[k] by {}
            assert(ord.no_duplicates());
        }
        r
    }

    /// Allocate an index in the pool, storing `init` in the claimed slot.
    /// Succeeds exactly when a slot is free, claiming the chain's head (the
    /// cursor); when the pool is exhausted it hands `init` back unconsumed
    /// and leaves the pool untouched.
    pub fn allocidx(&mut self, init: T) -> (r: Result<usize, T>)
        requires
            old(self).wf(),
        ensures
            final(self).wf(),
            final(self).spec_limit() == old(self).spec_limit(),
            old(self).next_alloc_index() is Some <==> old(self).spec_used() < old(self).spec_limit(),
            match old(self).next_alloc_index() {
                Some(i) => {
                    &&& 0 <= i < old(self).spec_limit()
                    &&& i == old(self).free_chain()[0]
                    &&& final(self).free_chain() == old(self).free_chain().drop_first()
                    &&& r == Ok::<usize, T>(i as usize)
                    &&& !old(self).is_alloc(i)
                    &&& final(self).is_alloc(i)
                    &&& final(self).value_at(i) == init
                    &&& final(self).spec_used() == old(self).spec_used() + 1
                    &&& (forall|j: int| 0 <= j < old(self).spec_limit() && j != i
                            ==> (#[trigger] final(self).is_alloc(j)) == old(self).is_alloc(j))
                    &&& (forall|j: int| 0 <= j < old(self).spec_limit() && j != i && old(self).is_alloc(j)
                            ==> #[trigger] final(self).value_at(j) == old(self).value_at(j))
                },
                None => {
                    &&& r == Err::<usize, T>(init)
                    &&& *final(self) == *old(self)
                },
            },
    {
        let idx = self.next;
        if idx >= self.pool.len() {
            Err(init)
        } else {
            proof {
                let ord = self.free_order@;
                assert(ord.len() > 0 && ord[0] == idx as int);
                assert(self.pool@[idx as int] matches Slot::Free(_));
            }
            let nxt = match &self.pool[idx] {
                Slot::Free(nx) => *nx,
                Slot::Alloc(_) => unreached(),
            };
            self.next = nxt;
            self.pool[idx] = Slot::Alloc(init);
            self.used = self.used + 1;
            proof {
                let prev = old(self).free_order@;
                self.free_order@ = prev.drop_first();
                let ord = self.free_order@;
                assert forall|k: int| 0 <= k < ord.len() implies (#[trigger] self.pool@[ord[k]] matches Slot::Free(nxt2)
                        && nxt2 as int == (if k + 1 < ord.len() { ord[k + 1] } else { self.pool@.len() as int })) by {
                    assert(prev[k + 1] == ord[k]);
                    assert(prev[k + 1] != prev[0]);
                }
                assert forall|i: int| 0 <= i < self.pool@.len() && !((#[trigger] self.pool@[i]) is Alloc)
                        implies ord.contains(i) by {
                    assert(old(self).pool@[i] == self.pool@[i]);
                    assert(prev.contains(i));
                    let k = choose|k: int| 0 <= k < prev.len() && prev[k] == i;
                    assert(k != 0);
                    assert(ord[k - 1] == i);
                }
            }
            Ok(idx)
        }
    }

    /// Free an index in the pool, returning the stored value. The freed slot
    /// takes the prior cursor as its link and becomes the new cursor itself,
    /// so the very next allocation reuses exactly this index (LIFO reuse).
    pub fn freeidx(&mut self, idx: usize) -> (r: T)
        requires
            old(self).wf(),
            old(self).is_alloc(idx as int),
        ensures
            final(self).wf(),
            final(self).spec_limit() == old(self).spec_limit(),
            r == old(self).value_at(idx as int),
            final(self).spec_used() == old(self).spec_used() - 1,
            !final(self).is_alloc(idx as int),
            final(self).next_alloc_index() == Some(idx as int),
            final(self).free_chain() == seq![idx as int] + old(self).free_chain(),
            forall|j: int| 0 <= j < old(self).spec_limit() && j != idx
                ==> (#[trigger] final(self).is_alloc(j)) == old(self).is_alloc(j),
            forall|j: int| 0 <= j < old(self).spec_limit() && j != idx && old(self).is_alloc(j)
                ==> #[trigger] final(self).value_at(j) == old(self).value_at(j),
    {
        proof {
            self.lemma_alloc_not_in_chain(idx as int);
            Self::lemma_chain_shorter_than_range(
                self.free_order@,
                self.pool@.len() as int,
                idx as int,
            );
        }
        let prior = self.next;
        self.used = self.used - 1;
        let mut slot = Slot::Free(prior);
        core::mem::swap(vstd::std_specs::vec::vec_index_mut(&mut self.pool, idx), &mut slot);
        match slot {
            Slot::Alloc(v) => {
                self.next = idx;
                proof {
                    let prev = old(self).free_order@;
                    self.free_order@ = seq![idx as int] + prev;
                    let ord = self.free_order@;
                    assert forall|j: int, k: int| 0 <= j < k < ord.len() implies ord[j] != ord[k] by {
                        if j == 0 {
                            assert(prev[k - 1] == ord[k]);
                        } else {
                            assert(prev[j - 1] == ord[j] && prev[k - 1] == ord[k]);
                        }
                    }
                    assert(ord.no_duplicates());
                    assert forall|k: int| 0 <= k < ord.len() implies (#[trigger] self.pool@[ord[k]] matches Slot::Free(nxt2)
                            && nxt2 as int == (if k + 1 < ord.len() { ord[k + 1] } else { self.pool@.len() as int })) by {
                        if k > 0 {
                            assert(prev[k - 1] == ord[k]);
                            assert(ord[k] != idx as int);
                        }
                    }
                    assert forall|i: int| 0 <= i < self.pool@.len() && !((#[trigger] self.pool@[i]) is Alloc)
                            implies ord.contains(i) by {
                        if i == idx as int {
                            assert(ord[0] == i);
                        } else {
                            assert(prev.contains(i));
                            let k = choose|k: int| 0 <= k < prev.len() && prev[k] == i;
                            assert(ord[k + 1] == i);
                        }
                    }
                }
                v
            },
            Slot::Free(_) => unreached(),
        }
    }

    /// Borrow the value in an allocated slot.
    pub fn index(&self, idx: usize) -> (r: &T)
        requires
            self.wf(),
            self.is_alloc(idx as int),
        ensures
            *r == self.value_at(idx as int),
    {
        match &self.pool[idx] {
            Slot::Alloc(t) => t,
            Slot::Free(_) => unreached(),
        }
    }

    /// Mutably borrow the value in an allocated slot.
    pub fn index_mut(&mut self, idx: usize) -> (r: &mut T)
        requires
            old(self).wf(),
            old(self).is_alloc(idx as int),
        ensures
            *r == old(self).value_at(idx as int),
            final(self).wf(),
            final(self).spec_limit() == old(self).spec_limit(),
            final(self).spec_used() == old(self).spec_used(),
            final(self).next_alloc_index() == old(self).next_alloc_index(),
            final(self).free_chain() == old(self).free_chain(),
            final(self).is_alloc(idx as int),
            final(self).value_at(idx as int) == *final(r),
            forall|j: int| 0 <= j < old(self).spec_limit() && j != idx
                ==> (#[trigger] final(self).is_alloc(j)) == old(self).is_alloc(j),
            forall|j: int| 0 <= j < old(self).spec_limit() && j != idx && old(self).is_alloc(j)
                ==> #[trigger] final(self).value_at(j) == old(self).value_at(j),
    {
        proof {
            self.lemma_alloc_not_in_chain(idx as int);
        }
        match vstd::std_specs::vec::vec_index_mut(&mut self.pool, idx) {
            Slot::Alloc(t) => t,
            Slot::Free(_) => unreached(),
        }
    }

    /// Return the max number of pool entries (size passed to new()).
    pub fn limit(&self) -> (r: usize)
        ensures
            r as int == self.spec_limit(),
    {
        self.pool.len()
    }

    /// Return number of currently allocated entries.
    pub fn used(&self) -> (r: usize)
        ensures
            r as int == self.spec_used(),
    {
        self.used
    }

    /// Return number of remaining unused entries.
    pub fn avail(&self) -> (r: usize)
        requires
            self.wf(),
        ensures
            r as int == self.spec_avail(),
    {
        self.pool.len() - self.used
    }
}

} // verus!
