//! Generational indices: handles made of a slot and a generation counter,
//! the allocator that issues them, and sparse tables keyed by them.

use vstd::prelude::*;

verus! {

/// A handle into generation-checked storage: a slot and the generation
/// of the slot at the time the handle was issued.
///
/// Two handles are equal exactly when slot and generation both match.
/// Generation zero never belongs to an issued handle.
#[derive(Clone, Copy, Debug, PartialEq, Eq, Structural)]
pub struct GenerationalIndex {
    pub index: usize,
    pub generation: u64,
}

impl GenerationalIndex {
    /// The handle that refers to no entity.
    pub fn none() -> (handle: GenerationalIndex)
        ensures
            handle.index == 0,
            handle.generation == 0,
            handle.is_none(),
    {
        GenerationalIndex { index: 0, generation: 0 }
    }

    /// A handle for the given slot and generation.
    pub fn new(index: usize, generation: u64) -> (handle: GenerationalIndex)
        ensures
            handle.index == index,
            handle.generation == generation,
    {
        GenerationalIndex { index, generation }
    }

    /// Whether the handle is the "no entity" sentinel.
    pub open spec fn is_none(self) -> bool {
        self.generation == 0
    }
}

/// Bookkeeping for one slot of the allocator.
struct AllocatorEntry {
    is_live: bool,
    generation: u64,
}

/// Allocates & deallocates generational indices.
pub struct GenerationalIndexAllocator {
    entries: Vec<AllocatorEntry>,
    free: Vec<usize>,
}

impl GenerationalIndexAllocator {
    /// The slots in order: whether each is live, and its current generation.
    pub closed spec fn entries(&self) -> Seq<(bool, u64)> {
        self.entries@.map_values(|e: AllocatorEntry| (e.is_live, e.generation))
    }

    /// The stack of reusable slots; the last one is reused first.
    pub closed spec fn free(&self) -> Seq<usize> {
        self.free@
    }

    /// Whether the slot is on the free list.
    pub open spec fn is_free(&self, slot: int) -> bool {
        exists|i: int| 0 <= i < self.free().len() && #[trigger] self.free()[i] == slot
    }

    /// The free list holds exactly the slots that are not live, each once,
    /// and every slot has a generation of at least one.
    pub open spec fn wf(&self) -> bool {
        &&& self.free().no_duplicates()
        &&& forall|i: int|
            0 <= i < self.free().len() ==> {
                &&& (#[trigger] self.free()[i]) < self.entries().len()
                &&& !self.entries()[self.free()[i] as int].0
            }
        &&& forall|slot: int|
            0 <= slot < self.entries().len() && !(#[trigger] self.entries()[slot]).0
                ==> self.is_free(slot)
        &&& forall|slot: int|
            0 <= slot < self.entries().len() ==> (#[trigger] self.entries()[slot]).1 >= 1
    }

    /// A handle is live when its slot exists, is marked live, and carries
    /// the handle's generation.
    pub open spec fn live(&self, handle: GenerationalIndex) -> bool {
        &&& handle.index < self.entries().len()
        &&& self.entries()[handle.index as int].0
        &&& self.entries()[handle.index as int].1 == handle.generation
    }

    /// A handle has been issued when its slot exists and has reached the
    /// handle's generation.
    pub open spec fn issued(&self, handle: GenerationalIndex) -> bool {
        &&& handle.index < self.entries().len()
        &&& 1 <= handle.generation <= self.entries()[handle.index as int].1
    }

    /// The next allocation does not overflow a generation counter.
    pub open spec fn can_allocate(&self) -> bool {
        self.free().len() > 0 ==> self.entries()[self.free().last() as int].1 < u64::MAX
    }

    /// `self` is `pre` after one allocation that returned `handle`.
    pub open spec fn allocated_from(&self, pre: &Self, handle: GenerationalIndex) -> bool {
        if pre.free().len() > 0 {
            &&& handle.index == pre.free().last()
            &&& handle.generation == pre.entries()[handle.index as int].1 + 1
            &&& self.entries() == pre.entries().update(
                handle.index as int,
                (true, handle.generation),
            )
            &&& self.free() == pre.free().drop_last()
        } else {
            &&& handle.index == pre.entries().len()
            &&& handle.generation == 1
            &&& self.entries() == pre.entries().push((true, 1u64))
            &&& self.free() == pre.free()
        }
    }

    /// `self` is `pre` after an attempt to deallocate `handle` that reported `done`.
    pub open spec fn deallocated_from(
        &self,
        pre: &Self,
        handle: GenerationalIndex,
        done: bool,
    ) -> bool {
        &&& done == pre.live(handle)
        &&& done ==> {
            &&& self.entries() == pre.entries().update(
                handle.index as int,
                (false, handle.generation),
            )
            &&& self.free() == pre.free().push(handle.index)
        }
        &&& !done ==> {
            &&& self.entries() == pre.entries()
            &&& self.free() == pre.free()
        }
    }

    /// The live handles of the slots from `from` on, in slot order.
    pub open spec fn live_from(&self, from: int) -> Seq<GenerationalIndex>
        decreases self.entries().len() - from,
    {
        if from < 0 || from >= self.entries().len() {
            Seq::empty()
        } else if self.entries()[from].0 {
            seq![GenerationalIndex { index: from as usize, generation: self.entries()[from].1 }]
                + self.live_from(from + 1)
        } else {
            self.live_from(from + 1)
        }
    }

    /// All live handles in slot order.
    pub open spec fn live_handles(&self) -> Seq<GenerationalIndex> {
        self.live_from(0)
    }

    /// An allocator with no slots.
    pub fn new() -> (allocator: Self)
        ensures
            allocator.wf(),
            allocator.entries() == Seq::<(bool, u64)>::empty(),
            allocator.free() == Seq::<usize>::empty(),
    {
        let allocator = Self { entries: Vec::new(), free: Vec::new() };
        assert(allocator.entries() =~= Seq::<(bool, u64)>::empty());
        allocator
    }

    /// Whether the next allocation can go ahead: it cannot if it would
    /// reuse a slot whose generation counter has run out.
    pub fn has_room(&self) -> (room: bool)
        requires
            self.wf(),
        ensures
            room == self.can_allocate(),
    {
        let free_len: usize = self.free.len();
        if free_len == 0 {
            true
        } else {
            let slot: usize = self.free[free_len - 1];
            assert(self.free()[free_len - 1] == slot);
            self.entries[slot].generation < u64::MAX
        }
    }

    /// Allocate an index, potentially reusing memory from a previously deallocated index.
    ///
    /// A reused slot moves to its next generation; a fresh slot starts at generation one.
    pub fn allocate(&mut self) -> (handle: GenerationalIndex)
        requires
            old(self).wf(),
            old(self).can_allocate(),
        ensures
            final(self).wf(),
            final(self).allocated_from(old(self), handle),
            final(self).live(handle),
            !old(self).issued(handle),
            handle.generation >= 1,
    {
        match self.free.pop() {
            Some(index) => {
                proof {
                    assert(old(self).free()[old(self).free().len() - 1] == index);
                }
                let generation: u64 = self.entries[index].generation + 1;
                self.entries.set(index, AllocatorEntry { is_live: true, generation });
                let handle = GenerationalIndex { index, generation };
                proof {
                    assert(self.entries() =~= old(self).entries().update(
                        index as int,
                        (true, generation),
                    ));
                    assert(self.free() =~= old(self).free().drop_last());
                    Self::lemma_allocate_keeps_wf(old(self), self, handle);
                }
                handle
            },
            None => {
                let index: usize = self.entries.len();
                self.entries.push(AllocatorEntry { is_live: true, generation: 1 });
                let handle = GenerationalIndex { index, generation: 1 };
                proof {
                    assert(self.entries() =~= old(self).entries().push((true, 1u64)));
                    Self::lemma_allocate_keeps_wf(old(self), self, handle);
                }
                handle
            },
        }
    }

    /// Attempt to deallocate an index.
    ///
    /// Returns `false`, and changes nothing, if the index is not live.
    pub fn deallocate(&mut self, index: GenerationalIndex) -> (done: bool)
        requires
            old(self).wf(),
        ensures
            final(self).wf(),
            done == old(self).live(index),
            final(self).deallocated_from(old(self), index, done),
            !final(self).live(index),
    {
        if !self.is_live(index) {
            false
        } else {
            let generation: u64 = self.entries[index.index].generation;
            self.entries.set(index.index, AllocatorEntry { is_live: false, generation });
            self.free.push(index.index);
            proof {
                assert(self.entries() =~= old(self).entries().update(
                    index.index as int,
                    (false, index.generation),
                ));
                Self::lemma_deallocate_keeps_wf(old(self), self, index);
            }
            true
        }
    }

    /// Returns `true` only if the index was allocated and has not been deallocated since.
    pub fn is_live(&self, index: GenerationalIndex) -> (live: bool)
        ensures
            live == self.live(index),
    {
        if index.index >= self.entries.len() {
            return false;
        }
        let entry = &self.entries[index.index];
        entry.is_live && entry.generation == index.generation
    }

    /// A cursor over all live handles, in slot order.
    pub fn iter(&self) -> (iter: GenerationalIndexIter<'_>)
        ensures
            iter.remaining() == self.live_handles(),
            iter.source() == self,
            iter.cursor() == 0,
    {
        GenerationalIndexIter { pool: self, index: 0 }
    }

    /// An allocation keeps the allocator well formed.
    pub proof fn lemma_allocate_keeps_wf(pre: &Self, post: &Self, handle: GenerationalIndex)
        requires
            pre.wf(),
            post.allocated_from(pre, handle),
        ensures
            post.wf(),
    {
        if pre.free().len() > 0 {
            let slot = handle.index;
            let last = pre.free().len() - 1;
            assert(pre.free()[last] == slot);
            assert forall|i: int| 0 <= i < post.free().len() implies {
                &&& (#[trigger] post.free()[i]) < post.entries().len()
                &&& !post.entries()[post.free()[i] as int].0
            } by {
                assert(post.free()[i] == pre.free()[i]);
                assert(pre.free()[i] != pre.free()[last]);
            }
            assert forall|s: int|
                0 <= s < post.entries().len() && !(#[trigger] post.entries()[s]).0
            implies post.is_free(s) by {
                assert(s != slot);
                assert(!pre.entries()[s].0);
                assert(pre.is_free(s));
                let i = choose|i: int| 0 <= i < pre.free().len() && pre.free()[i] == s;
                assert(i != last);
                assert(post.free()[i] == s);
            }
        } else {
            assert forall|s: int|
                0 <= s < post.entries().len() && !(#[trigger] post.entries()[s]).0
            implies post.is_free(s) by {
                assert(s < pre.entries().len());
                assert(!pre.entries()[s].0);
                assert(pre.is_free(s));
                let i = choose|i: int| 0 <= i < pre.free().len() && pre.free()[i] == s;
                assert(post.free()[i] == s);
            }
        }
    }

    /// A deallocation keeps the allocator well formed.
    pub proof fn lemma_deallocate_keeps_wf(pre: &Self, post: &Self, handle: GenerationalIndex)
        requires
            pre.wf(),
            post.deallocated_from(pre, handle, pre.live(handle)),
        ensures
            post.wf(),
    {
        if pre.live(handle) {
            let slot = handle.index;
            let n = pre.free().len() as int;
            assert forall|i: int, j: int|
                0 <= i < post.free().len() && 0 <= j < post.free().len() && i != j
            implies post.free()[i] != post.free()[j] by {
                if i < n && j < n {
                } else if i < n {
                    assert(!pre.entries()[pre.free()[i] as int].0);
                } else {
                    assert(!pre.entries()[pre.free()[j] as int].0);
                }
            }
            assert forall|i: int| 0 <= i < post.free().len() implies {
                &&& (#[trigger] post.free()[i]) < post.entries().len()
                &&& !post.entries()[post.free()[i] as int].0
            } by {
                if i < n {
                    assert(post.free()[i] == pre.free()[i]);
                }
            }
            assert forall|s: int|
                0 <= s < post.entries().len() && !(#[trigger] post.entries()[s]).0
            implies post.is_free(s) by {
                if s == slot {
                    assert(post.free()[n] == s);
                } else {
                    assert(!pre.entries()[s].0);
                    assert(pre.is_free(s));
                    let i = choose|i: int| 0 <= i < n && pre.free()[i] == s;
                    assert(post.free()[i] == s);
                }
            }
        }
    }
}

/// A cursor over the live handles of an allocator.
pub struct GenerationalIndexIter<'pool> {
    pool: &'pool GenerationalIndexAllocator,
    index: usize,
}

impl<'pool> GenerationalIndexIter<'pool> {
    /// The allocator that the cursor walks.
    pub closed spec fn source(&self) -> &GenerationalIndexAllocator {
        self.pool
    }

    /// The first slot that the cursor has not looked at yet.
    pub closed spec fn cursor(&self) -> int {
        self.index as int
    }

    /// The handles that the cursor has yet to produce.
    pub open spec fn remaining(&self) -> Seq<GenerationalIndex> {
        self.source().live_from(self.cursor())
    }

    /// The next live handle in slot order, if any is left.
    ///
    /// The cursor passes over dead slots and stops behind the slot of the
    /// handle that it returns.
    pub fn next(&mut self) -> (item: Option<GenerationalIndex>)
        ensures
            final(self).source() == old(self).source(),
            final(self).cursor() >= old(self).cursor(),
            forall|slot: int|
                old(self).cursor() <= slot < final(self).cursor() && slot
                    < old(self).source().entries().len() && (item.is_none() || slot
                    != item.unwrap().index) ==> !(#[trigger] old(self).source().entries()[slot]).0,
            match item {
                Some(handle) => {
                    &&& old(self).source().live(handle)
                    &&& old(self).cursor() <= handle.index
                    &&& final(self).cursor() == handle.index + 1
                    &&& old(self).remaining().len() > 0
                    &&& handle == old(self).remaining().first()
                    &&& final(self).remaining() == old(self).remaining().drop_first()
                },
                None => {
                    &&& final(self).cursor() >= old(self).source().entries().len()
                    &&& old(self).remaining().len() == 0
                    &&& final(self).remaining().len() == 0
                },
            },
    {
        let len: usize = self.pool.entries.len();
        while self.index < len
            invariant
                len == self.pool.entries@.len(),
                self.pool == old(self).pool,
                old(self).index <= self.index,
                self.pool.live_from(self.index as int) == old(self).remaining(),
                forall|slot: int|
                    old(self).index <= slot < self.index ==> !(
                    #[trigger] self.pool.entries()[slot]).0,
            decreases len - self.index,
        {
            let entry = &self.pool.entries[self.index];
            let slot: usize = self.index;
            self.index = self.index + 1;
            if entry.is_live {
                let handle = GenerationalIndex { index: slot, generation: entry.generation };
                proof {
                    let rest = self.pool.live_from(slot + 1);
                    assert(old(self).remaining() == seq![handle] + rest);
                    assert((seq![handle] + rest).drop_first() =~= rest);
                }
                return Some(handle);
            }
        }
        None
    }
}

/// One occupied slot of a table: the value and the generation it was written under.
struct ArrayEntry<T> {
    value: T,
    generation: u64,
}

/// A sparse table keyed by generational index.
///
/// Each slot is either absent or holds a value together with the generation
/// of the handle that wrote it; a read succeeds only under that generation.
pub struct GenerationalIndexVec<T>(Vec<Option<ArrayEntry<T>>>);

/// What a read of `table` under `handle` yields.
pub open spec fn table_get<T>(table: Seq<Option<(T, u64)>>, handle: GenerationalIndex) -> Option<
    T,
> {
    if handle.index < table.len() {
        match table[handle.index as int] {
            Some((value, generation)) => if generation == handle.generation {
                Some(value)
            } else {
                None
            },
            None => None,
        }
    } else {
        None
    }
}

/// The table after `value` is written under `handle`: the slot is
/// overwritten in place, or the table grows to reach it with absent slots
/// in between.
pub open spec fn table_set<T>(
    table: Seq<Option<(T, u64)>>,
    handle: GenerationalIndex,
    value: T,
) -> Seq<Option<(T, u64)>> {
    if handle.index < table.len() {
        table.update(handle.index as int, Some((value, handle.generation)))
    } else {
        (table + Seq::new((handle.index - table.len()) as nat, |i: int| None::<(T, u64)>)).push(
            Some((value, handle.generation)),
        )
    }
}

impl<T> View for GenerationalIndexVec<T> {
    type V = Seq<Option<(T, u64)>>;

    /// The slots in order, each absent or a value with its generation.
    closed spec fn view(&self) -> Seq<Option<(T, u64)>> {
        self.0@.map_values(
            |slot: Option<ArrayEntry<T>>|
                match slot {
                    Some(entry) => Some((entry.value, entry.generation)),
                    None => None,
                },
        )
    }
}

impl<T> GenerationalIndexVec<T> {
    /// What a read under `handle` yields.
    pub open spec fn value_at(&self, handle: GenerationalIndex) -> Option<T> {
        table_get(self@, handle)
    }

    /// A table with no slots.
    pub fn new() -> (table: Self)
        ensures
            table@ == Seq::<Option<(T, u64)>>::empty(),
    {
        let table = Self(Vec::new());
        assert(table@ =~= Seq::<Option<(T, u64)>>::empty());
        table
    }

    /// Number of slots, absent ones included.
    pub fn len(&self) -> (len: usize)
        ensures
            len == self@.len(),
    {
        self.0.len()
    }

    /// Set the value for some index, growing the table to reach the slot if needed.
    ///
    /// Whatever the slot held before, under any generation, is replaced.
    pub fn set(&mut self, index: GenerationalIndex, value: T)
        ensures
            final(self)@ == table_set(old(self)@, index, value),
            final(self).value_at(index) == Some(value),
            index.index < old(self)@.len() ==> final(self)@.len() == old(self)@.len(),
            index.index >= old(self)@.len() ==> final(self)@.len() == index.index + 1,
    {
        let new_entry = Some(ArrayEntry { value, generation: index.generation });
        let len: usize = self.0.len();
        if index.index < len {
            self.0.set(index.index, new_entry);
            assert(self@ =~= table_set(old(self)@, index, value));
        } else {
            while self.0.len() < index.index
                invariant
                    old(self)@.len() <= self.0@.len() <= index.index,
                    old(self)@.len() == old(self).0@.len(),
                    forall|i: int|
                        0 <= i < old(self).0@.len() ==> self.0@[i] == old(self).0@[i],
                    forall|i: int|
                        old(self).0@.len() <= i < self.0@.len() ==> self.0@[i].is_none(),
                decreases index.index - self.0@.len(),
            {
                self.0.push(None);
            }
            self.0.push(new_entry);
            assert(self@ =~= table_set(old(self)@, index, value));
        }
    }

    /// Get an immutable reference to the value for some index.
    ///
    /// Returns `None` if the slot is out of range, absent, or was written
    /// under another generation.
    pub fn get(&self, index: GenerationalIndex) -> (value: Option<&T>)
        ensures
            match value {
                Some(v) => self.value_at(index) == Some(*v),
                None => self.value_at(index).is_none(),
            },
    {
        if index.index >= self.0.len() {
            return None;
        }
        match &self.0[index.index] {
            Some(entry) => if entry.generation == index.generation {
                Some(&entry.value)
            } else {
                None
            },
            None => None,
        }
    }

    /// Get a mutable reference to the value for some index.
    ///
    /// Returns `None`, and leaves the table as it is, if the slot is out of
    /// range, absent, or was written under another generation.
    pub fn get_mut(&mut self, index: GenerationalIndex) -> (value: Option<&mut T>)
        ensures
            match value {
                Some(v) => {
                    &&& old(self).value_at(index) == Some(*v)
                    &&& final(self)@ == old(self)@.update(
                        index.index as int,
                        Some((*final(v), index.generation)),
                    )
                },
                None => {
                    &&& old(self).value_at(index).is_none()
                    &&& *final(self) == *old(self)
                },
            },
    {
        if index.index >= self.0.len() {
            return None;
        }
        let matches: bool = match &self.0[index.index] {
            Some(entry) => entry.generation == index.generation,
            None => false,
        };
        if !matches {
            return None;
        }
        match &mut self.0[index.index] {
            Some(entry) => Some(&mut entry.value),
            None => None,
        }
    }
}

} // verus!
