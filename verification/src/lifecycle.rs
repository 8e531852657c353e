//! Theorems about the life of a handle: what an allocation and a
//! deallocation do to every handle, and what follows over any history of
//! an allocator.

use crate::generation::{table_get, table_set, GenerationalIndex, GenerationalIndexAllocator};
use vstd::prelude::*;

verus! {

/// An allocation returns a handle that was never issued before, makes it
/// live, keeps every issued handle issued, and changes the liveness of no
/// other handle.
pub proof fn lemma_allocate_is_fresh(
    pre: &GenerationalIndexAllocator,
    post: &GenerationalIndexAllocator,
    handle: GenerationalIndex,
)
    requires
        pre.wf(),
        post.allocated_from(pre, handle),
    ensures
        post.wf(),
        !pre.issued(handle),
        !pre.live(handle),
        post.issued(handle),
        post.live(handle),
        forall|other: GenerationalIndex| pre.issued(other) ==> post.issued(other),
        forall|other: GenerationalIndex| other != handle ==> post.live(other) == pre.live(other),
{
    GenerationalIndexAllocator::lemma_allocate_keeps_wf(pre, post, handle);
    if pre.free().len() > 0 {
        let last = pre.free().len() - 1;
        assert(pre.free()[last] == handle.index);
        assert(!pre.entries()[handle.index as int].0);
    }
}

/// A deallocation reports whether the handle was live, leaves the handle
/// dead, and changes neither the liveness of another handle nor which
/// handles have been issued.
pub proof fn lemma_deallocate_retires_one(
    pre: &GenerationalIndexAllocator,
    post: &GenerationalIndexAllocator,
    handle: GenerationalIndex,
    done: bool,
)
    requires
        pre.wf(),
        post.deallocated_from(pre, handle, done),
    ensures
        post.wf(),
        done == pre.live(handle),
        !post.live(handle),
        forall|other: GenerationalIndex| other != handle ==> post.live(other) == pre.live(other),
        forall|other: GenerationalIndex| post.issued(other) == pre.issued(other),
{
    GenerationalIndexAllocator::lemma_deallocate_keeps_wf(pre, post, handle);
}

/// Deallocating the same handle a second time reports `false` and changes
/// nothing.
pub proof fn lemma_second_deallocate_is_refused(
    pre: &GenerationalIndexAllocator,
    mid: &GenerationalIndexAllocator,
    post: &GenerationalIndexAllocator,
    handle: GenerationalIndex,
    first: bool,
    second: bool,
)
    requires
        pre.wf(),
        mid.deallocated_from(pre, handle, first),
        post.deallocated_from(mid, handle, second),
    ensures
        first == pre.live(handle),
        !second,
        post.entries() == mid.entries(),
        post.free() == mid.free(),
{
}

/// One call on an allocator: an allocation or an attempted deallocation.
pub open spec fn step(pre: &GenerationalIndexAllocator, post: &GenerationalIndexAllocator) -> bool {
    ||| exists|handle: GenerationalIndex| post.allocated_from(pre, handle)
    ||| exists|handle: GenerationalIndex, done: bool| post.deallocated_from(pre, handle, done)
}

/// The states of an allocator from its creation on, each reached from the
/// one before by one call.
pub open spec fn history(states: Seq<GenerationalIndexAllocator>) -> bool {
    &&& states.len() > 0
    &&& states[0].entries().len() == 0
    &&& states[0].free().len() == 0
    &&& forall|k: int| 0 <= k < states.len() - 1 ==> #[trigger] step_at(states, k)
}

/// The call that leads from state `k` of a history to the next.
pub open spec fn step_at(states: Seq<GenerationalIndexAllocator>, k: int) -> bool {
    step(&states[k], &states[k + 1])
}

/// The call that follows state `k` deallocates `handle`.
pub open spec fn deallocates_at(
    states: Seq<GenerationalIndexAllocator>,
    k: int,
    handle: GenerationalIndex,
) -> bool {
    states[k + 1].deallocated_from(&states[k], handle, true)
}

/// Every state of a history is well formed.
pub proof fn lemma_history_is_wf(states: Seq<GenerationalIndexAllocator>, k: int)
    requires
        history(states),
        0 <= k < states.len(),
    ensures
        states[k].wf(),
    decreases k,
{
    if k > 0 {
        lemma_history_is_wf(states, k - 1);
        let pre = &states[k - 1];
        let post = &states[k];
        assert(step_at(states, k - 1));
        if exists|handle: GenerationalIndex| post.allocated_from(pre, handle) {
            let handle = choose|handle: GenerationalIndex| post.allocated_from(pre, handle);
            lemma_allocate_is_fresh(pre, post, handle);
        } else {
            let (handle, done) = choose|handle: GenerationalIndex, done: bool|
                post.deallocated_from(pre, handle, done);
            lemma_deallocate_retires_one(pre, post, handle, done);
        }
    }
}

/// A handle that has been issued stays issued in every later state.
pub proof fn lemma_issued_persists(
    states: Seq<GenerationalIndexAllocator>,
    i: int,
    k: int,
    handle: GenerationalIndex,
)
    requires
        history(states),
        0 <= i <= k < states.len(),
        states[i].issued(handle),
    ensures
        states[k].issued(handle),
    decreases k - i,
{
    if i < k {
        lemma_issued_persists(states, i, k - 1, handle);
        lemma_history_is_wf(states, k - 1);
        let pre = &states[k - 1];
        let post = &states[k];
        assert(step_at(states, k - 1));
        if exists|fresh: GenerationalIndex| post.allocated_from(pre, fresh) {
            let fresh = choose|fresh: GenerationalIndex| post.allocated_from(pre, fresh);
            lemma_allocate_is_fresh(pre, post, fresh);
        } else {
            let (other, done) = choose|other: GenerationalIndex, done: bool|
                post.deallocated_from(pre, other, done);
            lemma_deallocate_retires_one(pre, post, other, done);
        }
    }
}

/// No two allocations in the history of an allocator return equal handles.
pub proof fn lemma_allocations_never_repeat(
    states: Seq<GenerationalIndexAllocator>,
    i: int,
    j: int,
    first: GenerationalIndex,
    second: GenerationalIndex,
)
    requires
        history(states),
        0 <= i < j < states.len() - 1,
        states[i + 1].allocated_from(&states[i], first),
        states[j + 1].allocated_from(&states[j], second),
    ensures
        first != second,
{
    lemma_history_is_wf(states, i);
    lemma_history_is_wf(states, j);
    lemma_allocate_is_fresh(&states[i], &states[i + 1], first);
    lemma_issued_persists(states, i + 1, j, first);
    lemma_allocate_is_fresh(&states[j], &states[j + 1], second);
}

/// A live handle stays live as long as no call deallocates it.
pub proof fn lemma_live_until_deallocated(
    states: Seq<GenerationalIndexAllocator>,
    i: int,
    k: int,
    handle: GenerationalIndex,
)
    requires
        history(states),
        0 <= i <= k < states.len(),
        states[i].live(handle),
        forall|m: int| i <= m < k ==> !#[trigger] deallocates_at(states, m, handle),
    ensures
        states[k].live(handle),
    decreases k - i,
{
    if i < k {
        lemma_live_until_deallocated(states, i, k - 1, handle);
        lemma_history_is_wf(states, k - 1);
        let pre = &states[k - 1];
        let post = &states[k];
        assert(step_at(states, k - 1));
        assert(!deallocates_at(states, k - 1, handle));
        if exists|fresh: GenerationalIndex| post.allocated_from(pre, fresh) {
            let fresh = choose|fresh: GenerationalIndex| post.allocated_from(pre, fresh);
            lemma_allocate_is_fresh(pre, post, fresh);
        } else {
            let (other, done) = choose|other: GenerationalIndex, done: bool|
                post.deallocated_from(pre, other, done);
            lemma_deallocate_retires_one(pre, post, other, done);
        }
    }
}

/// A handle that was issued and is no longer live is never live again:
/// its slot is only ever reused under a newer generation.
pub proof fn lemma_dead_stays_dead(
    states: Seq<GenerationalIndexAllocator>,
    i: int,
    k: int,
    handle: GenerationalIndex,
)
    requires
        history(states),
        0 <= i <= k < states.len(),
        states[i].issued(handle),
        !states[i].live(handle),
    ensures
        states[k].issued(handle),
        !states[k].live(handle),
    decreases k - i,
{
    if i < k {
        lemma_dead_stays_dead(states, i, k - 1, handle);
        lemma_history_is_wf(states, k - 1);
        let pre = &states[k - 1];
        let post = &states[k];
        assert(step_at(states, k - 1));
        if exists|fresh: GenerationalIndex| post.allocated_from(pre, fresh) {
            let fresh = choose|fresh: GenerationalIndex| post.allocated_from(pre, fresh);
            lemma_allocate_is_fresh(pre, post, fresh);
        } else {
            let (other, done) = choose|other: GenerationalIndex, done: bool|
                post.deallocated_from(pre, other, done);
            lemma_deallocate_retires_one(pre, post, other, done);
        }
    }
}

/// Two live handles of one slot are the same handle.
pub proof fn lemma_live_handles_do_not_alias(
    allocator: &GenerationalIndexAllocator,
    a: GenerationalIndex,
    b: GenerationalIndex,
)
    requires
        allocator.live(a),
        allocator.live(b),
        a.index == b.index,
    ensures
        a == b,
{
}

/// A read right after a write under the same handle yields the value written.
pub proof fn lemma_get_after_set<T>(
    table: Seq<Option<(T, u64)>>,
    handle: GenerationalIndex,
    value: T,
)
    ensures
        table_get(table_set(table, handle, value), handle) == Some(value),
{
}

/// A write under one handle leaves what every other slot reads as.
pub proof fn lemma_set_keeps_other_slots<T>(
    table: Seq<Option<(T, u64)>>,
    handle: GenerationalIndex,
    value: T,
    other: GenerationalIndex,
)
    requires
        other.index != handle.index,
    ensures
        table_get(table_set(table, handle, value), other) == table_get(table, other),
{
}

/// After a write, a handle of the same slot with another generation reads
/// nothing.
pub proof fn lemma_stale_handle_reads_nothing<T>(
    table: Seq<Option<(T, u64)>>,
    handle: GenerationalIndex,
    value: T,
    stale: GenerationalIndex,
)
    requires
        stale.index == handle.index,
        stale.generation != handle.generation,
    ensures
        table_get(table_set(table, handle, value), stale).is_none(),
{
}

/// Writing under one handle repeatedly keeps the table's length, and the
/// last value written is the one read.
pub proof fn lemma_overwrite_keeps_len<T>(
    table: Seq<Option<(T, u64)>>,
    handle: GenerationalIndex,
    first: T,
    second: T,
)
    ensures
        table_set(table_set(table, handle, first), handle, second).len() == table_set(
            table,
            handle,
            first,
        ).len(),
        table_get(table_set(table_set(table, handle, first), handle, second), handle) == Some(
            second,
        ),
{
}

/// A write beyond the end grows the table to reach the slot and leaves the
/// slots in between absent.
pub proof fn lemma_set_beyond_end_fills_gap<T>(
    table: Seq<Option<(T, u64)>>,
    handle: GenerationalIndex,
    value: T,
)
    requires
        handle.index >= table.len(),
    ensures
        table_set(table, handle, value).len() == handle.index + 1,
        forall|i: int| 0 <= i < table.len() ==> table_set(table, handle, value)[i] == table[i],
        forall|i: int|
            table.len() <= i < handle.index ==> table_set(table, handle, value)[i].is_none(),
{
}

} // verus!
