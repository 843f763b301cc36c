//! Unique debugging identifiers.

use vstd::prelude::*;

verus! {

/// A source of debugging identifiers: `next` is the one handed out next.
#[derive(Debug)]
pub struct DebugIds {
    pub next: usize,
}

impl DebugIds {
    /// A source whose first identifier is `1`.
    pub fn new() -> (ids: DebugIds)
        ensures
            ids.next == 1,
    {
        DebugIds { next: 1 }
    }
}

/// The identifier handed out after `id` (wrapping around, as an atomic
/// `fetch_add` does).
pub open spec fn following_id(id: usize) -> usize {
    if id == usize::MAX {
        0
    } else {
        (id + 1) as usize
    }
}

/// The identifier handed out by the `k`-th call, counting from `0`, of a
/// source whose next identifier is `start`.
pub open spec fn nth_id(start: usize, k: nat) -> usize
    decreases k,
{
    if k == 0 {
        start
    } else {
        following_id(nth_id(start, (k - 1) as nat))
    }
}

/// Creates a new unique debugging identifier: the next one of `ids`, which
/// then moves on by one.
pub fn debug_id(ids: &mut DebugIds) -> (id: usize)
    ensures
        id == old(ids).next,
        final(ids).next == following_id(old(ids).next),
{
    let id = ids.next;
    ids.next = if id == usize::MAX {
        0
    } else {
        id + 1
    };
    id
}

/// Identifiers are unique: calls that do not go past `usize::MAX` hand out
/// `start`, `start + 1`, ... each once.
pub proof fn debug_ids_unique(start: usize, i: nat, j: nat)
    requires
        i < j,
        start + j <= usize::MAX,
    ensures
        nth_id(start, i) == start + i,
        nth_id(start, j) == start + j,
        nth_id(start, i) != nth_id(start, j),
{
    lemma_nth_id(start, i);
    lemma_nth_id(start, j);
}

proof fn lemma_nth_id(start: usize, k: nat)
    requires
        start + k <= usize::MAX,
    ensures
        nth_id(start, k) == start + k,
    decreases k,
{
    if k > 0 {
        lemma_nth_id(start, (k - 1) as nat);
    }
}

} // verus!
