//! The navigation laws: what repeated wraparound steps do.
//!
//! The step functions' own contracts say what one step does; the proof
//! functions here state what sequences of steps do — that the steps generate
//! a cycle, and that a forward and a backward step cancel.

use vstd::prelude::*;

use crate::interface::{entry_after_next, entry_after_prev, next_index, prev_index};

verus! {

/// `k` forward steps from index `i` in a cycle of `n` items.
pub open spec fn iter_next(i: int, k: nat, n: int) -> int
    decreases k,
{
    if k == 0 {
        i
    } else {
        next_index(iter_next(i, (k - 1) as nat, n), n)
    }
}

/// `k` backward steps from index `i` in a cycle of `n` items.
pub open spec fn iter_prev(i: int, k: nat, n: int) -> int
    decreases k,
{
    if k == 0 {
        i
    } else {
        prev_index(iter_prev(i, (k - 1) as nat, n), n)
    }
}

/// Where `k ≤ n` forward steps land: on `i + k`, less one full turn once the
/// end is passed.
pub proof fn lemma_iter_next_shape(i: int, k: nat, n: int)
    requires
        0 <= i < n,
        k <= n,
    ensures
        iter_next(i, k, n) == (if i + k < n {
            i + k
        } else {
            i + k - n
        }),
    decreases k,
{
    if k > 0 {
        lemma_iter_next_shape(i, (k - 1) as nat, n);
    }
}

/// Where `k ≤ n` backward steps land: on `i - k`, plus one full turn once
/// the start is passed.
pub proof fn lemma_iter_prev_shape(i: int, k: nat, n: int)
    requires
        0 <= i < n,
        k <= n,
    ensures
        iter_prev(i, k, n) == (if i - k >= 0 {
            i - k
        } else {
            i - k + n
        }),
    decreases k,
{
    if k > 0 {
        lemma_iter_prev_shape(i, (k - 1) as nat, n);
    }
}

/// For any cycle of `n ≥ 1` items, exactly `n` forward steps return the
/// index to its original value, and so do `n` backward steps.
pub proof fn lemma_full_cycle(i: int, n: int)
    requires
        0 <= i < n,
    ensures
        iter_next(i, n as nat, n) == i,
        iter_prev(i, n as nat, n) == i,
{
    lemma_iter_next_shape(i, n as nat, n);
    lemma_iter_prev_shape(i, n as nat, n);
}

/// A forward step then a backward one — or the other way round — is the
/// identity on the index.
pub proof fn lemma_step_back_identity(i: int, n: int)
    requires
        0 <= i < n,
    ensures
        prev_index(next_index(i, n), n) == i,
        next_index(prev_index(i, n), n) == i,
{
}

/// Entry navigation never leaves the list: among `n ≥ 1` entries, from an
/// unset cursor or one on a valid entry, both steps land on a valid entry.
pub proof fn lemma_entry_step_in_range(sel: Option<usize>, n: int)
    requires
        n >= 1,
        sel matches Some(s) ==> s < n,
    ensures
        0 <= entry_after_next(sel, n) < n,
        0 <= entry_after_prev(sel, n) < n,
{
}

/// `k` forward entry steps from cursor `sel` among `n` entries.
pub open spec fn iter_entry_next(sel: Option<usize>, k: nat, n: int) -> Option<usize>
    decreases k,
{
    if k == 0 {
        sel
    } else {
        Some((entry_after_next(iter_entry_next(sel, (k - 1) as nat, n), n)) as usize)
    }
}

/// `k` backward entry steps from cursor `sel` among `n` entries.
pub open spec fn iter_entry_prev(sel: Option<usize>, k: nat, n: int) -> Option<usize>
    decreases k,
{
    if k == 0 {
        sel
    } else {
        Some((entry_after_prev(iter_entry_prev(sel, (k - 1) as nat, n), n)) as usize)
    }
}

/// A set entry cursor steps exactly as a list index does: the cursor stays
/// set and follows the index cycle.
pub proof fn lemma_entry_next_follows_index(s: usize, k: nat, n: int)
    requires
        0 <= s < n,
        n <= usize::MAX,
        k <= n,
    ensures
        iter_entry_next(Some(s), k, n) == Some((iter_next(s as int, k, n)) as usize),
    decreases k,
{
    lemma_iter_next_shape(s as int, k, n);
    if k > 0 {
        lemma_entry_next_follows_index(s, (k - 1) as nat, n);
        lemma_iter_next_shape(s as int, (k - 1) as nat, n);
    }
}

/// The backward counterpart: a set entry cursor follows the backward cycle.
pub proof fn lemma_entry_prev_follows_index(s: usize, k: nat, n: int)
    requires
        0 <= s < n,
        n <= usize::MAX,
        k <= n,
    ensures
        iter_entry_prev(Some(s), k, n) == Some((iter_prev(s as int, k, n)) as usize),
    decreases k,
{
    lemma_iter_prev_shape(s as int, k, n);
    if k > 0 {
        lemma_entry_prev_follows_index(s, (k - 1) as nat, n);
        lemma_iter_prev_shape(s as int, (k - 1) as nat, n);
    }
}

/// For an active list with `m ≥ 1` entries and the cursor on one of them,
/// exactly `m` forward entry steps return the cursor to its original entry,
/// and so do `m` backward steps.
pub proof fn lemma_entry_full_cycle(s: usize, m: int)
    requires
        0 <= s < m,
        m <= usize::MAX,
    ensures
        iter_entry_next(Some(s), m as nat, m) == Some(s),
        iter_entry_prev(Some(s), m as nat, m) == Some(s),
{
    lemma_entry_next_follows_index(s, m as nat, m);
    lemma_entry_prev_follows_index(s, m as nat, m);
    lemma_full_cycle(s as int, m);
}

} // verus!
