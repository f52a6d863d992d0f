//! Selection traversal over the flattened item index space.
//!
//! The menu's rows form one linear index space `0..count` in append order.
//! Navigation verbs move the selection among the selectable rows only,
//! skipping decorative rows and clamping at the first and last selectable
//! index: there is no wraparound.

use vstd::prelude::*;
use crate::items::MenuItem;

verus! {

/// The selectable mask of an item sequence: one flag per row, in order.
pub open spec fn sel_mask<R>(items: Seq<MenuItem<R>>) -> Seq<bool> {
    Seq::new(items.len(), |i: int| items[i].selectable)
}

/// The first selectable index at or after `j`, if any.
pub open spec fn next_from(mask: Seq<bool>, j: int) -> Option<int>
    decreases mask.len() - j,
{
    if j >= mask.len() {
        None
    } else if 0 <= j && mask[j] {
        Some(j)
    } else {
        next_from(mask, j + 1)
    }
}

/// The last selectable index at or before `j`, if any.
pub open spec fn prev_from(mask: Seq<bool>, j: int) -> Option<int>
    decreases j + 1,
{
    if j < 0 {
        None
    } else if j < mask.len() && mask[j] {
        Some(j)
    } else {
        prev_from(mask, j - 1)
    }
}

/// Where one `Next` verb moves the selection from `i`: the first
/// selectable index after `i`, or `i` itself when none exists.
pub open spec fn next_selectable(mask: Seq<bool>, i: int) -> int {
    match next_from(mask, i + 1) {
        Some(j) => j,
        None => i,
    }
}

/// Where one `Previous` verb moves the selection from `i`: the last
/// selectable index before `i`, or `i` itself when none exists.
pub open spec fn prev_selectable(mask: Seq<bool>, i: int) -> int {
    match prev_from(mask, i - 1) {
        Some(j) => j,
        None => i,
    }
}

/// Where `n` consecutive `Next` moves land, starting from `i`.
pub open spec fn nav_forward_steps(mask: Seq<bool>, i: int, n: nat) -> int
    decreases n,
{
    if n == 0 {
        i
    } else {
        nav_forward_steps(mask, next_selectable(mask, i), (n - 1) as nat)
    }
}

/// Where `n` consecutive `Previous` moves land, starting from `i`.
pub open spec fn nav_backward_steps(mask: Seq<bool>, i: int, n: nat) -> int
    decreases n,
{
    if n == 0 {
        i
    } else {
        nav_backward_steps(mask, prev_selectable(mask, i), (n - 1) as nat)
    }
}

/// What `next_from` finds: the smallest selectable index at or after `j`.
pub proof fn lemma_next_from(mask: Seq<bool>, j: int)
    requires
        0 <= j,
    ensures
        match next_from(mask, j) {
            Some(k) => j <= k < mask.len() && mask[k] && (forall|m: int|
                j <= m < k ==> !mask[m]),
            None => forall|m: int| j <= m < mask.len() ==> !mask[m],
        },
    decreases mask.len() - j,
{
    if j >= mask.len() {
    } else if mask[j] {
    } else {
        lemma_next_from(mask, j + 1);
    }
}

/// What `prev_from` finds: the largest selectable index at or before `j`.
pub proof fn lemma_prev_from(mask: Seq<bool>, j: int)
    requires
        j < mask.len(),
    ensures
        match prev_from(mask, j) {
            Some(k) => 0 <= k <= j && mask[k] && (forall|m: int|
                k < m <= j ==> !mask[m]),
            None => forall|m: int| 0 <= m <= j ==> !mask[m],
        },
    decreases j + 1,
{
    if j < 0 {
    } else if mask[j] {
    } else {
        lemma_prev_from(mask, j - 1);
    }
}

/// One `Next` move stays in range and lands on a selectable index
/// whenever it moves at all.
pub proof fn lemma_next_selectable_props(mask: Seq<bool>, i: int)
    requires
        0 <= i < mask.len(),
    ensures
        i <= next_selectable(mask, i) < mask.len(),
        next_selectable(mask, i) == i || mask[next_selectable(mask, i)],
{
    lemma_next_from(mask, i + 1);
}

/// One `Previous` move stays in range and lands on a selectable index
/// whenever it moves at all.
pub proof fn lemma_prev_selectable_props(mask: Seq<bool>, i: int)
    requires
        0 <= i < mask.len(),
    ensures
        0 <= prev_selectable(mask, i) <= i,
        prev_selectable(mask, i) == i || mask[prev_selectable(mask, i)],
{
    lemma_prev_from(mask, i - 1);
}

/// A forward page move stays in range, lands on a selectable index
/// whenever it moves, and never leaves the selectable rows once on them.
pub proof fn lemma_nav_forward_steps_props(mask: Seq<bool>, i: int, n: nat)
    requires
        0 <= i < mask.len(),
    ensures
        0 <= nav_forward_steps(mask, i, n) < mask.len(),
        nav_forward_steps(mask, i, n) == i || mask[nav_forward_steps(mask, i, n)],
        mask[i] ==> mask[nav_forward_steps(mask, i, n)],
    decreases n,
{
    if n != 0 {
        lemma_next_selectable_props(mask, i);
        lemma_nav_forward_steps_props(mask, next_selectable(mask, i), (n - 1) as nat);
    }
}

/// A backward page move stays in range, lands on a selectable index
/// whenever it moves, and never leaves the selectable rows once on them.
pub proof fn lemma_nav_backward_steps_props(mask: Seq<bool>, i: int, n: nat)
    requires
        0 <= i < mask.len(),
    ensures
        0 <= nav_backward_steps(mask, i, n) < mask.len(),
        nav_backward_steps(mask, i, n) == i || mask[nav_backward_steps(mask, i, n)],
        mask[i] ==> mask[nav_backward_steps(mask, i, n)],
    decreases n,
{
    if n != 0 {
        lemma_prev_selectable_props(mask, i);
        lemma_nav_backward_steps_props(mask, prev_selectable(mask, i), (n - 1) as nat);
    }
}

/// One navigation move: forward (`true`) to the next selectable row or
/// backward (`false`) to the previous one, clamping at the ends.
pub open spec fn nav_move(mask: Seq<bool>, i: int, forward: bool) -> int {
    if forward {
        next_selectable(mask, i)
    } else {
        prev_selectable(mask, i)
    }
}

/// Where a whole sequence of single-step navigation moves lands, applied
/// first to last.
pub open spec fn apply_moves(mask: Seq<bool>, i: int, moves: Seq<bool>) -> int
    decreases moves.len(),
{
    if moves.len() == 0 {
        i
    } else {
        apply_moves(mask, nav_move(mask, i, moves[0]), moves.drop_first())
    }
}

/// Law: for a non-empty collection, after any sequence of `Previous` and
/// `Next` moves the selection stays within `[0, count)`; it is selectable
/// unless it never left a non-selectable starting index, and when the
/// start is selectable every position it ever lands on is selectable.
pub proof fn lemma_nav_moves_stay_in_range(mask: Seq<bool>, i: int, moves: Seq<bool>)
    requires
        0 <= i < mask.len(),
    ensures
        0 <= apply_moves(mask, i, moves) < mask.len(),
        apply_moves(mask, i, moves) == i || mask[apply_moves(mask, i, moves)],
        mask[i] ==> mask[apply_moves(mask, i, moves)],
    decreases moves.len(),
{
    if moves.len() != 0 {
        let i1 = nav_move(mask, i, moves[0]);
        if moves[0] {
            lemma_next_selectable_props(mask, i);
        } else {
            lemma_prev_selectable_props(mask, i);
        }
        lemma_nav_moves_stay_in_range(mask, i1, moves.drop_first());
    }
}

/// Law: from a selectable position, `Next` then `Previous` returns to the
/// original selection whenever `Next` moved at all; at the boundaries the
/// clamped moves keep the selection where it is.
pub proof fn lemma_next_then_previous_inverse(mask: Seq<bool>, i: int)
    requires
        0 <= i < mask.len(),
        mask[i],
    ensures
        next_selectable(mask, i) != i ==> prev_selectable(mask, next_selectable(mask, i)) == i,
        (forall|j: int| i < j < mask.len() ==> !mask[j]) ==> next_selectable(mask, i) == i,
        (forall|j: int| 0 <= j < i ==> !mask[j]) ==> prev_selectable(mask, i) == i,
{
    lemma_next_from(mask, i + 1);
    let n = next_selectable(mask, i);
    if n != i {
        lemma_prev_from(mask, n - 1);
        match prev_from(mask, n - 1) {
            Some(k) => {
                assert(k <= i) by {
                    if i < k {
                        assert(!mask[k]);
                    }
                }
                assert(i <= k) by {
                    if k < i {
                        assert(!mask[i]);
                    }
                }
            },
            None => {
                assert(!mask[i]);
            },
        }
    }
    lemma_prev_from(mask, i - 1);
    if prev_from(mask, i - 1) is Some {
        let k = prev_from(mask, i - 1)->Some_0;
        assert(mask[k]);
    }
}

/// Law: when every row from `i` on is selectable, a forward page move of
/// `p` positions from index `i` lands on `i + p`, clamped to the last
/// selectable index — which is then the last row.
pub proof fn lemma_page_next_all_selectable(mask: Seq<bool>, i: int, p: nat)
    requires
        0 <= i < mask.len(),
        forall|j: int| i <= j < mask.len() ==> mask[j],
    ensures
        nav_forward_steps(mask, i, p) == if i + p <= mask.len() - 1 {
            i + p
        } else {
            mask.len() - 1
        },
    decreases p,
{
    if p != 0 {
        lemma_next_from(mask, i + 1);
        let n = next_selectable(mask, i);
        assert(n == if i + 1 <= mask.len() - 1 {
            i + 1
        } else {
            i
        }) by {
            if i + 1 < mask.len() {
                assert(mask[i + 1]);
            }
        }
        lemma_page_next_all_selectable(mask, n, (p - 1) as nat);
    }
}

/// The first selectable index after `i`, found by a forward scan.
pub fn find_next<R>(items: &Vec<MenuItem<R>>, i: usize) -> (r: usize)
    requires
        i < items@.len(),
    ensures
        r as int == next_selectable(sel_mask(items@), i as int),
        r < items@.len(),
{
    let ghost mask = sel_mask(items@);
    let n = items.len();
    let mut j: usize = i + 1;
    while j < n
        invariant
            i < items@.len(),
            n == items@.len(),
            i + 1 <= j <= items@.len(),
            mask == sel_mask(items@),
            next_from(mask, i as int + 1) == next_from(mask, j as int),
        decreases items@.len() - j,
    {
        if items[j].selectable {
            return j;
        }
        j = j + 1;
    }
    i
}

/// The last selectable index before `i`, found by a backward scan.
pub fn find_prev<R>(items: &Vec<MenuItem<R>>, i: usize) -> (r: usize)
    requires
        i < items@.len(),
    ensures
        r as int == prev_selectable(sel_mask(items@), i as int),
        r < items@.len(),
{
    let ghost mask = sel_mask(items@);
    let mut j: usize = i;
    while j > 0
        invariant
            j <= i < items@.len(),
            mask == sel_mask(items@),
            prev_from(mask, i as int - 1) == prev_from(mask, j as int - 1),
        decreases j,
    {
        if items[j - 1].selectable {
            return j - 1;
        }
        j = j - 1;
    }
    i
}

/// Where `p` consecutive `Next` moves land, starting from `i`.
pub fn find_page_next<R>(items: &Vec<MenuItem<R>>, i: usize, p: u32) -> (r: usize)
    requires
        i < items@.len(),
    ensures
        r as int == nav_forward_steps(sel_mask(items@), i as int, p as nat),
        r < items@.len(),
{
    let ghost mask = sel_mask(items@);
    let mut cur: usize = i;
    let mut k: u32 = 0;
    while k < p
        invariant
            cur < items@.len(),
            k <= p,
            mask == sel_mask(items@),
            nav_forward_steps(mask, i as int, p as nat) == nav_forward_steps(
                mask,
                cur as int,
                (p - k) as nat,
            ),
        decreases p - k,
    {
        proof {
            lemma_next_selectable_props(mask, cur as int);
        }
        cur = find_next(items, cur);
        k = k + 1;
    }
    cur
}

/// Where `p` consecutive `Previous` moves land, starting from `i`.
pub fn find_page_prev<R>(items: &Vec<MenuItem<R>>, i: usize, p: u32) -> (r: usize)
    requires
        i < items@.len(),
    ensures
        r as int == nav_backward_steps(sel_mask(items@), i as int, p as nat),
        r < items@.len(),
{
    let ghost mask = sel_mask(items@);
    let mut cur: usize = i;
    let mut k: u32 = 0;
    while k < p
        invariant
            cur < items@.len(),
            k <= p,
            mask == sel_mask(items@),
            nav_backward_steps(mask, i as int, p as nat) == nav_backward_steps(
                mask,
                cur as int,
                (p - k) as nat,
            ),
        decreases p - k,
    {
        proof {
            lemma_prev_selectable_props(mask, cur as int);
        }
        cur = find_prev(items, cur);
        k = k + 1;
    }
    cur
}

} // verus!
