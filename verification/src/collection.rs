//! The built item collection: a linear index space over the rows, their
//! vertical layout, and verb dispatch to a single row.
//!
//! Rows are stacked top to bottom in append order, each directly below the
//! one before it, so a row's top is the sum of the heights before it.

use vstd::prelude::*;
use crate::interaction::InteractionType;
use crate::items::MenuItem;

verus! {

/// Every row of the collection is well formed.
pub open spec fn items_wf<R>(items: Seq<MenuItem<R>>) -> bool {
    forall|i: int| 0 <= i < items.len() ==> (#[trigger] items[i]).wf()
}

/// The stacked height of a whole item sequence.
pub open spec fn total_height<R>(items: Seq<MenuItem<R>>) -> int
    decreases items.len(),
{
    if items.len() == 0 {
        0
    } else {
        total_height(items.drop_last()) + items.last().height
    }
}

/// The top of row `i` in content coordinates: the stacked height of the
/// rows before it.  At `i == len` this is the bottom of the last row.
pub open spec fn item_top<R>(items: Seq<MenuItem<R>>, i: int) -> int {
    total_height(items.take(i))
}

/// Stacked heights are never negative.
pub proof fn lemma_total_height_nonneg<R>(items: Seq<MenuItem<R>>)
    ensures
        0 <= total_height(items),
    decreases items.len(),
{
    if items.len() > 0 {
        lemma_total_height_nonneg(items.drop_last());
    }
}

/// Rows stack without overlap or gap: each row's bottom is the next row's
/// top.
pub proof fn lemma_item_top_step<R>(items: Seq<MenuItem<R>>, i: int)
    requires
        0 <= i < items.len(),
    ensures
        item_top(items, i + 1) == item_top(items, i) + items[i].height,
{
    assert(items.take(i + 1).drop_last() =~= items.take(i));
}

/// Row tops lie between the top of the first row and the stacked height of
/// the whole collection.
pub proof fn lemma_item_top_bounds<R>(items: Seq<MenuItem<R>>, i: int)
    requires
        0 <= i <= items.len(),
    ensures
        0 <= item_top(items, i) <= total_height(items),
    decreases items.len() - i,
{
    lemma_total_height_nonneg(items.take(i));
    if i == items.len() {
        assert(items.take(i) =~= items);
    } else {
        lemma_item_top_step(items, i);
        lemma_item_top_bounds(items, i + 1);
    }
}

/// Appending a row grows the stacked height by exactly that row's height.
pub proof fn lemma_total_height_push<R>(items: Seq<MenuItem<R>>, item: MenuItem<R>)
    ensures
        total_height(items.push(item)) == total_height(items) + item.height,
{
    assert(items.push(item).drop_last() =~= items);
}

/// Stacked heights add up over concatenation.
pub proof fn lemma_total_height_concat<R>(a: Seq<MenuItem<R>>, b: Seq<MenuItem<R>>)
    ensures
        total_height(a + b) == total_height(a) + total_height(b),
    decreases b.len(),
{
    if b.len() == 0 {
        assert(a + b =~= a);
    } else {
        assert((a + b).drop_last() =~= a + b.drop_last());
        lemma_total_height_concat(a, b.drop_last());
    }
}

/// Replacing a row with one of the same height keeps the stacked height.
pub proof fn lemma_total_height_update<R>(items: Seq<MenuItem<R>>, i: int, item: MenuItem<R>)
    requires
        0 <= i < items.len(),
        item.height == items[i].height,
    ensures
        total_height(items.update(i, item)) == total_height(items),
    decreases items.len(),
{
    let t = items.update(i, item);
    if i == items.len() - 1 {
        assert(t.drop_last() =~= items.drop_last());
    } else {
        assert(t.drop_last() =~= items.drop_last().update(i, item));
        lemma_total_height_update(items.drop_last(), i, item);
    }
}

/// The stacked height of the whole collection.
pub fn compute_total_height<R>(items: &Vec<MenuItem<R>>) -> (r: u32)
    requires
        total_height(items@) <= i32::MAX as int,
    ensures
        r as int == total_height(items@),
{
    let mut sum: u32 = 0;
    let mut j: usize = 0;
    while j < items.len()
        invariant
            j <= items@.len(),
            total_height(items@) <= i32::MAX as int,
            sum as int == item_top(items@, j as int),
        decreases items@.len() - j,
    {
        proof {
            lemma_item_top_step(items@, j as int);
            lemma_item_top_bounds(items@, j as int + 1);
        }
        sum = sum + items[j].height;
        j = j + 1;
    }
    proof {
        assert(items@.take(j as int) =~= items@);
    }
    sum
}

/// The top of row `i` in content coordinates.
pub fn compute_item_top<R>(items: &Vec<MenuItem<R>>, i: usize) -> (r: u32)
    requires
        i <= items@.len(),
        total_height(items@) <= i32::MAX as int,
    ensures
        r as int == item_top(items@, i as int),
{
    let mut sum: u32 = 0;
    let mut j: usize = 0;
    while j < i
        invariant
            j <= i <= items@.len(),
            total_height(items@) <= i32::MAX as int,
            sum as int == item_top(items@, j as int),
        decreases i - j,
    {
        proof {
            lemma_item_top_step(items@, j as int);
            lemma_item_top_bounds(items@, j as int + 1);
        }
        sum = sum + items[j].height;
        j = j + 1;
    }
    sum
}

/// Dispatch one verb to the row at linear index `index` alone; no other
/// row is touched.
pub fn interact_at<R: Copy>(
    items: &mut Vec<MenuItem<R>>,
    index: usize,
    verb: InteractionType,
) -> (r: Option<R>)
    requires
        index < old(items)@.len(),
        items_wf(old(items)@),
    ensures
        items_wf(final(items)@),
        final(items)@ == old(items)@.update(
            index as int,
            old(items)@[index as int].spec_interact(verb).0,
        ),
        r == old(items)@[index as int].spec_interact(verb).1,
{
    let elem = &mut items[index];
    elem.interact(verb)
}

} // verus!
