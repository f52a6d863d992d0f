//! The menu builder: accumulate rows, stamp the shared style onto each,
//! and materialize the menu.

use vstd::prelude::*;
use crate::collection::items_wf;
use crate::collection::lemma_total_height_concat;
use crate::collection::lemma_total_height_nonneg;
use crate::collection::lemma_total_height_push;
use crate::collection::total_height;
use crate::interaction::InteractionState;
use crate::items::MenuItem;
use crate::menu::Menu;
use crate::menu::MenuDisplayMode;
use crate::menu::MenuState;
use crate::selection_indicator::SelectionIndicator;
use crate::selection_indicator::animated::AnimatedSelectionIndicator;
use crate::selection_indicator::simple::SimpleSelectionIndicator;
use crate::style::MenuStyle;

verus! {

/// The rows of `items`, each with `style` stamped onto it.
pub open spec fn spec_styled_items<R>(
    items: Seq<MenuItem<R>>,
    style: MenuStyle,
) -> Seq<MenuItem<R>> {
    items.map(|i: int, it: MenuItem<R>| it.spec_styled(style))
}

/// A stamped run stacks to its length times the style's row height.
pub proof fn lemma_styled_items_height<R>(items: Seq<MenuItem<R>>, style: MenuStyle)
    ensures
        total_height(spec_styled_items(items, style)) == items.len() * style.item_height,
    decreases items.len(),
{
    if items.len() == 0 {
    } else {
        assert(spec_styled_items(items, style).drop_last() =~= spec_styled_items(
            items.drop_last(),
            style,
        ));
        lemma_styled_items_height(items.drop_last(), style);
        assert((items.len() - 1) * style.item_height + style.item_height == items.len()
            * style.item_height) by (nonlinear_arith);
    }
}

/// Accumulates rows into the item collection, stamping the shared style
/// onto each as it is added, and materializes the menu.  Every grow step
/// consumes the builder and returns the grown one, so a stale builder
/// value cannot be reused.
pub struct MenuBuilder<R> {
    /// The menu title.
    pub title: String,
    /// The shared style stamped onto every added row.
    pub style: MenuStyle,
    /// The rows added so far, in append order.
    pub items: Vec<MenuItem<R>>,
}

impl<R> MenuBuilder<R> {
    /// The style and every accumulated row are well formed, and the
    /// stacked height fits the coordinate space.
    pub open spec fn wf(self) -> bool {
        &&& self.style.wf()
        &&& items_wf(self.items@)
        &&& total_height(self.items@) <= i32::MAX as int
    }

    /// An empty builder bound to one title and one style; no rows yet.
    pub fn new(title: String, style: MenuStyle) -> (r: Self)
        requires
            style.wf(),
        ensures
            r.wf(),
            r.title == title,
            r.style == style,
            r.items@ == Seq::<MenuItem<R>>::empty(),
    {
        MenuBuilder { title, style, items: Vec::new() }
    }

    /// Stamp the style onto `item` and append it: the returned builder
    /// has grown by one slot and the passed-in builder is consumed.
    pub fn add_item(self, item: MenuItem<R>) -> (r: Self)
        requires
            self.wf(),
            item.wf(),
            total_height(self.items@) + self.style.item_height <= i32::MAX as int,
        ensures
            r.wf(),
            r.title == self.title,
            r.style == self.style,
            r.items@ == self.items@.push(item.spec_styled(self.style)),
            total_height(r.items@) == total_height(self.items@) + self.style.item_height,
    {
        let mut b = self;
        let mut it = item;
        it.set_style(&b.style);
        proof {
            lemma_total_height_push(b.items@, it);
        }
        b.items.push(it);
        b
    }

    /// Stamp the style onto every row of a homogeneous run and append
    /// them in order; the flattened index space runs across them exactly
    /// as if each had been added alone.
    pub fn add_items(self, items: Vec<MenuItem<R>>) -> (r: Self)
        requires
            self.wf(),
            items_wf(items@),
            total_height(self.items@) + items@.len() * self.style.item_height <= i32::MAX as int,
        ensures
            r.wf(),
            r.title == self.title,
            r.style == self.style,
            r.items@ == self.items@ + spec_styled_items(items@, self.style),
            total_height(r.items@) == total_height(self.items@) + items@.len()
                * self.style.item_height,
    {
        proof {
            lemma_styled_items_height(items@, self.style);
        }
        let ghost orig = items@;
        let ghost style0 = self.style;
        let mut b = self;
        let mut rest = items;
        let mut k: usize = 0;
        while k < rest.len()
            invariant
                b.style == style0,
                k <= rest@.len(),
                rest@.len() == orig.len(),
                items_wf(orig),
                forall|j: int|
                    0 <= j < k ==> #[trigger] rest@[j] == orig[j].spec_styled(style0),
                forall|j: int| k <= j < orig.len() ==> #[trigger] rest@[j] == orig[j],
            decreases rest@.len() - k,
        {
            let elem = &mut rest[k];
            elem.set_style(&b.style);
            k = k + 1;
        }
        proof {
            assert(rest@ =~= spec_styled_items(orig, style0));
            lemma_total_height_concat(b.items@, rest@);
        }
        b.items.append(&mut rest);
        b
    }

    /// Freeze the arrangement and produce the menu, with its state
    /// initialized: the first row selected, no scroll, targets to be
    /// recomputed, the list display mode with its configured countdown,
    /// a fresh controller state, and the indicator the style chose,
    /// resting at the top.  Building with no rows is legal; every
    /// selection or interaction on such a menu is a no-op.
    pub fn build(self) -> (r: Menu<R>)
        requires
            self.wf(),
        ensures
            r.wf(),
            r.title == self.title,
            r.style == self.style,
            r.items@ == self.items@,
            r.state.selected == 0,
            r.state.list_offset == 0,
            r.state.recompute_targets == true,
            r.state.display_mode == MenuDisplayMode::List(self.style.initial_countdown()),
            r.state.interaction_state == (InteractionState { consumed: 0 }),
            r.state.indicator == match self.style.animated_frames {
                Some(n) => SelectionIndicator::Animated(
                    AnimatedSelectionIndicator { current: 0, target: 0, remaining: 0, frames: n },
                ),
                None => SelectionIndicator::Simple(SimpleSelectionIndicator { y_offset: 0 }),
            },
    {
        proof {
            lemma_total_height_nonneg(self.items@);
        }
        let indicator = match self.style.animated_frames {
            Some(n) => SelectionIndicator::Animated(AnimatedSelectionIndicator::new(n)),
            None => SelectionIndicator::Simple(SimpleSelectionIndicator::new()),
        };
        let delay = self.style.countdown_start();
        Menu {
            title: self.title,
            items: self.items,
            style: self.style,
            state: MenuState {
                selected: 0,
                list_offset: 0,
                recompute_targets: true,
                display_mode: MenuDisplayMode::List(delay),
                interaction_state: InteractionState { consumed: 0 },
                indicator,
            },
        }
    }
}

impl<R> Menu<R> {
    /// Start building a menu: an empty builder bound to `title` and
    /// `style`.
    pub fn with_style(title: String, style: MenuStyle) -> (r: MenuBuilder<R>)
        requires
            style.wf(),
        ensures
            r.wf(),
            r.title == title,
            r.style == style,
            r.items@ == Seq::<MenuItem<R>>::empty(),
    {
        MenuBuilder::new(title, style)
    }
}

} // verus!
