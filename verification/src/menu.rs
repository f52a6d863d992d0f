//! The menu state machine and orchestrator: selection, scrolling, display
//! mode timing, and the per-frame display list.

use vstd::prelude::*;
use crate::collection::compute_item_top;
use crate::collection::interact_at;
use crate::collection::item_top;
use crate::collection::items_wf;
use crate::collection::lemma_item_top_bounds;
use crate::collection::lemma_item_top_step;
use crate::collection::lemma_total_height_nonneg;
use crate::collection::lemma_total_height_update;
use crate::collection::total_height;
use crate::draw::DrawCommand;
use crate::interaction::InputEvent;
use crate::interaction::InteractionState;
use crate::interaction::InteractionType;
use crate::items::MenuItem;
use crate::selection::find_next;
use crate::selection::find_page_next;
use crate::selection::find_page_prev;
use crate::selection::find_prev;
use crate::selection::lemma_nav_backward_steps_props;
use crate::selection::lemma_nav_forward_steps_props;
use crate::selection::lemma_next_selectable_props;
use crate::selection::lemma_prev_selectable_props;
use crate::selection::nav_backward_steps;
use crate::selection::nav_forward_steps;
use crate::selection::next_selectable;
use crate::selection::prev_selectable;
use crate::selection::sel_mask;
use crate::selection_indicator::SelectionIndicator;
use crate::style::MenuStyle;

verus! {

/// What the menu currently presents.
#[derive(Clone, Copy, PartialEq, Eq, Structural, Debug)]
pub enum MenuDisplayMode {
    /// The normal row list, with the countdown until the details view
    /// opens; zero means the view never opens.
    List(u32),
    /// The expanded detail presentation of the selected row.
    Details,
}

/// One update tick of the display mode: a running countdown loses one
/// tick and opens the details view the moment it runs out; a zero
/// countdown and the details view itself stay put.
pub open spec fn mode_tick(mode: MenuDisplayMode) -> MenuDisplayMode {
    match mode {
        MenuDisplayMode::List(t) => if t == 0 {
            MenuDisplayMode::List(0)
        } else if t == 1 {
            MenuDisplayMode::Details
        } else {
            MenuDisplayMode::List((t - 1) as u32)
        },
        MenuDisplayMode::Details => MenuDisplayMode::Details,
    }
}

/// The display mode after `k` update ticks with no intervening verb.
pub open spec fn mode_iter_ticks(mode: MenuDisplayMode, k: nat) -> MenuDisplayMode
    decreases k,
{
    if k == 0 {
        mode
    } else {
        mode_iter_ticks(mode_tick(mode), (k - 1) as nat)
    }
}

/// The details view, once open, stays open across update ticks.
pub proof fn lemma_mode_details_stays(k: nat)
    ensures
        mode_iter_ticks(MenuDisplayMode::Details, k) == MenuDisplayMode::Details,
    decreases k,
{
    if k != 0 {
        lemma_mode_details_stays((k - 1) as nat);
    }
}

/// Law: from a countdown of `t >= 1`, the details view opens after
/// exactly `t` update ticks with no intervening navigation verb: before
/// the `t`-th tick the list is still shown, carrying the ticks that are
/// left, and from the `t`-th tick on the details view is shown.
pub proof fn lemma_details_after_exact_countdown(t: u32, j: nat)
    requires
        1 <= t,
    ensures
        j < t ==> mode_iter_ticks(MenuDisplayMode::List(t), j) == MenuDisplayMode::List(
            (t - j) as u32,
        ),
        j >= t ==> mode_iter_ticks(MenuDisplayMode::List(t), j) == MenuDisplayMode::Details,
    decreases j,
{
    if j == 0 {
    } else if t == 1 {
        lemma_mode_details_stays((j - 1) as nat);
    } else {
        lemma_details_after_exact_countdown((t - 1) as u32, (j - 1) as nat);
    }
}

/// The mutable state a menu owns: the selection, the scroll offset, the
/// dirty flag forcing a geometry refresh, the display mode, the
/// interaction controller's private state, and the selection indicator
/// with its animation state.
pub struct MenuState {
    /// Index of the highlighted row in the flattened item sequence.
    pub selected: usize,
    /// Scroll offset of the list in display units; never positive.
    pub list_offset: i32,
    /// Forces the indicator target and scroll offset to be recomputed on
    /// the next update.
    pub recompute_targets: bool,
    /// What the menu currently presents.
    pub display_mode: MenuDisplayMode,
    /// Private state of the interaction controller.
    pub interaction_state: InteractionState,
    /// The selection indicator and its animation state.
    pub indicator: SelectionIndicator,
}

/// The composition root: a title, the built item collection, the shared
/// style, and the menu state.  Built once through the builder, then
/// mutated only through `update`, `draw_commands` and `interact`.
pub struct Menu<R> {
    /// The menu title.
    pub title: String,
    /// The built rows, in append order.
    pub items: Vec<MenuItem<R>>,
    /// The shared, read-only configuration.
    pub style: MenuStyle,
    /// The mutable menu state.
    pub state: MenuState,
}

impl<R> Menu<R> {
    /// The menu invariant: the style and every row are well formed, the
    /// stacked height fits the coordinate space, the selection is clamped
    /// to `[0, count)` (and rests at zero for an empty menu), the list is
    /// never scrolled up past its own height nor down past its top, the
    /// indicator is consistent and of the kind the style chose, and the
    /// controller state is consistent with the controller.
    pub open spec fn wf(self) -> bool {
        &&& self.style.wf()
        &&& items_wf(self.items@)
        &&& total_height(self.items@) <= i32::MAX as int
        &&& if self.items@.len() == 0 {
            self.state.selected == 0
        } else {
            (self.state.selected as int) < self.items@.len()
        }
        &&& -total_height(self.items@) <= self.state.list_offset as int <= 0
        &&& self.state.indicator.wf()
        &&& match self.style.animated_frames {
            Some(n) => self.state.indicator matches SelectionIndicator::Animated(a) && a.frames
                == n,
            None => self.state.indicator is Simple,
        }
        &&& self.style.controller.state_wf(self.state.interaction_state)
    }

    /// Where a navigation verb moves the selection: one or a page of
    /// selectable positions, clamped at the first and last selectable
    /// index.
    pub open spec fn spec_nav_selected(self, verb: InteractionType) -> int {
        let mask = sel_mask(self.items@);
        let sel = self.state.selected as int;
        match verb {
            InteractionType::Previous => prev_selectable(mask, sel),
            InteractionType::Next => next_selectable(mask, sel),
            InteractionType::PagePrevious => nav_backward_steps(
                mask,
                sel,
                self.style.page_size as nat,
            ),
            InteractionType::PageNext => nav_forward_steps(mask, sel, self.style.page_size as nat),
            _ => sel,
        }
    }

    /// The menu state after a navigation verb: the selection moves, the
    /// display mode returns to the list with a fresh countdown, and the
    /// next update must recompute targets.
    pub open spec fn spec_nav_state(self, verb: InteractionType) -> MenuState {
        MenuState {
            selected: self.spec_nav_selected(verb) as usize,
            display_mode: MenuDisplayMode::List(self.style.initial_countdown()),
            recompute_targets: true,
            ..self.state
        }
    }

    /// The menu state after one verb.  On an empty menu every verb is a
    /// no-op.  Navigation verbs move the selection and reset the display
    /// mode; `Select` never changes the menu state; `Exit` closes the
    /// details view and otherwise changes nothing.
    pub open spec fn spec_state_after(self, verb: InteractionType) -> MenuState {
        if self.items@.len() == 0 {
            self.state
        } else {
            match verb {
                InteractionType::Previous => self.spec_nav_state(verb),
                InteractionType::Next => self.spec_nav_state(verb),
                InteractionType::PagePrevious => self.spec_nav_state(verb),
                InteractionType::PageNext => self.spec_nav_state(verb),
                InteractionType::Select => self.state,
                InteractionType::Exit => if self.state.display_mode is Details {
                    MenuState {
                        display_mode: MenuDisplayMode::List(self.style.initial_countdown()),
                        ..self.state
                    }
                } else {
                    self.state
                },
            }
        }
    }

    /// The scroll offset after one update: when targets are recomputed,
    /// the offset moves by the minimum amount that brings the whole
    /// selected row inside the viewport — not at all when the row already
    /// fits; without the recompute flag it stays as it is.
    pub open spec fn spec_scrolled_offset(self, viewport_height: u32) -> int {
        if !self.state.recompute_targets {
            self.state.list_offset as int
        } else {
            let top = item_top(self.items@, self.state.selected as int);
            let h: int = if self.items@.len() == 0 {
                0
            } else {
                self.items@[self.state.selected as int].height as int
            };
            let off = self.state.list_offset as int;
            if top + off < 0 {
                -top
            } else if top + h + off > viewport_height {
                viewport_height - (top + h)
            } else {
                off
            }
        }
    }

    /// Law: when targets are recomputed and the selected row is no taller
    /// than the viewport, one update leaves the row's whole bounding box
    /// inside the viewport; and when the row already fit, the offset does
    /// not move at all.
    pub proof fn lemma_update_scrolls_minimally(self, viewport_height: u32)
        requires
            self.wf(),
            self.state.recompute_targets,
            self.items@.len() > 0,
            self.items@[self.state.selected as int].height <= viewport_height,
        ensures
            ({
                let top = item_top(self.items@, self.state.selected as int);
                let h = self.items@[self.state.selected as int].height as int;
                let off = self.spec_scrolled_offset(viewport_height);
                &&& 0 <= top + off
                &&& top + h + off <= viewport_height
                &&& (0 <= top + self.state.list_offset && top + h + self.state.list_offset
                    <= viewport_height) ==> off == self.state.list_offset as int
            }),
    {
        lemma_total_height_nonneg(self.items@);
        lemma_item_top_bounds(self.items@, self.state.selected as int);
    }

    /// The on-screen top of the selected row after one update, the
    /// position the indicator is targeted at.
    pub open spec fn spec_target_y(self, viewport_height: u32) -> int {
        item_top(self.items@, self.state.selected as int) + self.spec_scrolled_offset(
            viewport_height,
        )
    }

    /// The display list of one frame, in draw order: the title chrome;
    /// then, in the list mode, every row in index order followed (for a
    /// non-empty menu) by the selection band over the selected row at the
    /// indicator's current, possibly mid-animation, offset; or, in the
    /// details mode, the selected row's detail text.  A zero band width
    /// is coerced to the minimum visible width of one unit.
    pub open spec fn spec_draw_commands(self, fill_width: u32) -> Seq<DrawCommand> {
        let scheme = self.style.color_scheme;
        let title = DrawCommand::Title { color: scheme.text };
        if self.state.display_mode is Details {
            if self.items@.len() == 0 {
                seq![title]
            } else {
                seq![title, DrawCommand::DetailText { index: self.state.selected, color: scheme.text }]
            }
        } else {
            let rows = Seq::new(
                self.items@.len(),
                |i: int|
                    DrawCommand::Row {
                        index: i as usize,
                        y: (item_top(self.items@, i) + self.state.list_offset) as i32,
                        color: scheme.text,
                    },
            );
            if self.items@.len() == 0 {
                seq![title] + rows
            } else {
                seq![title] + rows + seq![
                    DrawCommand::SelectionBand {
                        y: self.state.indicator.spec_offset() as i32,
                        height: self.items@[self.state.selected as int].height,
                        width: if fill_width == 0 {
                            1u32
                        } else {
                            fill_width
                        },
                        color: scheme.selection,
                    },
                ]
            }
        }
    }

    /// Recompute geometry if it is stale, then advance the animation and
    /// the details countdown by one frame.
    pub fn update(&mut self, viewport_height: u32)
        requires
            old(self).wf(),
        ensures
            final(self).wf(),
            final(self).title == old(self).title,
            final(self).style == old(self).style,
            final(self).items@ == old(self).items@,
            final(self).state.selected == old(self).state.selected,
            final(self).state.interaction_state == old(self).state.interaction_state,
            final(self).state.display_mode == mode_tick(old(self).state.display_mode),
            final(self).state.recompute_targets == false,
            final(self).state.list_offset as int == old(self).spec_scrolled_offset(
                viewport_height,
            ),
            final(self).state.indicator == if old(self).state.recompute_targets {
                old(self).state.indicator.spec_retarget(
                    old(self).spec_target_y(viewport_height) as i32,
                ).spec_tick()
            } else {
                old(self).state.indicator.spec_tick()
            },
    {
        self.state.display_mode = match self.state.display_mode {
            MenuDisplayMode::List(t) => if t == 0 {
                MenuDisplayMode::List(0)
            } else if t == 1 {
                MenuDisplayMode::Details
            } else {
                MenuDisplayMode::List(t - 1)
            },
            MenuDisplayMode::Details => MenuDisplayMode::Details,
        };
        if self.state.recompute_targets {
            proof {
                lemma_total_height_nonneg(self.items@);
                lemma_item_top_bounds(self.items@, self.state.selected as int);
                if self.items@.len() > 0 {
                    lemma_item_top_step(self.items@, self.state.selected as int);
                    lemma_item_top_bounds(self.items@, self.state.selected as int + 1);
                }
            }
            let top32 = compute_item_top(&self.items, self.state.selected);
            let top: i64 = top32 as i64;
            let h: i64 = if self.items.len() == 0 {
                0
            } else {
                self.items[self.state.selected].height as i64
            };
            let off: i64 = self.state.list_offset as i64;
            let vp: i64 = viewport_height as i64;
            let newoff: i64 = if top + off < 0 {
                -top
            } else if top + h + off > vp {
                vp - (top + h)
            } else {
                off
            };
            self.state.list_offset = newoff as i32;
            self.state.indicator.update_target((top + newoff) as i32);
            self.state.recompute_targets = false;
        }
        self.state.indicator.update();
    }

    /// The display list of one frame.
    pub fn draw_commands(&self, fill_width: u32) -> (r: Vec<DrawCommand>)
        requires
            self.wf(),
        ensures
            r@ == self.spec_draw_commands(fill_width),
    {
        let mut out: Vec<DrawCommand> = Vec::new();
        let text_color = self.style.color_scheme.text;
        out.push(DrawCommand::Title { color: text_color });
        match self.state.display_mode {
            MenuDisplayMode::Details => {
                if self.items.len() > 0 {
                    out.push(
                        DrawCommand::DetailText { index: self.state.selected, color: text_color },
                    );
                }
                proof {
                    assert(out@ =~= self.spec_draw_commands(fill_width));
                }
            },
            MenuDisplayMode::List(_) => {
                let n = self.items.len();
                let mut i: usize = 0;
                while i < n
                    invariant
                        self.wf(),
                        n == self.items@.len(),
                        text_color == self.style.color_scheme.text,
                        i <= n,
                        out@.len() == i + 1,
                        out@[0] == (DrawCommand::Title { color: self.style.color_scheme.text }),
                        forall|j: int|
                            0 <= j < i ==> #[trigger] out@[j + 1] == (DrawCommand::Row {
                                index: j as usize,
                                y: (item_top(self.items@, j) + self.state.list_offset) as i32,
                                color: self.style.color_scheme.text,
                            }),
                    decreases n - i,
                {
                    proof {
                        lemma_total_height_nonneg(self.items@);
                        lemma_item_top_bounds(self.items@, i as int);
                    }
                    let top32 = compute_item_top(&self.items, i);
                    let y: i64 = top32 as i64 + self.state.list_offset as i64;
                    out.push(DrawCommand::Row { index: i, y: y as i32, color: text_color });
                    proof {
                        assert(out@[i as int + 1] == (DrawCommand::Row {
                            index: i as int as usize,
                            y: (item_top(self.items@, i as int)
                                + self.state.list_offset) as i32,
                            color: self.style.color_scheme.text,
                        }));
                    }
                    i = i + 1;
                }
                proof {
                    let rows = Seq::new(
                        self.items@.len(),
                        |j: int|
                            DrawCommand::Row {
                                index: j as usize,
                                y: (item_top(self.items@, j) + self.state.list_offset) as i32,
                                color: self.style.color_scheme.text,
                            },
                    );
                    let head = seq![DrawCommand::Title { color: self.style.color_scheme.text }];
                    assert forall|k: int| 0 <= k < out@.len() implies out@[k] == (head + rows)[k] by {
                        if 1 <= k {
                            let j = k - 1;
                            assert(out@[j + 1] == (DrawCommand::Row {
                                index: j as usize,
                                y: (item_top(self.items@, j) + self.state.list_offset) as i32,
                                color: self.style.color_scheme.text,
                            }));
                        }
                    }
                    assert(out@ =~= head + rows);
                }
                if n > 0 {
                    let band = self.state.indicator.band_command(
                        self.items[self.state.selected].height,
                        fill_width,
                        self.style.color_scheme.selection,
                    );
                    out.push(band);
                }
                proof {
                    assert(out@ =~= self.spec_draw_commands(fill_width));
                }
            },
        }
        out
    }
}

impl<R: Copy> Menu<R> {
    /// The rows after one verb: `Select` advances the selected row's
    /// bound value in place; no other verb, and no verb on an empty menu,
    /// touches a row.
    pub open spec fn spec_items_after(self, verb: InteractionType) -> Seq<MenuItem<R>> {
        if self.items@.len() == 0 {
            self.items@
        } else if verb == InteractionType::Select {
            self.items@.update(
                self.state.selected as int,
                self.items@[self.state.selected as int].spec_interact(verb).0,
            )
        } else {
            self.items@
        }
    }

    /// What one verb hands back to the application: the selected row's
    /// event for `Select` on a navigation row, and nothing otherwise.
    pub open spec fn spec_result(self, verb: InteractionType) -> Option<R> {
        if self.items@.len() == 0 {
            None
        } else if verb == InteractionType::Select {
            self.items@[self.state.selected as int].spec_interact(verb).1
        } else {
            None
        }
    }

    /// Law: on a non-empty menu, every navigation verb keeps the
    /// selection inside `[0, count)`; whenever the selection moves at all
    /// it lands on a selectable row, and a selection already resting on a
    /// selectable row never leaves the selectable rows — so after any
    /// sequence of navigation verbs from a selectable start, the
    /// selection is still inside the collection and still selectable.
    pub proof fn lemma_navigation_keeps_selection_valid(self, verb: InteractionType)
        requires
            self.wf(),
            self.items@.len() > 0,
            verb == InteractionType::Previous || verb == InteractionType::Next || verb
                == InteractionType::PagePrevious || verb == InteractionType::PageNext,
        ensures
            0 <= self.spec_nav_selected(verb) < self.items@.len(),
            self.spec_nav_selected(verb) == self.state.selected as int || sel_mask(
                self.items@,
            )[self.spec_nav_selected(verb)],
            sel_mask(self.items@)[self.state.selected as int] ==> sel_mask(
                self.items@,
            )[self.spec_nav_selected(verb)],
    {
        let mask = sel_mask(self.items@);
        let sel = self.state.selected as int;
        match verb {
            InteractionType::Previous => lemma_prev_selectable_props(mask, sel),
            InteractionType::Next => lemma_next_selectable_props(mask, sel),
            InteractionType::PagePrevious => lemma_nav_backward_steps_props(
                mask,
                sel,
                self.style.page_size as nat,
            ),
            InteractionType::PageNext => lemma_nav_forward_steps_props(
                mask,
                sel,
                self.style.page_size as nat,
            ),
            _ => {},
        }
    }

    /// Apply one interaction verb to the menu.
    pub fn interact_verb(&mut self, verb: InteractionType) -> (r: Option<R>)
        requires
            old(self).wf(),
        ensures
            final(self).wf(),
            final(self).title == old(self).title,
            final(self).style == old(self).style,
            final(self).items@ == old(self).spec_items_after(verb),
            final(self).state == old(self).spec_state_after(verb),
            r == old(self).spec_result(verb),
    {
        let n = self.items.len();
        if n == 0 {
            return None;
        }
        match verb {
            InteractionType::Previous => {
                let ns = find_prev(&self.items, self.state.selected);
                self.state.selected = ns;
                self.state.display_mode = MenuDisplayMode::List(self.style.countdown_start());
                self.state.recompute_targets = true;
                None
            },
            InteractionType::Next => {
                let ns = find_next(&self.items, self.state.selected);
                self.state.selected = ns;
                self.state.display_mode = MenuDisplayMode::List(self.style.countdown_start());
                self.state.recompute_targets = true;
                None
            },
            InteractionType::PagePrevious => {
                let ns = find_page_prev(&self.items, self.state.selected, self.style.page_size);
                self.state.selected = ns;
                self.state.display_mode = MenuDisplayMode::List(self.style.countdown_start());
                self.state.recompute_targets = true;
                None
            },
            InteractionType::PageNext => {
                let ns = find_page_next(&self.items, self.state.selected, self.style.page_size);
                self.state.selected = ns;
                self.state.display_mode = MenuDisplayMode::List(self.style.countdown_start());
                self.state.recompute_targets = true;
                None
            },
            InteractionType::Select => {
                let r = interact_at(&mut self.items, self.state.selected, verb);
                proof {
                    let idx = self.state.selected as int;
                    lemma_total_height_update(
                        old(self).items@,
                        idx,
                        old(self).items@[idx].spec_interact(verb).0,
                    );
                    assert(sel_mask(self.items@) =~= sel_mask(old(self).items@));
                }
                r
            },
            InteractionType::Exit => {
                match self.state.display_mode {
                    MenuDisplayMode::Details => {
                        self.state.display_mode = MenuDisplayMode::List(
                            self.style.countdown_start(),
                        );
                    },
                    MenuDisplayMode::List(_) => {},
                }
                None
            },
        }
    }

    /// Feed one raw input event to the menu: the interaction controller
    /// maps it to a verb — or to none, in which case the event is ignored
    /// — and the verb is applied.
    pub fn interact(&mut self, event: InputEvent) -> (r: Option<R>)
        requires
            old(self).wf(),
        ensures
            final(self).wf(),
            final(self).title == old(self).title,
            final(self).style == old(self).style,
            ({
                let ctrl = old(self).style.controller;
                let ist0 = old(self).state.interaction_state;
                let ist1 = ctrl.spec_next_state(ist0);
                match ctrl.spec_verb(ist0, event) {
                    Some(verb) => {
                        &&& final(self).items@ == old(self).spec_items_after(verb)
                        &&& final(self).state == (MenuState {
                            interaction_state: ist1,
                            ..old(self).spec_state_after(verb)
                        })
                        &&& r == old(self).spec_result(verb)
                    },
                    None => {
                        &&& final(self).items@ == old(self).items@
                        &&& final(self).state == (MenuState {
                            interaction_state: ist1,
                            ..old(self).state
                        })
                        &&& r == None::<R>
                    },
                }
            }),
    {
        let verb_opt = self.style.controller.map_event(&mut self.state.interaction_state, event);
        match verb_opt {
            Some(v) => self.interact_verb(v),
            None => None,
        }
    }
}

} // verus!
