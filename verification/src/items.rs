//! Menu rows: navigation triggers and bound values.

use vstd::prelude::*;
use crate::interaction::InteractionType;
use crate::style::MenuStyle;

verus! {

/// Row height a freshly made item carries until a style is stamped onto it.
pub const DEFAULT_ITEM_HEIGHT: u32 = 10;

/// The payload of a menu row.
pub enum ItemKind<R> {
    /// A navigation trigger: activating the row produces the carried
    /// externally defined event value.
    Navigation {
        /// The event handed back to the application on activation.
        event: R,
    },
    /// A bound value with select/advance semantics: activating the row moves
    /// `pos` one step through a value set of `count` states, wrapping at the
    /// end, and never produces an external event.
    Value {
        /// How many states the value set has; at least one.
        count: u32,
        /// The current state, always below `count`.
        pos: u32,
    },
}

/// One menu row: a label, an optional detail text, an optional leading
/// marker glyph, a height, and a payload.  Rows are owned by the menu's
/// collection and mutated in place on interaction.
pub struct MenuItem<R> {
    /// The label shown on the row.
    pub label: String,
    /// Detail text shown in the details display mode; empty when absent.
    pub details: String,
    /// Leading marker glyph; empty when absent.
    pub marker: String,
    /// Whether the row participates in selection traversal.
    pub selectable: bool,
    /// The measured row height in display units.
    pub height: u32,
    /// The payload.
    pub kind: ItemKind<R>,
}

impl<R> MenuItem<R> {
    /// A value payload keeps its position inside its value set.
    pub open spec fn wf(&self) -> bool {
        match self.kind {
            ItemKind::Navigation { .. } => true,
            ItemKind::Value { count, pos } => 1 <= count && pos < count,
        }
    }

    /// A new navigation row carrying `event`, selectable, without detail
    /// text or marker.
    pub fn navigation(label: String, event: R) -> (r: Self)
        ensures
            r.wf(),
            r.label == label,
            r.details@ == Seq::<char>::empty(),
            r.marker@ == Seq::<char>::empty(),
            r.selectable,
            r.height == DEFAULT_ITEM_HEIGHT,
            r.kind == (ItemKind::Navigation { event }),
    {
        MenuItem {
            label,
            details: String::new(),
            marker: String::new(),
            selectable: true,
            height: DEFAULT_ITEM_HEIGHT,
            kind: ItemKind::Navigation { event },
        }
    }

    /// A new bound-value row whose value set has `count` states and starts
    /// at state `initial`.
    pub fn value(label: String, count: u32, initial: u32) -> (r: Self)
        requires
            1 <= count,
            initial < count,
        ensures
            r.wf(),
            r.label == label,
            r.details@ == Seq::<char>::empty(),
            r.marker@ == Seq::<char>::empty(),
            r.selectable,
            r.height == DEFAULT_ITEM_HEIGHT,
            r.kind == (ItemKind::<R>::Value { count, pos: initial }),
    {
        MenuItem {
            label,
            details: String::new(),
            marker: String::new(),
            selectable: true,
            height: DEFAULT_ITEM_HEIGHT,
            kind: ItemKind::Value { count, pos: initial },
        }
    }

    /// A new bound-value row over the two-state set `false`/`true`, starting
    /// at `value`; state `0` stands for `false` and state `1` for `true`.
    pub fn bool_value(label: String, value: bool) -> (r: Self)
        ensures
            r.wf(),
            r.label == label,
            r.details@ == Seq::<char>::empty(),
            r.marker@ == Seq::<char>::empty(),
            r.selectable,
            r.height == DEFAULT_ITEM_HEIGHT,
            r.kind == (ItemKind::<R>::Value { count: 2, pos: if value { 1u32 } else { 0u32 } }),
    {
        MenuItem {
            label,
            details: String::new(),
            marker: String::new(),
            selectable: true,
            height: DEFAULT_ITEM_HEIGHT,
            kind: ItemKind::Value { count: 2, pos: if value { 1 } else { 0 } },
        }
    }

    /// The same row with `details` as its detail text.
    pub fn with_detail_text(self, details: String) -> (r: Self)
        ensures
            r == (MenuItem { details, ..self }),
    {
        MenuItem { details, ..self }
    }

    /// The same row with `marker` as its leading marker glyph.
    pub fn with_marker(self, marker: String) -> (r: Self)
        ensures
            r == (MenuItem { marker, ..self }),
    {
        MenuItem { marker, ..self }
    }

    /// The same row, taking part in selection traversal or left out of it.
    pub fn with_selectable(self, selectable: bool) -> (r: Self)
        ensures
            r == (MenuItem { selectable, ..self }),
    {
        MenuItem { selectable, ..self }
    }

    /// This row after the shared style is stamped onto it at composition
    /// time: the row takes the style's row height.
    pub open spec fn spec_styled(self, style: MenuStyle) -> Self {
        MenuItem { height: style.item_height, ..self }
    }

    /// Stamp the shared style onto this row.  Called once per row while the
    /// menu is built, not per frame.
    pub fn set_style(&mut self, style: &MenuStyle)
        ensures
            *final(self) == old(self).spec_styled(*style),
            old(self).wf() ==> final(self).wf(),
    {
        self.height = style.item_height;
    }
}

impl<R: Copy> MenuItem<R> {
    /// What one verb does to this row: `Select` on a navigation row returns
    /// the carried event and changes nothing; `Select` on a value row
    /// advances the value one step, wrapping; any other verb does not apply
    /// to a row.
    pub open spec fn spec_interact(self, verb: InteractionType) -> (Self, Option<R>) {
        if verb == InteractionType::Select {
            match self.kind {
                ItemKind::Navigation { event } => (self, Some(event)),
                ItemKind::Value { count, pos } => (
                    MenuItem {
                        kind: ItemKind::Value { count, pos: ((pos + 1) % (count as int)) as u32 },
                        ..self
                    },
                    None,
                ),
            }
        } else {
            (self, None)
        }
    }

    /// Apply one verb to this row, in place.
    pub fn interact(&mut self, verb: InteractionType) -> (r: Option<R>)
        requires
            old(self).wf(),
        ensures
            final(self).wf(),
            (*final(self), r) == old(self).spec_interact(verb),
    {
        if verb == InteractionType::Select {
            match &mut self.kind {
                ItemKind::Navigation { event } => Some(*event),
                ItemKind::Value { count, pos } => {
                    *pos = (*pos + 1) % *count;
                    None
                },
            }
        } else {
            None
        }
    }
}

} // verus!
