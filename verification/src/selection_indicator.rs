//! Selection indicators: the highlight's visual behavior, decoupled from
//! selection logic.

use vstd::prelude::*;

pub mod animated;
pub mod simple;

use crate::draw::DrawCommand;
use animated::AnimatedSelectionIndicator;
use simple::SimpleSelectionIndicator;

verus! {

/// The selection indicator chosen for a menu, together with its animation
/// state: either the static indicator, or the animated one converging over
/// a configured frame budget.
pub enum SelectionIndicator {
    /// The static indicator: the highlight jumps straight to its target.
    Simple(SimpleSelectionIndicator),
    /// The animated indicator: the highlight moves toward its target one
    /// linear step per frame.
    Animated(AnimatedSelectionIndicator),
}

impl SelectionIndicator {
    /// The animated indicator's state is consistent; the static one has
    /// nothing to keep consistent.
    pub open spec fn wf(self) -> bool {
        match self {
            SelectionIndicator::Simple(_) => true,
            SelectionIndicator::Animated(a) => a.wf(),
        }
    }

    /// The current, possibly mid-animation, vertical offset.
    pub open spec fn spec_offset(self) -> int {
        match self {
            SelectionIndicator::Simple(s) => s.y_offset as int,
            SelectionIndicator::Animated(a) => a.current as int,
        }
    }

    /// This indicator after its destination offset is set to `y`.
    pub open spec fn spec_retarget(self, y: i32) -> Self {
        match self {
            SelectionIndicator::Simple(s) => SelectionIndicator::Simple(
                SimpleSelectionIndicator { y_offset: y },
            ),
            SelectionIndicator::Animated(a) => SelectionIndicator::Animated(a.spec_retarget(y)),
        }
    }

    /// This indicator after one animation tick.
    pub open spec fn spec_tick(self) -> Self {
        match self {
            SelectionIndicator::Simple(_) => self,
            SelectionIndicator::Animated(a) => SelectionIndicator::Animated(a.spec_tick()),
        }
    }

    /// Set the destination vertical offset for the highlighted row.
    pub fn update_target(&mut self, y: i32)
        requires
            old(self).wf(),
        ensures
            *final(self) == old(self).spec_retarget(y),
            final(self).wf(),
    {
        match self {
            SelectionIndicator::Simple(s) => s.update_target(y),
            SelectionIndicator::Animated(a) => a.update_target(y),
        }
    }

    /// The current, possibly mid-animation, vertical offset.
    pub fn offset(&self) -> (r: i32)
        ensures
            r as int == self.spec_offset(),
    {
        match self {
            SelectionIndicator::Simple(s) => s.offset(),
            SelectionIndicator::Animated(a) => a.offset(),
        }
    }

    /// The highlight band this indicator draws: placed at its current
    /// offset, as high as the selected row, and never narrower than one
    /// display unit — a zero `fill_width` is coerced to the minimum
    /// visible width.
    pub fn band_command(&self, height: u32, fill_width: u32, color: u32) -> (r: DrawCommand)
        ensures
            r == (DrawCommand::SelectionBand {
                y: self.spec_offset() as i32,
                height,
                width: if fill_width == 0 {
                    1u32
                } else {
                    fill_width
                },
                color,
            }),
    {
        let width: u32 = if fill_width == 0 {
            1
        } else {
            fill_width
        };
        DrawCommand::SelectionBand { y: self.offset(), height, width, color }
    }

    /// Advance one animation tick.
    pub fn update(&mut self)
        requires
            old(self).wf(),
        ensures
            *final(self) == old(self).spec_tick(),
            final(self).wf(),
    {
        match self {
            SelectionIndicator::Simple(_) => {},
            SelectionIndicator::Animated(a) => a.update(),
        }
    }
}

} // verus!
