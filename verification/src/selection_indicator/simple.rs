//! The static selection indicator.

use vstd::prelude::*;

verus! {

/// A static selection indicator: the highlight rests exactly at the last
/// target it was given, and advancing an animation tick changes nothing.
pub struct SimpleSelectionIndicator {
    /// The current vertical offset, equal to the last target set.
    pub y_offset: i32,
}

impl SimpleSelectionIndicator {
    /// A new static indicator resting at the top.
    pub fn new() -> (r: Self)
        ensures
            r.y_offset == 0,
    {
        SimpleSelectionIndicator { y_offset: 0 }
    }

    /// Set the destination vertical offset; the static indicator lands
    /// there at once.
    pub fn update_target(&mut self, y: i32)
        ensures
            final(self).y_offset == y,
    {
        self.y_offset = y;
    }

    /// The current vertical offset.
    pub fn offset(&self) -> (r: i32)
        ensures
            r == self.y_offset,
    {
        self.y_offset
    }

    /// Advance one animation tick: a no-op for the static indicator.
    pub fn update(&mut self)
        ensures
            *final(self) == *old(self),
    {
    }
}

} // verus!
