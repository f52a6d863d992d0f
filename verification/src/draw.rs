//! The display list: what one frame draws, as plain values.
//!
//! The engine is render-target agnostic: instead of painting, it hands the
//! host an ordered list of drawing commands.  The host executes them in
//! order against its own render target, aborting on the target's first
//! failure and propagating that failure unchanged.

use vstd::prelude::*;

verus! {

/// One drawing command of a frame's display list.  Row text, detail text
/// and the title string are looked up by the host on the menu itself; the
/// commands carry only geometry and colors.
#[derive(Clone, Copy, PartialEq, Eq, Structural, Debug)]
pub enum DrawCommand {
    /// Draw the menu's title chrome in `color`.
    Title {
        /// The text color to use.
        color: u32,
    },
    /// Draw row `index` with its top at screen coordinate `y`.
    Row {
        /// The row's linear index.
        index: usize,
        /// The row top's vertical screen coordinate.
        y: i32,
        /// The text color to use.
        color: u32,
    },
    /// Fill the selection band and then redraw the rows it covers with the
    /// selected-text treatment, clipped to the band.
    SelectionBand {
        /// The band top's vertical screen coordinate.
        y: i32,
        /// The band height: the selected row's height.
        height: u32,
        /// The band width, at least one display unit.
        width: u32,
        /// The band's fill color.
        color: u32,
    },
    /// Draw the detail text of row `index` in the expanded details
    /// presentation.
    DetailText {
        /// The row whose detail text is shown.
        index: usize,
        /// The text color to use.
        color: u32,
    },
}

} // verus!
