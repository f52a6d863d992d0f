//! Shared, read-only per-menu configuration.

use vstd::prelude::*;
use crate::interaction::InteractionController;
use crate::items::DEFAULT_ITEM_HEIGHT;

verus! {

/// How many selectable positions a page verb moves when the style does not
/// say otherwise.
pub const DEFAULT_PAGE_SIZE: u32 = 5;

/// The colors a menu draws with, as plain packed values the host maps onto
/// its render target's color type.
#[derive(Clone, Copy, PartialEq, Eq, Structural, Debug)]
pub struct ColorScheme {
    /// Color of ordinary row text.
    pub text: u32,
    /// Color of row text inside the selection band.
    pub selected_text: u32,
    /// Color of the selection band itself.
    pub selection: u32,
}

/// Shared, read-only configuration stamped onto a menu at build time: the
/// color scheme, the chosen interaction controller, the chosen selection
/// indicator (static, or animated over a frame budget), the optional
/// details display delay, and the measured row height.
pub struct MenuStyle {
    /// The colors to draw with.
    pub color_scheme: ColorScheme,
    /// The interaction controller implementation.
    pub controller: InteractionController,
    /// After this many update ticks without a navigation verb the menu
    /// shows the selected row's details; `None` (or zero) disables the
    /// details view.
    pub details_delay: Option<u32>,
    /// `Some(n)` chooses the animated selection indicator converging in
    /// `n` frames; `None` chooses the static one.
    pub animated_frames: Option<u32>,
    /// The measured height of one row, from the font in use.
    pub item_height: u32,
    /// How many selectable positions a page verb moves.
    pub page_size: u32,
}

impl MenuStyle {
    /// An animated indicator has a frame budget of at least one, and a page
    /// verb moves at least one position.
    pub open spec fn wf(&self) -> bool {
        &&& match self.animated_frames {
            Some(n) => 1 <= n,
            None => true,
        }
        &&& 1 <= self.page_size
    }

    /// A new style drawing in `color`, with the static indicator, the
    /// direct key-mapping controller, no details view, and default row
    /// height and page size.
    pub fn new(color: u32) -> (r: Self)
        ensures
            r.wf(),
            r.color_scheme == (ColorScheme { text: color, selected_text: 0, selection: color }),
            r.controller == InteractionController::Simple,
            r.details_delay == Option::<u32>::None,
            r.animated_frames == Option::<u32>::None,
            r.item_height == DEFAULT_ITEM_HEIGHT,
            r.page_size == DEFAULT_PAGE_SIZE,
    {
        MenuStyle {
            color_scheme: ColorScheme { text: color, selected_text: 0, selection: color },
            controller: InteractionController::Simple,
            details_delay: None,
            animated_frames: None,
            item_height: DEFAULT_ITEM_HEIGHT,
            page_size: DEFAULT_PAGE_SIZE,
        }
    }

    /// The same style with `scheme` as its color scheme.
    pub fn with_color_scheme(self, scheme: ColorScheme) -> (r: Self)
        ensures
            r == (MenuStyle { color_scheme: scheme, ..self }),
    {
        MenuStyle { color_scheme: scheme, ..self }
    }

    /// The same style with `controller` as its interaction controller.
    pub fn with_interaction_controller(self, controller: InteractionController) -> (r: Self)
        ensures
            r == (MenuStyle { controller, ..self }),
    {
        MenuStyle { controller, ..self }
    }

    /// The same style with the animated selection indicator, converging in
    /// `frames` frames.
    pub fn with_animated_selection_indicator(self, frames: u32) -> (r: Self)
        requires
            1 <= frames,
        ensures
            r == (MenuStyle { animated_frames: Some(frames), ..self }),
    {
        MenuStyle { animated_frames: Some(frames), ..self }
    }

    /// The same style showing the selected row's details after `delay`
    /// update ticks without a navigation verb; zero disables the view.
    pub fn with_details_delay(self, delay: u32) -> (r: Self)
        ensures
            r == (MenuStyle { details_delay: Some(delay), ..self }),
    {
        MenuStyle { details_delay: Some(delay), ..self }
    }

    /// The same style with `height` as its measured row height.
    pub fn with_item_height(self, height: u32) -> (r: Self)
        ensures
            r == (MenuStyle { item_height: height, ..self }),
    {
        MenuStyle { item_height: height, ..self }
    }

    /// The same style with page verbs moving `page_size` selectable
    /// positions.
    pub fn with_page_size(self, page_size: u32) -> (r: Self)
        requires
            1 <= page_size,
        ensures
            r == (MenuStyle { page_size, ..self }),
    {
        MenuStyle { page_size, ..self }
    }

    /// The countdown the list display mode starts from: the configured
    /// details delay, or zero (meaning: no countdown) when none is set.
    pub open spec fn initial_countdown(&self) -> u32 {
        match self.details_delay {
            Some(d) => d,
            None => 0,
        }
    }

    /// The countdown the list display mode starts from.
    pub fn countdown_start(&self) -> (r: u32)
        ensures
            r == self.initial_countdown(),
    {
        match self.details_delay {
            Some(d) => d,
            None => 0,
        }
    }
}

} // verus!
