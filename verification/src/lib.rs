//! An interactive menu widget engine for small displays.
//!
//! The engine keeps a vertically scrolling list of selectable rows, tracks
//! the highlighted row, animates a selection indicator, and converts raw
//! input events into navigation and selection outcomes.  Everything the
//! engine decides is computed over plain values; rendering is exposed as a
//! display list of drawing commands that a host executes against its own
//! render target.

pub mod builder;
pub mod collection;
pub mod draw;
pub mod interaction;
pub mod items;
pub mod menu;
pub mod selection;
pub mod selection_indicator;
pub mod style;

pub use builder::MenuBuilder;
pub use draw::DrawCommand;
pub use interaction::InputEvent;
pub use interaction::InteractionController;
pub use interaction::InteractionType;
pub use interaction::Key;
pub use items::ItemKind;
pub use items::MenuItem;
pub use menu::Menu;
pub use menu::MenuDisplayMode;
pub use style::ColorScheme;
pub use style::MenuStyle;
