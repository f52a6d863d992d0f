//! Interaction controllers: mapping raw input events to abstract verbs.

use vstd::prelude::*;

verus! {

/// An abstract interaction verb, the unit the menu state machine consumes.
#[derive(Clone, Copy, PartialEq, Eq, Structural, Debug)]
pub enum InteractionType {
    /// Move the selection to the previous selectable row.
    Previous,
    /// Move the selection to the next selectable row.
    Next,
    /// Move the selection a page towards the first selectable row.
    PagePrevious,
    /// Move the selection a page towards the last selectable row.
    PageNext,
    /// Activate the selected row.
    Select,
    /// Leave the details view, or cancel.
    Exit,
}

/// A physical key, the part of a raw input event the built-in controller reads.
#[derive(Clone, Copy, PartialEq, Eq, Structural, Debug)]
pub enum Key {
    /// Cursor up.
    Up,
    /// Cursor down.
    Down,
    /// Page up.
    PageUp,
    /// Page down.
    PageDown,
    /// Confirm / activate.
    Enter,
    /// Cancel / leave.
    Escape,
    /// Any key without a menu meaning.
    Other,
}

/// A raw platform input event, reduced to plain values.
#[derive(Clone, Copy, PartialEq, Eq, Structural, Debug)]
pub enum InputEvent {
    /// A key was pressed.
    KeyDown(Key),
    /// A key was released.
    KeyUp(Key),
}

/// The interaction controller chosen for a menu.  Controllers are read-only
/// configuration; whatever private state they need lives in
/// [`InteractionState`], owned by the menu state.
pub enum InteractionController {
    /// Maps key presses directly to verbs; releases and unknown keys are
    /// ignored.  Stateless.
    Simple,
    /// A scripted, headless controller for driving a menu without an input
    /// source: it hands out its pre-programmed verbs in order, one per raw
    /// event, and ignores the events themselves.
    Programmed(Vec<InteractionType>),
}

/// Private controller state carried inside the menu state.
pub struct InteractionState {
    /// How many scripted verbs a `Programmed` controller has handed out.
    pub consumed: usize,
}

/// The verb a plain key press means, if any.  Key releases and keys without
/// a menu meaning map to `None`; an unmapped event is not an error.
pub open spec fn key_press_verb(event: InputEvent) -> Option<InteractionType> {
    match event {
        InputEvent::KeyDown(Key::Up) => Some(InteractionType::Previous),
        InputEvent::KeyDown(Key::Down) => Some(InteractionType::Next),
        InputEvent::KeyDown(Key::PageUp) => Some(InteractionType::PagePrevious),
        InputEvent::KeyDown(Key::PageDown) => Some(InteractionType::PageNext),
        InputEvent::KeyDown(Key::Enter) => Some(InteractionType::Select),
        InputEvent::KeyDown(Key::Escape) => Some(InteractionType::Exit),
        InputEvent::KeyDown(Key::Other) => None,
        InputEvent::KeyUp(_) => None,
    }
}

impl InteractionController {
    /// The controller state is consistent with this controller.
    pub open spec fn state_wf(&self, state: InteractionState) -> bool {
        match self {
            InteractionController::Simple => true,
            InteractionController::Programmed(script) => state.consumed <= script@.len(),
        }
    }

    /// The verb this controller produces for `event` in `state`.
    pub open spec fn spec_verb(&self, state: InteractionState, event: InputEvent) -> Option<
        InteractionType,
    > {
        match self {
            InteractionController::Simple => key_press_verb(event),
            InteractionController::Programmed(script) => if state.consumed < script@.len() {
                Some(script@[state.consumed as int])
            } else {
                None
            },
        }
    }

    /// The controller state after mapping one event in `state`.
    pub open spec fn spec_next_state(&self, state: InteractionState) -> InteractionState {
        match self {
            InteractionController::Simple => state,
            InteractionController::Programmed(script) => if state.consumed < script@.len() {
                InteractionState { consumed: (state.consumed + 1) as usize }
            } else {
                state
            },
        }
    }

    /// Map one raw input event to a verb, advancing the controller state.
    pub fn map_event(&self, state: &mut InteractionState, event: InputEvent) -> (r: Option<
        InteractionType,
    >)
        requires
            self.state_wf(*old(state)),
        ensures
            r == self.spec_verb(*old(state), event),
            *final(state) == self.spec_next_state(*old(state)),
            self.state_wf(*final(state)),
    {
        match self {
            InteractionController::Simple => match event {
                InputEvent::KeyDown(Key::Up) => Some(InteractionType::Previous),
                InputEvent::KeyDown(Key::Down) => Some(InteractionType::Next),
                InputEvent::KeyDown(Key::PageUp) => Some(InteractionType::PagePrevious),
                InputEvent::KeyDown(Key::PageDown) => Some(InteractionType::PageNext),
                InputEvent::KeyDown(Key::Enter) => Some(InteractionType::Select),
                InputEvent::KeyDown(Key::Escape) => Some(InteractionType::Exit),
                InputEvent::KeyDown(Key::Other) => None,
                InputEvent::KeyUp(_) => None,
            },
            InteractionController::Programmed(script) => {
                if state.consumed < script.len() {
                    let verb = script[state.consumed];
                    state.consumed = state.consumed + 1;
                    Some(verb)
                } else {
                    None
                }
            },
        }
    }
}

} // verus!
