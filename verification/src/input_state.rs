//! Pointer position and the up/down state of the two tracked buttons.

use vstd::prelude::*;

verus! {

/// Whether a button is held.
#[derive(Clone, Copy, Debug, PartialEq, Eq, Structural)]
pub enum MouseButtonState {
    Up,
    Down,
}

/// What happened to a button.
#[derive(Clone, Copy, Debug, PartialEq, Eq, Structural)]
pub enum ElementState {
    Pressed,
    Released,
}

/// Which button an event is about. Only the left and the right one are
/// tracked.
#[derive(Clone, Copy, Debug, PartialEq, Eq, Structural)]
pub enum MouseButton {
    Left,
    Right,
    Middle,
    Back,
    Forward,
    Other(u16),
}

/// A window event, as far as the input state reads it.
#[derive(Clone, Copy, Debug, PartialEq, Eq)]
pub enum InputEvent {
    /// A button went down or up.
    MouseInput { state: ElementState, button: MouseButton },
    /// The pointer moved to `position`, two 32-bit floats by their bits.
    CursorMoved { position: [u32; 2] },
    /// Any other event.
    Other,
}

impl ElementState {
    /// The button state that the event leaves behind.
    pub open spec fn button_state(self) -> MouseButtonState {
        match self {
            ElementState::Pressed => MouseButtonState::Down,
            ElementState::Released => MouseButtonState::Up,
        }
    }
}

/// Pointer position and button states, as mathematics.
pub struct InputStateView {
    /// Absent until the pointer has moved.
    pub mouse_position: Option<[u32; 2]>,
    pub left_mouse_button: MouseButtonState,
    pub right_mouse_button: MouseButtonState,
}

impl InputStateView {
    /// The state after a button event: an event for the left or the right
    /// button sets that button's state, any other button changes nothing.
    pub open spec fn after_mouse_input(
        self,
        state: ElementState,
        button: MouseButton,
    ) -> InputStateView {
        match button {
            MouseButton::Left => InputStateView { left_mouse_button: state.button_state(), ..self },
            MouseButton::Right => InputStateView {
                right_mouse_button: state.button_state(),
                ..self
            },
            _ => self,
        }
    }

    /// The state after an event.
    pub open spec fn after(self, event: InputEvent) -> InputStateView {
        match event {
            InputEvent::MouseInput { state, button } => self.after_mouse_input(state, button),
            InputEvent::CursorMoved { position } => InputStateView {
                mouse_position: Some(position),
                ..self
            },
            InputEvent::Other => self,
        }
    }

    /// A button event touches the state of its own button only: the other
    /// button and the pointer position stay as they are, and an event for
    /// a button that is not tracked changes nothing at all.
    pub proof fn lemma_button_tracking(self, state: ElementState, button: MouseButton)
        ensures
            self.after_mouse_input(state, button).mouse_position == self.mouse_position,
            button == MouseButton::Left ==> self.after_mouse_input(state, button)
                == (InputStateView { left_mouse_button: state.button_state(), ..self }),
            button == MouseButton::Right ==> self.after_mouse_input(state, button)
                == (InputStateView { right_mouse_button: state.button_state(), ..self }),
            button != MouseButton::Left && button != MouseButton::Right
                ==> self.after_mouse_input(state, button) == self,
    {
    }
}

/// Pointer position and button states, kept up to date from window events.
pub struct InputState {
    mouse_position: Option<[u32; 2]>,
    left_mouse_button: MouseButtonState,
    right_mouse_button: MouseButtonState,
}

impl View for InputState {
    type V = InputStateView;

    closed spec fn view(&self) -> InputStateView {
        InputStateView {
            mouse_position: self.mouse_position,
            left_mouse_button: self.left_mouse_button,
            right_mouse_button: self.right_mouse_button,
        }
    }
}

impl InputState {
    /// The state before any event: no pointer position, both buttons up.
    pub fn new() -> (input: Self)
        ensures
            input@ == (InputStateView {
                mouse_position: None,
                left_mouse_button: MouseButtonState::Up,
                right_mouse_button: MouseButtonState::Up,
            }),
    {
        InputState {
            mouse_position: None,
            left_mouse_button: MouseButtonState::Up,
            right_mouse_button: MouseButtonState::Up,
        }
    }

    /// The last pointer position, absent until the pointer has moved.
    pub fn mouse_position(&self) -> (position: &Option<[u32; 2]>)
        ensures
            *position == self@.mouse_position,
    {
        &self.mouse_position
    }

    /// State of the left button.
    pub fn left_mouse_button(&self) -> (state: &MouseButtonState)
        ensures
            *state == self@.left_mouse_button,
    {
        &self.left_mouse_button
    }

    /// State of the right button.
    pub fn right_mouse_button(&self) -> (state: &MouseButtonState)
        ensures
            *state == self@.right_mouse_button,
    {
        &self.right_mouse_button
    }

    /// Takes in one event.
    pub fn sync(&mut self, event: &InputEvent)
        ensures
            final(self)@ == old(self)@.after(*event),
    {
        match event {
            InputEvent::MouseInput { state, button } => {
                self.on_mouse_input(state, button)
            },
            InputEvent::CursorMoved { position } => {
                self.mouse_position = Some(*position);
            },
            InputEvent::Other => {},
        }
    }

    fn on_mouse_input(&mut self, state: &ElementState, button: &MouseButton)
        ensures
            final(self)@ == old(self)@.after_mouse_input(*state, *button),
    {
        let button_state = match state {
            ElementState::Pressed => MouseButtonState::Down,
            ElementState::Released => MouseButtonState::Up,
        };
        match button {
            MouseButton::Left => {
                self.left_mouse_button = button_state;
            },
            MouseButton::Right => {
                self.right_mouse_button = button_state;
            },
            _ => {},
        }
    }
}

} // verus!
