use hui::input_state::{ElementState, InputEvent, InputState, MouseButton, MouseButtonState};

fn press(button: MouseButton) -> InputEvent {
    InputEvent::MouseInput { state: ElementState::Pressed, button }
}

fn release(button: MouseButton) -> InputEvent {
    InputEvent::MouseInput { state: ElementState::Released, button }
}

#[test]
fn starts_without_position_and_with_buttons_up() {
    let input = InputState::new();
    assert_eq!(*input.mouse_position(), None);
    assert_eq!(*input.left_mouse_button(), MouseButtonState::Up);
    assert_eq!(*input.right_mouse_button(), MouseButtonState::Up);
}

#[test]
fn left_press_without_release_leaves_left_down() {
    let mut input = InputState::new();
    input.sync(&press(MouseButton::Left));
    assert_eq!(*input.left_mouse_button(), MouseButtonState::Down);
    assert_eq!(*input.right_mouse_button(), MouseButtonState::Up);
    input.sync(&InputEvent::Other);
    assert_eq!(*input.left_mouse_button(), MouseButtonState::Down);
}

#[test]
fn left_press_leaves_right_as_it_was() {
    let mut input = InputState::new();
    input.sync(&press(MouseButton::Right));
    input.sync(&press(MouseButton::Left));
    assert_eq!(*input.left_mouse_button(), MouseButtonState::Down);
    assert_eq!(*input.right_mouse_button(), MouseButtonState::Down);
    input.sync(&release(MouseButton::Left));
    assert_eq!(*input.left_mouse_button(), MouseButtonState::Up);
    assert_eq!(*input.right_mouse_button(), MouseButtonState::Down);
    input.sync(&release(MouseButton::Right));
    assert_eq!(*input.right_mouse_button(), MouseButtonState::Up);
}

#[test]
fn other_buttons_change_nothing() {
    let mut input = InputState::new();
    input.sync(&press(MouseButton::Left));
    for button in [
        MouseButton::Middle,
        MouseButton::Back,
        MouseButton::Forward,
        MouseButton::Other(7),
    ] {
        input.sync(&press(button));
        assert_eq!(*input.left_mouse_button(), MouseButtonState::Down);
        assert_eq!(*input.right_mouse_button(), MouseButtonState::Up);
        input.sync(&release(button));
        assert_eq!(*input.left_mouse_button(), MouseButtonState::Down);
        assert_eq!(*input.right_mouse_button(), MouseButtonState::Up);
    }
}

#[test]
fn pointer_position_follows_the_last_move() {
    let mut input = InputState::new();
    let first = [12.5f32.to_bits(), 40.0f32.to_bits()];
    let second = [0.0f32.to_bits(), 1.0f32.to_bits()];
    input.sync(&InputEvent::CursorMoved { position: first });
    assert_eq!(*input.mouse_position(), Some(first));
    input.sync(&press(MouseButton::Left));
    assert_eq!(*input.mouse_position(), Some(first));
    input.sync(&InputEvent::CursorMoved { position: second });
    assert_eq!(*input.mouse_position(), Some(second));
    assert_eq!(*input.left_mouse_button(), MouseButtonState::Down);
}
