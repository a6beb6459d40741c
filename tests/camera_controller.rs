use renderer::camera::{CameraController, ElementState, Key};

#[test]
fn movement_keys_set_and_clear_flags() {
    let mut c = CameraController::new();
    assert!(c.process_events(ElementState::Pressed, Key::W));
    assert!(c.is_forward_pressed);
    assert!(c.process_events(ElementState::Pressed, Key::Down));
    assert!(c.is_backward_pressed);
    assert!(c.process_events(ElementState::Pressed, Key::A));
    assert!(c.process_events(ElementState::Pressed, Key::Right));
    assert!(c.process_events(ElementState::Pressed, Key::Space));
    assert!(c.process_events(ElementState::Pressed, Key::LShift));
    assert!(c.is_left_pressed && c.is_right_pressed && c.is_up_pressed && c.is_down_pressed);
    assert!(c.process_events(ElementState::Released, Key::Up));
    assert!(!c.is_forward_pressed);
    assert!(c.is_backward_pressed);
}

#[test]
fn other_keys_are_not_consumed() {
    let mut c = CameraController::new();
    for k in [Key::Other, Key::Q, Key::B, Key::Escape] {
        assert!(!c.process_events(ElementState::Pressed, k));
    }
    assert_eq!(c, CameraController::new());
}
