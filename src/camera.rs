use vstd::prelude::*;

verus! {

/// Whether a key went down or came up.
#[derive(Clone, Copy, PartialEq, Eq, Structural, Debug)]
pub enum ElementState {
    Pressed,
    Released,
}

/// The keys the renderer reacts to; every other key is `Other`.
#[derive(Clone, Copy, PartialEq, Eq, Structural, Debug)]
pub enum Key {
    Escape,
    Q,
    B,
    W,
    A,
    S,
    D,
    Up,
    Down,
    Left,
    Right,
    Space,
    LShift,
    Other,
}

/// Which movement keys are held down. The movement itself (speed, vector
/// math) is applied by the caller from these flags once per frame.
#[derive(Clone, Copy, PartialEq, Eq, Structural, Debug)]
pub struct CameraController {
    pub is_forward_pressed: bool,
    pub is_backward_pressed: bool,
    pub is_left_pressed: bool,
    pub is_right_pressed: bool,
    pub is_up_pressed: bool,
    pub is_down_pressed: bool,
}

/// The movement direction a key drives, if any.
#[derive(Clone, Copy, PartialEq, Eq, Structural, Debug)]
pub enum Movement {
    Forward,
    Backward,
    Left,
    Right,
    Up,
    Down,
}

/// W / Up move forward, S / Down backward, A / Left and D / Right strafe,
/// Space rises and left Shift sinks.
pub open spec fn movement_of(key: Key) -> Option<Movement> {
    match key {
        Key::W | Key::Up => Some(Movement::Forward),
        Key::S | Key::Down => Some(Movement::Backward),
        Key::A | Key::Left => Some(Movement::Left),
        Key::D | Key::Right => Some(Movement::Right),
        Key::Space => Some(Movement::Up),
        Key::LShift => Some(Movement::Down),
        _ => None,
    }
}

impl CameraController {
    /// A controller with no key held.
    pub open spec fn released() -> CameraController {
        CameraController {
            is_forward_pressed: false,
            is_backward_pressed: false,
            is_left_pressed: false,
            is_right_pressed: false,
            is_up_pressed: false,
            is_down_pressed: false,
        }
    }

    /// The controller with the flag of `m` set to `held`.
    pub open spec fn with_flag(self, m: Movement, held: bool) -> CameraController {
        match m {
            Movement::Forward => CameraController { is_forward_pressed: held, ..self },
            Movement::Backward => CameraController { is_backward_pressed: held, ..self },
            Movement::Left => CameraController { is_left_pressed: held, ..self },
            Movement::Right => CameraController { is_right_pressed: held, ..self },
            Movement::Up => CameraController { is_up_pressed: held, ..self },
            Movement::Down => CameraController { is_down_pressed: held, ..self },
        }
    }

    /// The controller after a key event: a movement key sets its flag while
    /// pressed and clears it on release; other keys change nothing.
    pub open spec fn after_key(self, state: ElementState, key: Key) -> CameraController {
        match movement_of(key) {
            Some(m) => self.with_flag(m, state == ElementState::Pressed),
            None => self,
        }
    }

    pub fn new() -> (r: CameraController)
        ensures
            r == CameraController::released(),
    {
        CameraController {
            is_forward_pressed: false,
            is_backward_pressed: false,
            is_left_pressed: false,
            is_right_pressed: false,
            is_up_pressed: false,
            is_down_pressed: false,
        }
    }

    /// Records a key event. Returns whether the key is a movement key, that
    /// is, whether the controller consumed the event.
    pub fn process_events(&mut self, state: ElementState, key: Key) -> (consumed: bool)
        ensures
            *final(self) == old(self).after_key(state, key),
            consumed == movement_of(key).is_some(),
    {
        let is_pressed = match state {
            ElementState::Pressed => true,
            ElementState::Released => false,
        };
        match key {
            Key::W | Key::Up => {
                self.is_forward_pressed = is_pressed;
                true
            },
            Key::S | Key::Down => {
                self.is_backward_pressed = is_pressed;
                true
            },
            Key::A | Key::Left => {
                self.is_left_pressed = is_pressed;
                true
            },
            Key::D | Key::Right => {
                self.is_right_pressed = is_pressed;
                true
            },
            Key::Space => {
                self.is_up_pressed = is_pressed;
                true
            },
            Key::LShift => {
                self.is_down_pressed = is_pressed;
                true
            },
            _ => false,
        }
    }
}

} // verus!
