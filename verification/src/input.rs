//! What the user did since the last frame, from the stream of window
//! events.

use std::collections::HashSet;
use vstd::prelude::*;

verus! {

/// The key code of the W key.
pub const KEY_W: i32 = 119;

/// The key code of the A key.
pub const KEY_A: i32 = 97;

/// The key code of the S key.
pub const KEY_S: i32 = 115;

/// The key code of the D key.
pub const KEY_D: i32 = 100;

/// One mouse button: whether it is held down, and whether it was released
/// since the last frame.
#[derive(Debug, Clone, Copy, PartialEq, Eq, Structural)]
pub struct MouseButtonInput {
    pub click: bool,
    pub down: bool,
}

impl Default for MouseButtonInput {
    /// A button that is up and was not released.
    fn default() -> (button: MouseButtonInput)
        ensures
            button == (MouseButtonInput { click: false, down: false }),
    {
        MouseButtonInput { click: false, down: false }
    }
}

/// The mouse: where it is in window pixels, how far the wheel turned since
/// the last frame, and the two buttons.
#[derive(Debug, Clone, Copy)]
pub struct MouseInput {
    pub raw: [i32; 2],
    pub wheel: [i32; 2],
    pub left: MouseButtonInput,
    pub right: MouseButtonInput,
}

impl Default for MouseInput {
    /// A mouse at the window's origin, with a wheel at rest and both
    /// buttons up and unclicked.
    fn default() -> (mouse: MouseInput)
        ensures
            mouse.raw[0] == 0 && mouse.raw[1] == 0,
            mouse.wheel[0] == 0 && mouse.wheel[1] == 0,
            mouse.left == (MouseButtonInput { click: false, down: false }),
            mouse.right == (MouseButtonInput { click: false, down: false }),
    {
        MouseInput {
            raw: [0, 0],
            wheel: [0, 0],
            left: MouseButtonInput::default(),
            right: MouseButtonInput::default(),
        }
    }
}

/// The keys that are held down, and the keys that were released since the
/// last frame, by key code.
#[derive(Debug)]
pub struct KeysInput {
    pub down: HashSet<i32>,
    pub pressed: HashSet<i32>,
}

impl Default for KeysInput {
    /// No key held down, none released.
    fn default() -> (keys: KeysInput)
        ensures
            keys.down@ == Set::<i32>::empty(),
            keys.pressed@ == Set::<i32>::empty(),
    {
        KeysInput { down: HashSet::new(), pressed: HashSet::new() }
    }
}

/// A mouse button as events name it.
#[derive(Debug, Clone, Copy, PartialEq, Eq, Structural)]
pub enum MouseButton {
    Left,
    Right,
    Other,
}

/// One window event, as far as the input state reads it.
#[derive(Debug, Clone, Copy, PartialEq, Eq, Structural)]
pub enum InputEvent {
    KeyDown { keycode: i32 },
    KeyUp { keycode: i32 },
    MouseMotion { x: i32, y: i32 },
    MouseButtonDown { button: MouseButton },
    MouseButtonUp { button: MouseButton },
    MouseWheel { x: i32, y: i32 },
    Other,
}

/// Mouse and keys together.
#[derive(Debug)]
pub struct UserInput {
    pub mouse: MouseInput,
    pub keys: KeysInput,
}

/// The input state as a value.
pub ghost struct Input {
    pub raw: (i32, i32),
    pub wheel: (i32, i32),
    pub left: MouseButtonInput,
    pub right: MouseButtonInput,
    pub down: Set<i32>,
    pub pressed: Set<i32>,
}

impl Input {
    /// The state at the start of a frame: clicks, wheel and released keys
    /// are forgotten; what is held down stays.
    pub open spec fn clear(self) -> Input {
        Input {
            wheel: (0, 0),
            left: MouseButtonInput { click: false, down: self.left.down },
            right: MouseButtonInput { click: false, down: self.right.down },
            pressed: Set::empty(),
            ..self
        }
    }

    /// The state after one event.
    pub open spec fn handle(self, event: InputEvent) -> Input {
        match event {
            InputEvent::KeyDown { keycode } => Input { down: self.down.insert(keycode), ..self },
            InputEvent::KeyUp { keycode } => Input {
                down: self.down.remove(keycode),
                pressed: self.pressed.insert(keycode),
                ..self
            },
            InputEvent::MouseMotion { x, y } => Input { raw: (x, y), ..self },
            InputEvent::MouseButtonDown { button } => match button {
                MouseButton::Left => Input {
                    left: MouseButtonInput { click: self.left.click, down: true },
                    ..self
                },
                MouseButton::Right => Input {
                    right: MouseButtonInput { click: self.right.click, down: true },
                    ..self
                },
                MouseButton::Other => self,
            },
            InputEvent::MouseButtonUp { button } => match button {
                MouseButton::Left => Input { left: MouseButtonInput { click: true, down: false }, ..self },
                MouseButton::Right => Input {
                    right: MouseButtonInput { click: true, down: false },
                    ..self
                },
                MouseButton::Other => self,
            },
            InputEvent::MouseWheel { x, y } => Input { wheel: (x, y), ..self },
            InputEvent::Other => self,
        }
    }

    /// The direction that the held W, A, S and D keys point in, x then y,
    /// with y growing downwards.
    pub open spec fn wasd(self) -> (int, int) {
        (
            (if self.down.contains(KEY_D) {
                1int
            } else {
                0int
            }) - (if self.down.contains(KEY_A) {
                1int
            } else {
                0int
            }),
            (if self.down.contains(KEY_S) {
                1int
            } else {
                0int
            }) - (if self.down.contains(KEY_W) {
                1int
            } else {
                0int
            }),
        )
    }
}

impl View for UserInput {
    type V = Input;

    open spec fn view(&self) -> Input {
        Input {
            raw: (self.mouse.raw[0], self.mouse.raw[1]),
            wheel: (self.mouse.wheel[0], self.mouse.wheel[1]),
            left: self.mouse.left,
            right: self.mouse.right,
            down: self.keys.down@,
            pressed: self.keys.pressed@,
        }
    }
}

impl Input {
    /// The state before anything happened: the mouse at the origin, every
    /// button and key up, nothing clicked or released.
    pub open spec fn start() -> Input {
        Input {
            raw: (0, 0),
            wheel: (0, 0),
            left: MouseButtonInput { click: false, down: false },
            right: MouseButtonInput { click: false, down: false },
            down: Set::empty(),
            pressed: Set::empty(),
        }
    }
}

impl Default for UserInput {
    /// The input state before anything happened.
    fn default() -> (input: UserInput)
        ensures
            input@ == Input::start(),
    {
        UserInput { mouse: MouseInput::default(), keys: KeysInput::default() }
    }
}

impl KeysInput {
    /// The direction that the held W, A, S and D keys point in, x then y,
    /// each minus one, zero or one, with y growing downwards.
    pub fn wasd_xy_direction(&self) -> (direction: [i32; 2])
        ensures
            direction[0] == (if self.down@.contains(KEY_D) {
                1int
            } else {
                0int
            }) - (if self.down@.contains(KEY_A) {
                1int
            } else {
                0int
            }),
            direction[1] == (if self.down@.contains(KEY_S) {
                1int
            } else {
                0int
            }) - (if self.down@.contains(KEY_W) {
                1int
            } else {
                0int
            }),
    {
        broadcast use vstd::std_specs::hash::group_hash_axioms;

        let mut x: i32 = 0;
        let mut y: i32 = 0;
        if self.down.contains(&KEY_W) {
            y = y - 1;
        }
        if self.down.contains(&KEY_A) {
            x = x - 1;
        }
        if self.down.contains(&KEY_S) {
            y = y + 1;
        }
        if self.down.contains(&KEY_D) {
            x = x + 1;
        }
        [x, y]
    }
}

impl UserInput {
    /// Starts a frame: forgets the clicks, the wheel and the released keys
    /// of the last one.
    pub fn clear(&mut self)
        ensures
            final(self)@ == old(self)@.clear(),
    {
        broadcast use vstd::std_specs::hash::group_hash_axioms;

        self.mouse.left.click = false;
        self.mouse.right.click = false;
        self.mouse.wheel = [0, 0];
        self.keys.pressed.clear();
        assert(self@.pressed =~= Set::empty());
    }

    /// Takes in one event.
    pub fn handle(&mut self, event: InputEvent)
        ensures
            final(self)@ == old(self)@.handle(event),
    {
        broadcast use vstd::std_specs::hash::group_hash_axioms;

        match event {
            InputEvent::KeyDown { keycode } => {
                self.keys.down.insert(keycode);
            },
            InputEvent::KeyUp { keycode } => {
                self.keys.down.remove(&keycode);
                self.keys.pressed.insert(keycode);
            },
            InputEvent::MouseMotion { x, y } => {
                self.mouse.raw = [x, y];
            },
            InputEvent::MouseButtonDown { button } => match button {
                MouseButton::Left => {
                    self.mouse.left.down = true;
                },
                MouseButton::Right => {
                    self.mouse.right.down = true;
                },
                MouseButton::Other => {},
            },
            InputEvent::MouseButtonUp { button } => match button {
                MouseButton::Left => {
                    self.mouse.left.down = false;
                    self.mouse.left.click = true;
                },
                MouseButton::Right => {
                    self.mouse.right.down = false;
                    self.mouse.right.click = true;
                },
                MouseButton::Other => {},
            },
            InputEvent::MouseWheel { x, y } => {
                self.mouse.wheel = [x, y];
            },
            InputEvent::Other => {},
        }
    }
}

} // verus!
