use motoro::input::{
    InputEvent, MouseButton, MouseButtonInput, UserInput, KEY_A, KEY_D, KEY_S, KEY_W,
};

#[test]
fn key_codes_are_the_letters() {
    assert_eq!(KEY_W, 'w' as i32);
    assert_eq!(KEY_A, 'a' as i32);
    assert_eq!(KEY_S, 's' as i32);
    assert_eq!(KEY_D, 'd' as i32);
}

#[test]
fn keys_go_down_and_come_up() {
    let mut input = UserInput::default();
    input.handle(InputEvent::KeyDown { keycode: KEY_W });
    input.handle(InputEvent::KeyDown { keycode: KEY_D });
    assert!(input.keys.down.contains(&KEY_W));
    assert!(input.keys.pressed.is_empty());
    assert_eq!(input.keys.wasd_xy_direction(), [1, -1]);
    input.handle(InputEvent::KeyUp { keycode: KEY_W });
    assert!(!input.keys.down.contains(&KEY_W));
    assert!(input.keys.pressed.contains(&KEY_W));
    assert_eq!(input.keys.wasd_xy_direction(), [1, 0]);
    input.handle(InputEvent::KeyDown { keycode: KEY_A });
    assert_eq!(input.keys.wasd_xy_direction(), [0, 0]);
    input.handle(InputEvent::KeyDown { keycode: KEY_S });
    assert_eq!(input.keys.wasd_xy_direction(), [0, 1]);
    input.clear();
    assert!(input.keys.pressed.is_empty());
    assert_eq!(input.keys.down.len(), 3);
}

#[test]
fn mouse_moves_clicks_and_scrolls() {
    let mut input = UserInput::default();
    input.handle(InputEvent::MouseMotion { x: 10, y: -3 });
    input.handle(InputEvent::MouseWheel { x: 0, y: 2 });
    input.handle(InputEvent::MouseButtonDown {
        button: MouseButton::Left,
    });
    input.handle(InputEvent::MouseButtonDown {
        button: MouseButton::Other,
    });
    assert_eq!(input.mouse.raw, [10, -3]);
    assert_eq!(input.mouse.wheel, [0, 2]);
    assert_eq!(
        input.mouse.left,
        MouseButtonInput {
            click: false,
            down: true
        }
    );
    assert_eq!(input.mouse.right, MouseButtonInput::default());
    input.handle(InputEvent::MouseButtonUp {
        button: MouseButton::Left,
    });
    input.handle(InputEvent::MouseButtonDown {
        button: MouseButton::Right,
    });
    input.handle(InputEvent::Other);
    assert_eq!(
        input.mouse.left,
        MouseButtonInput {
            click: true,
            down: false
        }
    );
    assert_eq!(
        input.mouse.right,
        MouseButtonInput {
            click: false,
            down: true
        }
    );
    input.clear();
    assert_eq!(input.mouse.raw, [10, -3]);
    assert_eq!(input.mouse.wheel, [0, 0]);
    assert!(!input.mouse.left.click);
    assert!(input.mouse.right.down);
    input.handle(InputEvent::MouseButtonUp {
        button: MouseButton::Right,
    });
    assert_eq!(
        input.mouse.right,
        MouseButtonInput {
            click: true,
            down: false
        }
    );
}
