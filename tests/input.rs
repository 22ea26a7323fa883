use orbclient_sdl::event::{convert_event, shift_held, Event, KeyEvent, MouseEvent, NativeEvent, MOD_CAPS, MOD_LSHIFT, MOD_RSHIFT};
use orbclient_sdl::keys::{convert_scancode, K_0, K_1, K_A, K_ALT, K_BACKSLASH, K_ENTER, K_ESC, K_F1, K_F12, K_RIGHT_SHIFT, K_SPACE, K_UP, K_Z};

const MOUSE: MouseEvent = MouseEvent { x: 4, y: 5, left_button: true, middle_button: false, right_button: true };

#[test]
fn letters_follow_shift() {
    assert_eq!(convert_scancode(Some(4), false), Some(('a', K_A)));
    assert_eq!(convert_scancode(Some(4), true), Some(('A', K_A)));
    assert_eq!(convert_scancode(Some(29), false), Some(('z', K_Z)));
}

#[test]
fn digits_and_symbols_follow_shift() {
    assert_eq!(convert_scancode(Some(30), true), Some(('1', K_1)));
    assert_eq!(convert_scancode(Some(30), false), Some(('!', K_1)));
    assert_eq!(convert_scancode(Some(39), true), Some(('0', K_0)));
    assert_eq!(convert_scancode(Some(49), true), Some(('\\', K_BACKSLASH)));
    assert_eq!(convert_scancode(Some(49), false), Some(('|', K_BACKSLASH)));
}

#[test]
fn control_keys_carry_no_glyph() {
    assert_eq!(convert_scancode(Some(58), true), Some(('\0', K_F1)));
    assert_eq!(convert_scancode(Some(69), false), Some(('\0', K_F12)));
    assert_eq!(convert_scancode(Some(82), false), Some(('\0', K_UP)));
    assert_eq!(convert_scancode(Some(226), false), Some(('\0', K_ALT)));
    assert_eq!(convert_scancode(Some(230), true), Some(('\0', K_ALT)));
    assert_eq!(convert_scancode(Some(229), true), Some(('\0', K_RIGHT_SHIFT)));
    assert_eq!(convert_scancode(Some(40), true), Some(('\n', K_ENTER)));
    assert_eq!(convert_scancode(Some(41), false), Some(('\x1B', K_ESC)));
    assert_eq!(convert_scancode(Some(44), true), Some((' ', K_SPACE)));
}

#[test]
fn unknown_scancodes_give_nothing() {
    assert_eq!(convert_scancode(Some(0), false), None);
    assert_eq!(convert_scancode(Some(57), true), None);
    assert_eq!(convert_scancode(Some(1000), false), None);
    assert_eq!(convert_scancode(None, true), None);
}

#[test]
fn scancode_translation_is_repeatable() {
    for code in -5..300 {
        for shift in [false, true] {
            assert_eq!(convert_scancode(Some(code), shift), convert_scancode(Some(code), shift));
        }
    }
}

#[test]
fn shift_comes_from_either_shift_key_or_caps_lock() {
    assert!(!shift_held(0));
    assert!(shift_held(MOD_LSHIFT));
    assert!(shift_held(MOD_RSHIFT));
    assert!(shift_held(MOD_CAPS));
    assert!(!shift_held(0x0040));
}

#[test]
fn mouse_events_give_the_mouse_state() {
    for e in [NativeEvent::MouseMotion, NativeEvent::MouseButtonDown, NativeEvent::MouseButtonUp] {
        assert_eq!(convert_event(e, MOUSE, 0), vec![Event::Mouse(MOUSE)]);
    }
}

#[test]
fn key_events_use_the_shift_state() {
    assert_eq!(
        convert_event(NativeEvent::KeyDown { scancode: Some(4) }, MOUSE, MOD_CAPS),
        vec![Event::Key(KeyEvent { character: 'A', scancode: K_A, pressed: true })]
    );
    assert_eq!(
        convert_event(NativeEvent::KeyUp { scancode: Some(4) }, MOUSE, 0),
        vec![Event::Key(KeyEvent { character: 'a', scancode: K_A, pressed: false })]
    );
    assert!(convert_event(NativeEvent::KeyDown { scancode: Some(57) }, MOUSE, 0).is_empty());
    assert!(convert_event(NativeEvent::KeyUp { scancode: None }, MOUSE, 0).is_empty());
}

#[test]
fn quit_and_other_events() {
    assert_eq!(convert_event(NativeEvent::Quit, MOUSE, 0), vec![Event::Quit]);
    assert!(convert_event(NativeEvent::Other, MOUSE, 0).is_empty());
}
