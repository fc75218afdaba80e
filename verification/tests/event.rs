use sketch::event::{ALT, CAPS_LOCK, CONTROL, HYPER, KEYPAD, META, NUM_LOCK, SHIFT, SUPER};
use sketch::{
    Focus, Key, KeyCode, KeyKind, Mouse, MouseButton, MouseKind, Paste, Quit, Resize, TerminalEvent,
};

#[test]
fn key_kinds() {
    let press = Key::new(KeyCode::Enter, 0, KeyKind::Press, 0);
    assert!(press.is_press() && !press.is_release() && !press.is_repeat());
    let release = Key::new(KeyCode::Enter, 0, KeyKind::Release, 0);
    assert!(!release.is_press() && release.is_release() && !release.is_repeat());
    let repeat = Key::new(KeyCode::Enter, 0, KeyKind::Repeat, 0);
    assert!(!repeat.is_press() && !repeat.is_release() && repeat.is_repeat());
}

#[test]
fn key_keeps_its_code() {
    let key = Key::new(KeyCode::Char('x'), SHIFT, KeyKind::Press, 0);
    assert_eq!(key.code, KeyCode::Char('x'));
    let key = Key::new(KeyCode::F(5), 0, KeyKind::Press, 0);
    assert_eq!(key.code, KeyCode::F(5));
}

#[test]
fn key_modifiers_one_by_one() {
    let none = Key::new(KeyCode::Enter, 0, KeyKind::Press, 0);
    assert!(!none.with_shift() && !none.with_control() && !none.with_alt());
    assert!(!none.with_super() && !none.with_hyper() && !none.with_meta());

    assert!(Key::new(KeyCode::Enter, SHIFT, KeyKind::Press, 0).with_shift());
    assert!(Key::new(KeyCode::Enter, CONTROL, KeyKind::Press, 0).with_control());
    assert!(Key::new(KeyCode::Enter, ALT, KeyKind::Press, 0).with_alt());
    assert!(Key::new(KeyCode::Enter, SUPER, KeyKind::Press, 0).with_super());
    assert!(Key::new(KeyCode::Enter, HYPER, KeyKind::Press, 0).with_hyper());
    assert!(Key::new(KeyCode::Enter, META, KeyKind::Press, 0).with_meta());

    let only_shift = Key::new(KeyCode::Enter, SHIFT, KeyKind::Press, 0);
    assert!(!only_shift.with_control() && !only_shift.with_alt() && !only_shift.with_meta());
}

#[test]
fn key_modifiers_together() {
    let key = Key::new(KeyCode::Char('c'), CONTROL | ALT, KeyKind::Press, 0);
    assert!(key.with_control());
    assert!(key.with_alt());
    assert!(!key.with_shift());
    assert!(!key.with_super());
}

#[test]
fn key_state() {
    let key = Key::new(KeyCode::Char('1'), 0, KeyKind::Press, KEYPAD | NUM_LOCK);
    assert!(key.from_keypad());
    assert!(key.with_numlock());
    assert!(!key.with_capslock());
    let key = Key::new(KeyCode::Char('A'), 0, KeyKind::Press, CAPS_LOCK);
    assert!(!key.from_keypad());
    assert!(!key.with_numlock());
    assert!(key.with_capslock());
    // The state and the modifiers are two fields.
    let key = Key::new(KeyCode::Char('A'), SHIFT, KeyKind::Press, 0);
    assert!(!key.from_keypad());
}

#[test]
fn mouse_buttons() {
    for kind in [
        MouseKind::Down(MouseButton::Left),
        MouseKind::Up(MouseButton::Left),
        MouseKind::Drag(MouseButton::Left),
    ] {
        let mouse = Mouse::new(kind, 0, 0, 0);
        assert!(mouse.is_left() && !mouse.is_right() && !mouse.is_middle() && !mouse.is_scroll());
    }
    for kind in [
        MouseKind::Down(MouseButton::Right),
        MouseKind::Up(MouseButton::Right),
        MouseKind::Drag(MouseButton::Right),
    ] {
        let mouse = Mouse::new(kind, 0, 0, 0);
        assert!(!mouse.is_left() && mouse.is_right() && !mouse.is_middle() && !mouse.is_scroll());
    }
    for kind in [
        MouseKind::Down(MouseButton::Middle),
        MouseKind::Up(MouseButton::Middle),
        MouseKind::Drag(MouseButton::Middle),
    ] {
        let mouse = Mouse::new(kind, 0, 0, 0);
        assert!(!mouse.is_left() && !mouse.is_right() && mouse.is_middle() && !mouse.is_scroll());
    }
    let moved = Mouse::new(MouseKind::Moved, 0, 0, 0);
    assert!(!moved.is_left() && !moved.is_right() && !moved.is_middle() && !moved.is_scroll());
}

#[test]
fn mouse_kinds() {
    let down = Mouse::new(MouseKind::Down(MouseButton::Right), 0, 0, 0);
    assert!(down.is_press() && !down.is_release() && !down.is_drag() && !down.is_move());
    let up = Mouse::new(MouseKind::Up(MouseButton::Right), 0, 0, 0);
    assert!(!up.is_press() && up.is_release() && !up.is_drag() && !up.is_move());
    let drag = Mouse::new(MouseKind::Drag(MouseButton::Right), 0, 0, 0);
    assert!(!drag.is_press() && !drag.is_release() && drag.is_drag() && !drag.is_move());
    let moved = Mouse::new(MouseKind::Moved, 0, 0, 0);
    assert!(!moved.is_press() && !moved.is_release() && !moved.is_drag() && moved.is_move());
}

#[test]
fn mouse_wheel() {
    let up = Mouse::new(MouseKind::ScrollUp, 0, 0, 0);
    assert!(up.is_scroll() && up.is_scroll_up());
    assert!(!up.is_scroll_down() && !up.is_scroll_left() && !up.is_scroll_right());
    let down = Mouse::new(MouseKind::ScrollDown, 0, 0, 0);
    assert!(down.is_scroll() && down.is_scroll_down() && !down.is_scroll_up());
    let left = Mouse::new(MouseKind::ScrollLeft, 0, 0, 0);
    assert!(left.is_scroll() && left.is_scroll_left() && !left.is_scroll_right());
    let right = Mouse::new(MouseKind::ScrollRight, 0, 0, 0);
    assert!(right.is_scroll() && right.is_scroll_right() && !right.is_scroll_left());
    assert!(!right.is_press() && !right.is_left());
}

#[test]
fn mouse_place_and_modifiers() {
    let mouse = Mouse::new(MouseKind::Moved, SHIFT | META, 12, 34);
    assert_eq!(mouse.column, 12);
    assert_eq!(mouse.row, 34);
    assert!(mouse.with_shift() && mouse.with_meta());
    assert!(!mouse.with_control() && !mouse.with_alt());
    assert!(!mouse.with_super() && !mouse.with_hyper());
    let mouse = Mouse::new(MouseKind::Moved, CONTROL | ALT | SUPER | HYPER, 0, 0);
    assert!(mouse.with_control() && mouse.with_alt() && mouse.with_super() && mouse.with_hyper());
    assert!(!mouse.with_shift() && !mouse.with_meta());
}

#[test]
fn focus_events_make_focus_messages() {
    let msg = TerminalEvent::FocusGained.into_msg(true).unwrap();
    assert_eq!(msg.cast::<Focus>(), Some(&Focus::Gained));
    let msg = TerminalEvent::FocusLost.into_msg(false).unwrap();
    assert_eq!(msg.cast::<Focus>(), Some(&Focus::Lost));
}

#[test]
fn key_and_mouse_events_keep_what_they_hold() {
    let key = Key::new(KeyCode::Char('q'), CONTROL, KeyKind::Release, KEYPAD);
    let msg = TerminalEvent::Key(key).into_msg(false).unwrap();
    let got = msg.cast::<Key>().unwrap();
    assert_eq!(got.code, KeyCode::Char('q'));
    assert!(got.with_control() && got.is_release() && got.from_keypad());
    assert!(!msg.is::<Quit>());

    let mouse = Mouse::new(MouseKind::Drag(MouseButton::Middle), ALT, 3, 4);
    let msg = TerminalEvent::Mouse(mouse).into_msg(true).unwrap();
    let got = msg.cast::<Mouse>().unwrap();
    assert!(got.is_drag() && got.is_middle() && got.with_alt());
    assert_eq!((got.column, got.row), (3, 4));
}

#[test]
fn resize_event_keeps_width_and_height() {
    let msg = TerminalEvent::Resize(120, 40).into_msg(true).unwrap();
    assert_eq!(msg.cast::<Resize>(), Some(&Resize { width: 120, height: 40 }));
}

#[test]
fn paste_is_delivered_only_when_pastes_are_on() {
    let msg = TerminalEvent::Paste(String::from("text")).into_msg(true).unwrap();
    assert_eq!(msg.cast::<Paste>().map(|p| p.0.as_str()), Some("text"));
    assert!(TerminalEvent::Paste(String::from("text")).into_msg(false).is_none());
}
