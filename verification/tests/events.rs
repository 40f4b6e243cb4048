use tiny_game_framework::{Action, EventHandler, InputEvent, MouseButton, KEY_ESCAPE};

fn handler() -> EventHandler<(i32, i32)> {
    EventHandler::new((1, 1), (0, 0))
}

fn press(key: i32) -> InputEvent<(i32, i32)> {
    InputEvent::Key { key, action: Action::Press }
}

fn release(key: i32) -> InputEvent<(i32, i32)> {
    InputEvent::Key { key, action: Action::Release }
}

#[test]
fn new_handler_has_seen_nothing() {
    let handler = handler();
    assert!(handler.keys_pressed.is_empty());
    assert_eq!(handler.mouse_pos, (1, 1));
    assert_eq!(handler.scroll, (0, 0));
    assert_eq!((handler.width, handler.height), (1, 1));
    assert!(!handler.lmb);
    assert!(!handler.rmb);
}

#[test]
fn a_key_is_noted_with_the_number_of_keys_down_before_it() {
    let mut handler = handler();
    handler.on_key_press(65);
    handler.on_key_press(66);
    handler.on_key_press(67);
    assert_eq!(handler.keys_pressed.get(&65), Some(&0));
    assert_eq!(handler.keys_pressed.get(&66), Some(&1));
    assert_eq!(handler.keys_pressed.get(&67), Some(&2));
    handler.on_key_release(65);
    assert_eq!(handler.keys_pressed.len(), 2);
    handler.on_key_press(68);
    assert_eq!(handler.keys_pressed.get(&68), Some(&2));
    // pressing a key that is down notes it anew
    handler.on_key_press(66);
    assert_eq!(handler.keys_pressed.get(&66), Some(&3));
    assert_eq!(handler.keys_pressed.len(), 3);
}

#[test]
fn releasing_a_key_that_is_not_down_changes_nothing() {
    let mut handler = handler();
    handler.on_key_press(65);
    handler.on_key_release(70);
    assert_eq!(handler.keys_pressed.len(), 1);
    assert_eq!(handler.keys_pressed.get(&65), Some(&0));
}

#[test]
fn buttons_are_tracked() {
    let mut handler = handler();
    handler.on_lmb_press();
    assert!(handler.lmb && !handler.rmb);
    handler.on_rmb_press();
    assert!(handler.lmb && handler.rmb);
    handler.on_lmb_release();
    assert!(!handler.lmb && handler.rmb);
    handler.on_rmb_release();
    assert!(!handler.lmb && !handler.rmb);
}

#[test]
fn cursor_scroll_and_size_are_taken_as_they_come() {
    let mut handler = handler();
    handler.on_mouse_move((30, 40));
    handler.on_scroll_change((0, -2));
    handler.on_window_resize(800, 600);
    assert_eq!(handler.mouse_pos, (30, 40));
    assert_eq!(handler.scroll, (0, -2));
    assert_eq!((handler.width, handler.height), (800, 600));
}

#[test]
fn escape_going_down_asks_to_close_and_is_not_noted() {
    let mut handler = handler();
    assert_eq!(KEY_ESCAPE, 256);
    assert!(handler.handle_event(press(KEY_ESCAPE)));
    assert!(handler.keys_pressed.is_empty());
    assert!(!handler.handle_event(release(KEY_ESCAPE)));
    assert!(!handler.handle_event(InputEvent::Key { key: KEY_ESCAPE, action: Action::Repeat }));
    assert!(handler.keys_pressed.is_empty());
}

#[test]
fn events_are_dispatched() {
    let mut handler = handler();
    assert!(!handler.handle_event(press(65)));
    assert_eq!(handler.keys_pressed.get(&65), Some(&0));
    assert!(!handler.handle_event(InputEvent::Key { key: 66, action: Action::Repeat }));
    assert_eq!(handler.keys_pressed.len(), 1);
    assert!(!handler.handle_event(release(65)));
    assert!(handler.keys_pressed.is_empty());

    handler.handle_event(InputEvent::CursorPos((5, 6)));
    assert_eq!(handler.mouse_pos, (5, 6));
    handler.handle_event(InputEvent::Scroll((1, 2)));
    assert_eq!(handler.scroll, (1, 2));
    handler.handle_event(InputEvent::FramebufferSize(640, 480));
    assert_eq!((handler.width, handler.height), (640, 480));

    handler.handle_event(InputEvent::MouseButton { button: MouseButton::Left, action: Action::Press });
    assert!(handler.lmb);
    handler.handle_event(InputEvent::MouseButton { button: MouseButton::Right, action: Action::Press });
    assert!(handler.rmb);
    handler.handle_event(InputEvent::MouseButton { button: MouseButton::Other, action: Action::Press });
    handler.handle_event(InputEvent::MouseButton { button: MouseButton::Left, action: Action::Repeat });
    assert!(handler.lmb && handler.rmb);
    handler.handle_event(InputEvent::MouseButton { button: MouseButton::Left, action: Action::Release });
    handler.handle_event(InputEvent::MouseButton { button: MouseButton::Right, action: Action::Release });
    assert!(!handler.lmb && !handler.rmb);
    handler.handle_event(InputEvent::Other);
    assert_eq!((handler.width, handler.height), (640, 480));
}

#[test]
fn a_frame_resets_the_scroll_offset_first() {
    let mut handler = handler();
    handler.on_scroll_change((0, 5));
    assert!(!handler.update((0, 0), Vec::new()));
    assert_eq!(handler.scroll, (0, 0));
    assert!(!handler.update((0, 0), vec![InputEvent::Scroll((0, 3)), press(65)]));
    assert_eq!(handler.scroll, (0, 3));
    assert_eq!(handler.keys_pressed.get(&65), Some(&0));
}

#[test]
fn a_frame_asks_to_close_if_any_message_does() {
    let mut handler = handler();
    let close = handler.update((0, 0), vec![press(65), press(KEY_ESCAPE), press(66), release(65)]);
    assert!(close);
    // the messages after Escape are still taken in
    assert_eq!(handler.keys_pressed.len(), 1);
    assert_eq!(handler.keys_pressed.get(&66), Some(&1));
    assert!(!handler.update((0, 0), vec![release(66)]));
    assert!(handler.keys_pressed.is_empty());
}
