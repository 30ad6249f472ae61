use terong::{
    cursor_locked_pos, mouse_position_event, repeat_key, wheel_scroll, App, InputEvent, KeyCode,
    LocalInputEvent, MousePosition, MouseScrollDirection,
};

#[test]
fn cursor_locked_at_middle_of_work_area() {
    assert_eq!(cursor_locked_pos(1920, 1040), MousePosition { x: 960, y: 520 });
    assert_eq!(cursor_locked_pos(1365, 767), MousePosition { x: 682, y: 383 });
}

#[test]
fn pointer_reports_position_unless_capturing() {
    let locked = MousePosition { x: 960, y: 540 };
    let pos = MousePosition { x: 970, y: 530 };
    assert_eq!(mouse_position_event(false, locked, pos), LocalInputEvent::MousePosition(pos));
    assert_eq!(
        mouse_position_event(true, locked, pos),
        LocalInputEvent::MouseMove { dx: 10, dy: -10 }
    );
}

#[test]
fn wheel_notches_become_scroll_clicks() {
    assert_eq!(
        wheel_scroll(120 << 16),
        Some(LocalInputEvent::MouseScroll { direction: MouseScrollDirection::Up, clicks: 1 })
    );
    assert_eq!(
        wheel_scroll(360 << 16 | 0x1234),
        Some(LocalInputEvent::MouseScroll { direction: MouseScrollDirection::Up, clicks: 3 })
    );
    let down_two = ((-240i16) as u16 as u32) << 16;
    assert_eq!(
        wheel_scroll(down_two),
        Some(LocalInputEvent::MouseScroll { direction: MouseScrollDirection::Down, clicks: 2 })
    );
}

#[test]
fn wheel_below_one_notch_is_no_scroll() {
    assert_eq!(wheel_scroll(0), None);
    assert_eq!(wheel_scroll(119 << 16), None);
    assert_eq!(wheel_scroll(((-119i16) as u16 as u32) << 16), None);
}

#[test]
fn same_key_down_twice_is_repeat() {
    let down = LocalInputEvent::KeyDown { key: KeyCode::W };
    assert_eq!(repeat_key(Some(down), down), LocalInputEvent::KeyRepeat { key: KeyCode::W });
    let other = LocalInputEvent::KeyDown { key: KeyCode::S };
    assert_eq!(repeat_key(Some(down), other), other);
    assert_eq!(repeat_key(None, down), down);
    let up = LocalInputEvent::KeyUp { key: KeyCode::W };
    assert_eq!(repeat_key(Some(up), down), down);
    assert_eq!(repeat_key(Some(down), up), up);
}

#[test]
fn captured_movement_and_repeat_are_relayed() {
    let app = App::new();
    assert_eq!(
        app.local_event_to_protocol_event(LocalInputEvent::MouseMove { dx: -4, dy: 9 }),
        Some(InputEvent::MouseMove { dx: -4, dy: 9 })
    );
    assert_eq!(
        app.local_event_to_protocol_event(LocalInputEvent::KeyRepeat { key: KeyCode::Space }),
        Some(InputEvent::KeyRepeat { key: KeyCode::Space })
    );
}
