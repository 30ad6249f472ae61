//! Decisions of the local input source: where the cursor is held while input
//! is captured, and how raw pointer, wheel and key reports become events.

use vstd::prelude::*;

use crate::capture::{clamp_i32, LocalInputEvent, MousePosition};
use crate::input_event::MouseScrollDirection;

verus! {

/// Wheel movement of one notch.
pub const WHEEL_DELTA: u32 = 120;

/// Half of `v`, rounded toward zero.
pub open spec fn half(v: int) -> int {
    if v >= 0 {
        v / 2
    } else {
        -((-v) / 2)
    }
}

/// Where the cursor is held while input is captured: the middle of the work
/// area whose right and bottom edges are given.
pub fn cursor_locked_pos(work_area_right: i32, work_area_bottom: i32) -> (r: MousePosition)
    ensures
        r.x == half(work_area_right as int),
        r.y == half(work_area_bottom as int),
{
    MousePosition { x: work_area_right / 2, y: work_area_bottom / 2 }
}

/// The event for the pointer reported at `pos`: while input is captured, the
/// movement away from the locked position; otherwise the position itself.
pub fn mouse_position_event(capturing: bool, locked: MousePosition, pos: MousePosition) -> (r:
    LocalInputEvent)
    ensures
        capturing ==> r == (LocalInputEvent::MouseMove {
            dx: clamp_i32(pos.x - locked.x),
            dy: clamp_i32(pos.y - locked.y),
        }),
        !capturing ==> r == LocalInputEvent::MousePosition(pos),
{
    if capturing {
        let (dx, dy) = locked.delta_to(&pos);
        LocalInputEvent::MouseMove { dx, dy }
    } else {
        LocalInputEvent::MousePosition(pos)
    }
}

/// The wheel movement in a mouse report's data: its high word, read as a
/// signed number.
pub open spec fn wheel_movement(mouse_data: u32) -> int {
    let high = mouse_data as int / 0x10000;
    if high < 0x8000 {
        high
    } else {
        high - 0x10000
    }
}

/// The scroll for a mouse report's data: whole notches, rounded toward zero,
/// upward for a positive movement. Less than one notch is no scroll.
pub fn wheel_scroll(mouse_data: u32) -> (r: Option<LocalInputEvent>)
    ensures
        ({
            let m = wheel_movement(mouse_data);
            if m >= WHEEL_DELTA {
                r == Some(
                    LocalInputEvent::MouseScroll {
                        direction: MouseScrollDirection::Up,
                        clicks: (m / WHEEL_DELTA as int) as u16,
                    },
                )
            } else if -m >= WHEEL_DELTA {
                r == Some(
                    LocalInputEvent::MouseScroll {
                        direction: MouseScrollDirection::Down,
                        clicks: (-m / WHEEL_DELTA as int) as u16,
                    },
                )
            } else {
                r is None
            }
        }),
{
    let high: u32 = mouse_data / 0x10000;
    if high < 0x8000 {
        let clicks = high / WHEEL_DELTA;
        if clicks == 0 {
            None
        } else {
            Some(LocalInputEvent::MouseScroll { direction: MouseScrollDirection::Up, clicks: clicks as u16 })
        }
    } else {
        let clicks = (0x10000 - high) / WHEEL_DELTA;
        if clicks == 0 {
            None
        } else {
            Some(LocalInputEvent::MouseScroll { direction: MouseScrollDirection::Down, clicks: clicks as u16 })
        }
    }
}

/// Whether `event` presses the key that `previous` pressed.
pub open spec fn presses_again(previous: Option<LocalInputEvent>, event: LocalInputEvent) -> bool {
    &&& previous matches Some(LocalInputEvent::KeyDown { key: prev })
    &&& event matches LocalInputEvent::KeyDown { key }
    &&& prev == key
}

/// A key pressed again while still down, reported with the same key as the
/// previous event, is a repeat; every other event stays as it is.
pub fn repeat_key(previous: Option<LocalInputEvent>, event: LocalInputEvent) -> (r: LocalInputEvent)
    ensures
        presses_again(previous, event) ==> r == (LocalInputEvent::KeyRepeat {
            key: event->KeyDown_key,
        }),
        !presses_again(previous, event) ==> r == event,
{
    match (previous, event) {
        (Some(LocalInputEvent::KeyDown { key: prev }), LocalInputEvent::KeyDown { key }) => {
            if prev == key {
                LocalInputEvent::KeyRepeat { key: prev }
            } else {
                event
            }
        },
        _ => event,
    }
}

} // verus!
