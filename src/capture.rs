//! The capturing side's decision of when to start relaying input: it keeps
//! the recent mouse positions and starts capturing once the pointer bumps the
//! left edge of the screen a second time.

use vstd::prelude::*;

use std::collections::VecDeque;

use crate::input_event::{InputEvent, KeyCode, MouseButton, MouseScrollDirection};

verus! {

/// How long a mouse position is remembered, in milliseconds.
pub const POSITION_TTL_MS: u64 = 200;

/// A pointer position on the local screen.
#[derive(Clone, Copy, Debug, PartialEq, Eq, Structural)]
pub struct MousePosition {
    pub x: i32,
    pub y: i32,
}

/// `v` limited to the range of `i32`.
pub open spec fn clamp_i32(v: int) -> i32 {
    if v < i32::MIN {
        i32::MIN
    } else if v > i32::MAX {
        i32::MAX
    } else {
        v as i32
    }
}

fn clamped_difference(to: i32, from: i32) -> (r: i32)
    ensures
        r == clamp_i32(to - from),
{
    let d: i64 = to as i64 - from as i64;
    if d < i32::MIN as i64 {
        i32::MIN
    } else if d > i32::MAX as i64 {
        i32::MAX
    } else {
        d as i32
    }
}

impl MousePosition {
    /// The movement from this position to `other`, each coordinate limited
    /// to the range of `i32`.
    pub fn delta_to(&self, other: &MousePosition) -> (r: (i32, i32))
        ensures
            r == (clamp_i32(other.x - self.x), clamp_i32(other.y - self.y)),
    {
        (clamped_difference(other.x, self.x), clamped_difference(other.y, self.y))
    }
}

/// An input event as captured on the local machine.
#[derive(Clone, Copy, Debug, PartialEq, Eq, Structural)]
pub enum LocalInputEvent {
    MousePosition(MousePosition),
    MouseMove { dx: i32, dy: i32 },
    MouseButtonDown { button: MouseButton },
    MouseButtonUp { button: MouseButton },
    MouseScroll { direction: MouseScrollDirection, clicks: u16 },
    KeyDown { key: KeyCode },
    KeyRepeat { key: KeyCode },
    KeyUp { key: KeyCode },
}

/// Whether input is relayed, and to which client.
#[derive(Clone, Copy, Debug, PartialEq, Eq, Structural)]
pub enum CaptureState {
    /// Input stays local.
    Inactive,
    /// Input is captured and relayed to the client.
    Active { client_id: u8 },
}

/// Whether a position recorded at `recorded` is too old at `now`; a time
/// before `recorded` counts as no time passed.
pub open spec fn expired(now: u64, recorded: u64) -> bool {
    now > recorded && now - recorded > POSITION_TTL_MS
}

/// The number of positions at the front of `positions` that are too old at
/// `now`.
pub open spec fn expired_prefix(positions: Seq<(MousePosition, u64)>, now: u64) -> nat
    decreases positions.len(),
{
    if positions.len() > 0 && expired(now, positions[0].1) {
        1 + expired_prefix(positions.drop_first(), now)
    } else {
        0
    }
}

/// `positions` without the ones at the front that are too old at `now`.
pub open spec fn drop_expired(positions: Seq<(MousePosition, u64)>, now: u64) -> Seq<
    (MousePosition, u64),
> {
    positions.skip(expired_prefix(positions, now) as int)
}

/// Whether the pointer touched the left edge and then left it again: some
/// position left of column 1 comes before some position right of it.
pub open spec fn left_edge_bump(positions: Seq<(MousePosition, u64)>) -> bool {
    exists|i: int, j: int|
        0 <= i < j < positions.len() && #[trigger] positions[i].0.x < 1 && #[trigger] positions[j].0.x
            > 1
}

/// The decisions of the capturing side, as plain values.
pub struct AppView {
    pub state: CaptureState,
    pub capture_input: bool,
    pub positions: Seq<(MousePosition, u64)>,
}

/// The capturing side's state: whether input is relayed, whether the input
/// listener should swallow local input, and the recent mouse positions,
/// oldest first, each with the time it was recorded in milliseconds.
pub struct App {
    state: CaptureState,
    should_capture_input: bool,
    mouse_pos_buf: VecDeque<(MousePosition, u64)>,
}

impl View for App {
    type V = AppView;

    closed spec fn view(&self) -> AppView {
        AppView {
            state: self.state,
            capture_input: self.should_capture_input,
            positions: self.mouse_pos_buf@,
        }
    }
}

impl App {
    /// Inactive, not capturing, with no positions.
    pub fn new() -> (r: App)
        ensures
            r@.state == CaptureState::Inactive,
            !r@.capture_input,
            r@.positions == Seq::<(MousePosition, u64)>::empty(),
    {
        App {
            state: CaptureState::Inactive,
            should_capture_input: false,
            mouse_pos_buf: VecDeque::new(),
        }
    }

    /// Whether the input listener should swallow local input.
    pub fn should_capture_input(&self) -> (r: bool)
        ensures
            r == self@.capture_input,
    {
        self.should_capture_input
    }

    /// Whether input is relayed, and to which client.
    pub fn state(&self) -> (r: CaptureState)
        ensures
            r == self@.state,
    {
        self.state
    }

    /// Sets whether local input should be swallowed; returns whether that
    /// changed, so that listeners are told only of changes.
    fn set_should_capture_input(&mut self, b: bool) -> (changed: bool)
        ensures
            final(self)@.capture_input == b,
            final(self)@.state == old(self)@.state,
            final(self)@.positions == old(self)@.positions,
            changed == (old(self)@.capture_input != b),
    {
        if self.should_capture_input == b {
            return false;
        }
        self.should_capture_input = b;
        true
    }

    /// Forgets the positions at the front that are too old at `now`.
    pub fn drop_expired_events(&mut self, now: u64)
        ensures
            final(self)@.positions == drop_expired(old(self)@.positions, now),
            final(self)@.state == old(self)@.state,
            final(self)@.capture_input == old(self)@.capture_input,
    {
        let ghost start = self@.positions;
        let ghost dropped: nat = 0;
        assert(start.skip(0) =~= start);
        while self.mouse_pos_buf.len() > 0
            invariant
                self@.state == old(self)@.state,
                self@.capture_input == old(self)@.capture_input,
                start == old(self)@.positions,
                dropped <= start.len(),
                self@.positions == start.skip(dropped as int),
                expired_prefix(start, now) == dropped + expired_prefix(self@.positions, now),
            ensures
                expired_prefix(self@.positions, now) == 0,
            decreases self@.positions.len(),
        {
            let recorded = self.mouse_pos_buf[0].1;
            if now > recorded && now - recorded > POSITION_TTL_MS {
                let ghost before = self@.positions;
                self.mouse_pos_buf.pop_front();
                proof {
                    assert(before.drop_first() =~= self@.positions);
                    assert(start.skip(dropped + 1int) =~= self@.positions);
                    dropped = dropped + 1;
                }
            } else {
                break;
            }
        }
    }

    /// Whether the remembered positions hold a bump against the left edge.
    fn found_left_edge_bump(&self) -> (r: bool)
        ensures
            r == left_edge_bump(self@.positions),
    {
        let ghost s = self@.positions;
        let len = self.mouse_pos_buf.len();
        let mut i: usize = 0;
        while i < len
            invariant
                len == s.len(),
                s == self@.positions,
                i <= len,
                forall|k: int| 0 <= k < i ==> s[k].0.x >= 1,
            ensures
                i == len || s[i as int].0.x < 1,
                i <= len,
                forall|k: int| 0 <= k < i ==> s[k].0.x >= 1,
            decreases len - i,
        {
            if self.mouse_pos_buf[i].0.x < 1 {
                break;
            }
            i = i + 1;
        }
        if i == len {
            return false;
        }
        let first = i;
        let mut j: usize = first + 1;
        while j < len
            invariant
                len == s.len(),
                s == self@.positions,
                first < len,
                s[first as int].0.x < 1,
                forall|k: int| 0 <= k < first ==> s[k].0.x >= 1,
                first < j <= len,
                forall|k: int| first < k < j ==> s[k].0.x <= 1,
            decreases len - j,
        {
            if self.mouse_pos_buf[j].0.x > 1 {
                assert(s[first as int].0.x < 1 && s[j as int].0.x > 1);
                return true;
            }
            j = j + 1;
        }
        assert(!left_edge_bump(s)) by {
            assert forall|a: int, b: int|
                0 <= a < b < s.len() && #[trigger] s[a].0.x < 1 implies !(#[trigger] s[b].0.x
                > 1) by {
                assert(a >= first);
            }
        }
        false
    }

    /// Records a captured event at time `now`. Old positions are forgotten
    /// first; a mouse position is then remembered, and if it lies left of
    /// column 1 after an earlier bump against the left edge, capturing starts
    /// for client 0. Returns whether the capture flag changed.
    pub fn handle_input_event(&mut self, event: LocalInputEvent, now: u64) -> (changed: bool)
        ensures
            ({
                let kept = drop_expired(old(self)@.positions, now);
                match event {
                    LocalInputEvent::MousePosition(pos) => {
                        &&& final(self)@.positions == kept.push((pos, now))
                        &&& if left_edge_bump(kept) && pos.x < 1 {
                            &&& final(self)@.capture_input
                            &&& final(self)@.state == CaptureState::Active { client_id: 0 }
                            &&& changed == !old(self)@.capture_input
                        } else {
                            &&& final(self)@.capture_input == old(self)@.capture_input
                            &&& final(self)@.state == old(self)@.state
                            &&& !changed
                        }
                    },
                    _ => {
                        &&& final(self)@.positions == kept
                        &&& final(self)@.capture_input == old(self)@.capture_input
                        &&& final(self)@.state == old(self)@.state
                        &&& !changed
                    },
                }
            }),
    {
        self.drop_expired_events(now);
        match event {
            LocalInputEvent::MousePosition(pos) => {
                let bump = self.found_left_edge_bump();
                let mut changed = false;
                if bump && pos.x < 1 {
                    changed = self.set_should_capture_input(true);
                    self.state = CaptureState::Active { client_id: 0 };
                }
                self.mouse_pos_buf.push_back((pos, now));
                changed
            },
            _ => false,
        }
    }

    /// The event to relay for a captured one. A mouse position becomes the
    /// movement from the newest remembered position; with none remembered
    /// there is nothing to relay.
    pub fn local_event_to_protocol_event(&self, le: LocalInputEvent) -> (r: Option<InputEvent>)
        ensures
            match le {
                LocalInputEvent::MousePosition(pos) => if self@.positions.len() == 0 {
                    r is None
                } else {
                    r == Some(
                        InputEvent::MouseMove {
                            dx: clamp_i32(pos.x - self@.positions.last().0.x),
                            dy: clamp_i32(pos.y - self@.positions.last().0.y),
                        },
                    )
                },
                LocalInputEvent::MouseMove { dx, dy } => r == Some(InputEvent::MouseMove { dx, dy }),
                LocalInputEvent::MouseButtonDown { button } => r == Some(
                    InputEvent::MouseButtonDown { button },
                ),
                LocalInputEvent::MouseButtonUp { button } => r == Some(
                    InputEvent::MouseButtonUp { button },
                ),
                LocalInputEvent::MouseScroll { direction, clicks } => r == Some(
                    InputEvent::MouseScroll { direction, clicks },
                ),
                LocalInputEvent::KeyDown { key } => r == Some(InputEvent::KeyDown { key }),
                LocalInputEvent::KeyRepeat { key } => r == Some(InputEvent::KeyRepeat { key }),
                LocalInputEvent::KeyUp { key } => r == Some(InputEvent::KeyUp { key }),
            },
    {
        match le {
            LocalInputEvent::MousePosition(pos) => {
                let len = self.mouse_pos_buf.len();
                if len == 0 {
                    None
                } else {
                    let prev = self.mouse_pos_buf[len - 1].0;
                    let (dx, dy) = prev.delta_to(&pos);
                    Some(InputEvent::MouseMove { dx, dy })
                }
            },
            LocalInputEvent::MouseMove { dx, dy } => Some(InputEvent::MouseMove { dx, dy }),
            LocalInputEvent::MouseButtonDown { button } => Some(
                InputEvent::MouseButtonDown { button },
            ),
            LocalInputEvent::MouseButtonUp { button } => Some(InputEvent::MouseButtonUp { button }),
            LocalInputEvent::MouseScroll { direction, clicks } => Some(
                InputEvent::MouseScroll { direction, clicks },
            ),
            LocalInputEvent::KeyDown { key } => Some(InputEvent::KeyDown { key }),
            LocalInputEvent::KeyRepeat { key } => Some(InputEvent::KeyRepeat { key }),
            LocalInputEvent::KeyUp { key } => Some(InputEvent::KeyUp { key }),
        }
    }
}

} // verus!
