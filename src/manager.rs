//! The server's session manager: admits at most one session at a time and
//! hands each incoming event to that session while it is past its handshake.
//!
//! The manager decides; its caller waits on the three sources (a finished
//! session, an incoming event, an incoming connection) and performs the
//! returned action.

use vstd::prelude::*;

use crate::input_event::InputEvent;
use crate::server::{connected, is_connected, SessionState};

verus! {

/// Something the manager has to react to.
#[derive(Clone, Copy, Debug, PartialEq, Eq, Structural)]
pub enum ManagerEvent {
    /// The session's task ended, normally or with an error.
    SessionFinished,
    /// An event from the capture side, or `None` once that side closed.
    /// `session` is the state last committed by the current session, if any.
    Input { event: Option<InputEvent>, session: SessionState },
    /// A new connection was accepted.
    IncomingConnection,
}

/// What the caller performs next.
#[derive(Clone, Copy, Debug, PartialEq, Eq, Structural)]
pub enum ManagerAction {
    /// Forget the finished session; a new connection may take its place.
    FreeSlot,
    /// Hand the event to the session.
    Forward(InputEvent),
    /// Drop the event: no session is past its handshake.
    DropEvent,
    /// Stop serving.
    Shutdown,
    /// Start a session on the new connection.
    SpawnSession,
    /// Close the new connection at once: a session is already active.
    DropConnection,
}

/// The manager's state: whether a session holds the slot, and whether the
/// manager has stopped.
#[derive(Clone, Copy, Debug, PartialEq, Eq, Structural)]
pub struct ManagerView {
    pub active: bool,
    pub stopped: bool,
}

/// One step of the manager: from `pre`, on `event`, it moves to `post` and
/// asks for `action`.
pub open spec fn manager_next(
    pre: ManagerView,
    event: ManagerEvent,
    post: ManagerView,
    action: ManagerAction,
) -> bool {
    if pre.stopped {
        post == pre && action == ManagerAction::Shutdown
    } else {
        match event {
            ManagerEvent::SessionFinished => post == ManagerView { active: false, ..pre } && action
                == ManagerAction::FreeSlot,
            ManagerEvent::Input { event: None, .. } => post == ManagerView { stopped: true, ..pre }
                && action == ManagerAction::Shutdown,
            ManagerEvent::Input { event: Some(e), session } => post == pre && if pre.active
                && connected(session) {
                action == ManagerAction::Forward(e)
            } else {
                action == ManagerAction::DropEvent
            },
            ManagerEvent::IncomingConnection => if pre.active {
                post == pre && action == ManagerAction::DropConnection
            } else {
                post == ManagerView { active: true, ..pre } && action == ManagerAction::SpawnSession
            },
        }
    }
}

/// The session manager.
pub struct SessionManager {
    active: bool,
    stopped: bool,
}

impl View for SessionManager {
    type V = ManagerView;

    closed spec fn view(&self) -> ManagerView {
        ManagerView { active: self.active, stopped: self.stopped }
    }
}

impl SessionManager {
    /// A running manager with no session.
    pub fn new() -> (r: SessionManager)
        ensures
            r@ == (ManagerView { active: false, stopped: false }),
    {
        SessionManager { active: false, stopped: false }
    }

    /// Whether a session holds the slot.
    pub fn has_session(&self) -> (r: bool)
        ensures
            r == self@.active,
    {
        self.active
    }

    /// Whether the manager has stopped.
    pub fn is_stopped(&self) -> (r: bool)
        ensures
            r == self@.stopped,
    {
        self.stopped
    }

    /// Reacts to `event` and returns what to do.
    pub fn step(&mut self, event: ManagerEvent) -> (r: ManagerAction)
        ensures
            manager_next(old(self)@, event, final(self)@, r),
    {
        if self.stopped {
            return ManagerAction::Shutdown;
        }
        match event {
            ManagerEvent::SessionFinished => {
                self.active = false;
                ManagerAction::FreeSlot
            },
            ManagerEvent::Input { event: None, .. } => {
                self.stopped = true;
                ManagerAction::Shutdown
            },
            ManagerEvent::Input { event: Some(e), session } => {
                if self.active && is_connected(&session) {
                    ManagerAction::Forward(e)
                } else {
                    ManagerAction::DropEvent
                }
            },
            ManagerEvent::IncomingConnection => {
                if self.active {
                    ManagerAction::DropConnection
                } else {
                    self.active = true;
                    ManagerAction::SpawnSession
                }
            },
        }
    }
}

/// While a session holds the slot, a new connection is dropped and the
/// session keeps the slot; a session is started only on a free slot, which
/// it then holds. So at most one session is active at any time.
pub proof fn lemma_single_active_session(pre: ManagerView, post: ManagerView, action: ManagerAction)
    requires
        manager_next(pre, ManagerEvent::IncomingConnection, post, action),
    ensures
        pre.active ==> action != ManagerAction::SpawnSession && post == pre,
        !pre.stopped && pre.active ==> action == ManagerAction::DropConnection,
        action == ManagerAction::SpawnSession ==> !pre.active && post.active,
{
}

/// An event that arrives while no session is active, or while the session is
/// still in its handshake, is dropped and leaves the manager as it was.
pub proof fn lemma_drop_when_disconnected(
    pre: ManagerView,
    e: InputEvent,
    session: SessionState,
    post: ManagerView,
    action: ManagerAction,
)
    requires
        !pre.stopped,
        !pre.active || session is Handshaking,
        manager_next(pre, ManagerEvent::Input { event: Some(e), session }, post, action),
    ensures
        action == ManagerAction::DropEvent,
        post == pre,
{
}

/// The manager hands over only the event it was just given, never one kept
/// from before: so an event once dropped is never delivered later.
pub proof fn lemma_forward_only_current(
    pre: ManagerView,
    event: ManagerEvent,
    post: ManagerView,
    action: ManagerAction,
)
    requires
        manager_next(pre, event, post, action),
        action is Forward,
    ensures
        event matches ManagerEvent::Input { event: Some(e), session } && e == action->Forward_0
            && pre.active && connected(session),
        post == pre,
{
}

/// Events that arrive one after another while the session is past its
/// handshake are all handed over, each exactly once and in the order they
/// came, and the manager stays as it was.
pub proof fn lemma_forward_in_order(
    states: Seq<ManagerView>,
    events: Seq<InputEvent>,
    sessions: Seq<SessionState>,
    actions: Seq<ManagerAction>,
)
    requires
        states.len() == events.len() + 1,
        sessions.len() == events.len(),
        actions.len() == events.len(),
        states[0].active,
        !states[0].stopped,
        forall|i: int| 0 <= i < events.len() ==> connected(#[trigger] sessions[i]),
        forall|i: int|
            0 <= i < events.len() ==> manager_next(
                #[trigger] states[i],
                ManagerEvent::Input { event: Some(events[i]), session: sessions[i] },
                states[i + 1],
                actions[i],
            ),
    ensures
        forall|i: int| 0 <= i <= events.len() ==> #[trigger] states[i] == states[0],
        forall|i: int| 0 <= i < events.len() ==> #[trigger] actions[i] == ManagerAction::Forward(events[i]),
    decreases events.len(),
{
    if events.len() > 0 {
        let n = events.len() - 1;
        lemma_forward_in_order(
            states.subrange(0, n + 1),
            events.subrange(0, n),
            sessions.subrange(0, n),
            actions.subrange(0, n),
        );
        assert(states[n] == states.subrange(0, n + 1)[n]);
        assert(connected(sessions[n]));
        assert(forall|i: int| 0 <= i < n ==> actions[i] == actions.subrange(0, n)[i]);
        assert(forall|i: int| 0 <= i <= n ==> states[i] == states.subrange(0, n + 1)[i]);
    }
}

} // verus!
