//! The subscriber session as a state machine. The connection's task performs
//! the actions (wait for a change of the slot, send a frame, release the
//! connection) and feeds back what happened as events.
use vstd::prelude::*;
use crate::slot::{
    LatestValueSlot,
    initial_slot,
    lemma_coalescing,
    observed,
    published_all,
};

verus! {

/// Where a session stands.
#[derive(Clone, Copy, Debug, PartialEq, Eq, Structural)]
pub enum SessionState {
    /// The transport handshake is under way.
    Handshaking,
    /// Waiting for the slot to move past the session's cursor.
    Waiting,
    /// A frame is being written to the client.
    Sending,
    /// Terminal: the connection is released and the slot is not read again.
    Closed,
}

/// What the connection's task reports to the session.
#[derive(Clone, Copy, Debug, PartialEq, Eq, Structural)]
pub enum SessionEvent {
    HandshakeSucceeded,
    HandshakeFailed,
    /// The slot signalled a change.
    Notified,
    /// The producer side has shut down.
    ProducerGone,
    SendSucceeded,
    SendFailed,
}

/// What the session asks its task to do next.
#[derive(Clone, Debug, PartialEq, Eq)]
pub enum SessionAction {
    /// Suspend until the slot signals a change.
    Wait,
    /// Write this text frame to the client.
    Send(String),
    /// Release the connection; the session is over.
    Release,
    /// The event does not apply in the current state; nothing to do.
    Ignore,
}

/// The mathematical form of an action.
pub enum ActionView {
    Wait,
    Send(Seq<char>),
    Release,
    Ignore,
}

impl View for SessionAction {
    type V = ActionView;

    open spec fn view(&self) -> ActionView {
        match self {
            SessionAction::Wait => ActionView::Wait,
            SessionAction::Send(s) => ActionView::Send(s@),
            SessionAction::Release => ActionView::Release,
            SessionAction::Ignore => ActionView::Ignore,
        }
    }
}

/// The result of observing the slot from `cursor`: send the current value and
/// adopt its version, or keep waiting.
pub open spec fn deliver(cursor: nat, slot: (Seq<char>, nat)) -> (SessionState, nat, ActionView) {
    match observed(slot, cursor) {
        Some(u) => (SessionState::Sending, u.1, ActionView::Send(u.0)),
        None => (SessionState::Waiting, cursor, ActionView::Wait),
    }
}

/// One transition of a session in `state` with cursor `cursor`, given the
/// slot and an event: the next state, the next cursor and the action.
pub open spec fn step(
    state: SessionState,
    cursor: nat,
    slot: (Seq<char>, nat),
    event: SessionEvent,
) -> (SessionState, nat, ActionView) {
    match (state, event) {
        (SessionState::Handshaking, SessionEvent::HandshakeSucceeded) => deliver(cursor, slot),
        (SessionState::Waiting, SessionEvent::Notified) => deliver(cursor, slot),
        (SessionState::Handshaking, SessionEvent::HandshakeFailed) => (
            SessionState::Closed,
            cursor,
            ActionView::Release,
        ),
        (SessionState::Waiting, SessionEvent::ProducerGone) => (
            SessionState::Closed,
            cursor,
            ActionView::Release,
        ),
        (SessionState::Sending, SessionEvent::SendFailed) => (
            SessionState::Closed,
            cursor,
            ActionView::Release,
        ),
        (SessionState::Sending, SessionEvent::SendSucceeded) => (
            SessionState::Waiting,
            cursor,
            ActionView::Wait,
        ),
        _ => (state, cursor, ActionView::Ignore),
    }
}

/// One client connection's view of the broadcast: its state and the last
/// version it observed.
#[derive(Clone, Copy, Debug)]
pub struct Session {
    state: SessionState,
    cursor: u64,
}

impl View for Session {
    type V = (SessionState, nat);

    closed spec fn view(&self) -> (SessionState, nat) {
        (self.state, self.cursor as nat)
    }
}

impl Session {
    /// A session for a freshly accepted connection: handshaking, with its
    /// cursor before the first version, so that a value already published is
    /// delivered at once.
    pub fn new() -> (r: Session)
        ensures
            r@ == (SessionState::Handshaking, 0nat),
    {
        Session { state: SessionState::Handshaking, cursor: 0 }
    }

    pub fn state(&self) -> (r: SessionState)
        ensures
            r == self@.0,
    {
        self.state
    }

    /// The last version this session observed.
    pub fn cursor(&self) -> (r: u64)
        ensures
            r == self@.1,
    {
        self.cursor
    }

    fn deliver_from(&mut self, slot: &LatestValueSlot) -> (r: SessionAction)
        ensures
            (final(self)@.0, final(self)@.1, r@) == deliver(old(self)@.1, slot@),
    {
        match slot.observe(self.cursor) {
            Some(u) => {
                self.state = SessionState::Sending;
                self.cursor = u.version;
                SessionAction::Send(u.value)
            },
            None => {
                self.state = SessionState::Waiting;
                SessionAction::Wait
            },
        }
    }

    /// Applies one event. The slot is only read, so no session can affect
    /// the slot or any other session; a closed session ignores every event.
    pub fn on_event(&mut self, slot: &LatestValueSlot, event: SessionEvent) -> (r: SessionAction)
        ensures
            (final(self)@.0, final(self)@.1, r@) == step(old(self)@.0, old(self)@.1, slot@, event),
            old(self)@.1 <= final(self)@.1,
            r is Send ==> old(self)@.1 < final(self)@.1,
            old(self)@.0 == SessionState::Closed ==> final(self)@ == old(self)@ && r
                == SessionAction::Ignore,
    {
        match (self.state, event) {
            (SessionState::Handshaking, SessionEvent::HandshakeSucceeded) => self.deliver_from(slot),
            (SessionState::Waiting, SessionEvent::Notified) => self.deliver_from(slot),
            (SessionState::Handshaking, SessionEvent::HandshakeFailed) => {
                self.state = SessionState::Closed;
                SessionAction::Release
            },
            (SessionState::Waiting, SessionEvent::ProducerGone) => {
                self.state = SessionState::Closed;
                SessionAction::Release
            },
            (SessionState::Sending, SessionEvent::SendFailed) => {
                self.state = SessionState::Closed;
                SessionAction::Release
            },
            (SessionState::Sending, SessionEvent::SendSucceeded) => {
                self.state = SessionState::Waiting;
                SessionAction::Wait
            },
            _ => SessionAction::Ignore,
        }
    }
}

/// The versions that a session starting in `state` with cursor `cursor`
/// sends while it takes one step per event, step `i` seeing the slot as
/// `slots[i]`.
pub open spec fn sent_versions(
    state: SessionState,
    cursor: nat,
    slots: Seq<(Seq<char>, nat)>,
    events: Seq<SessionEvent>,
) -> Seq<nat>
    decreases events.len(),
{
    if events.len() == 0 || slots.len() == 0 {
        Seq::empty()
    } else {
        let (next_state, next_cursor, action) = step(state, cursor, slots[0], events[0]);
        let rest = sent_versions(next_state, next_cursor, slots.drop_first(), events.drop_first());
        match action {
            ActionView::Send(_) => seq![next_cursor] + rest,
            _ => rest,
        }
    }
}

/// A step never moves the cursor back, and a send moves it forward to the
/// version sent.
pub proof fn lemma_step_cursor(
    state: SessionState,
    cursor: nat,
    slot: (Seq<char>, nat),
    event: SessionEvent,
)
    ensures
        cursor <= step(state, cursor, slot, event).1,
        step(state, cursor, slot, event).2 is Send ==> cursor < step(state, cursor, slot, event).1,
{
}

/// Monotonic versions: whatever the slot does between steps and whatever
/// events arrive, the versions a session sends are each past its starting
/// cursor and strictly increasing.
pub proof fn lemma_sent_versions_increase(
    state: SessionState,
    cursor: nat,
    slots: Seq<(Seq<char>, nat)>,
    events: Seq<SessionEvent>,
)
    ensures
        forall|i: int|
            0 <= i < sent_versions(state, cursor, slots, events).len() ==> cursor < #[trigger] sent_versions(
                state,
                cursor,
                slots,
                events,
            )[i],
        forall|i: int, j: int|
            0 <= i < j < sent_versions(state, cursor, slots, events).len() ==> #[trigger] sent_versions(
                state,
                cursor,
                slots,
                events,
            )[i] < #[trigger] sent_versions(state, cursor, slots, events)[j],
    decreases events.len(),
{
    if events.len() != 0 && slots.len() != 0 {
        let (next_state, next_cursor, action) = step(state, cursor, slots[0], events[0]);
        lemma_step_cursor(state, cursor, slots[0], events[0]);
        let rest = sent_versions(next_state, next_cursor, slots.drop_first(), events.drop_first());
        lemma_sent_versions_increase(
            next_state,
            next_cursor,
            slots.drop_first(),
            events.drop_first(),
        );
        let all = sent_versions(state, cursor, slots, events);
        if action is Send {
            assert(all == seq![next_cursor] + rest);
            assert forall|i: int| 0 <= i < all.len() implies cursor < #[trigger] all[i] by {
                if i > 0 {
                    assert(all[i] == rest[i - 1]);
                }
            }
            assert forall|i: int, j: int| 0 <= i < j < all.len() implies #[trigger] all[i]
                < #[trigger] all[j] by {
                assert(all[j] == rest[j - 1]);
                if i > 0 {
                    assert(all[i] == rest[i - 1]);
                }
            }
        } else {
            assert(all == rest);
        }
    }
}

/// Coalescing, for a waiting session: when one or more values are published
/// after the version it last observed, the next notification makes it send
/// the last of them, under the newest version.
pub proof fn lemma_session_coalescing(s: (Seq<char>, nat), cursor: nat, values: Seq<Seq<char>>)
    requires
        cursor <= s.1,
        values.len() >= 1,
    ensures
        step(SessionState::Waiting, cursor, published_all(s, values), SessionEvent::Notified) == (
            SessionState::Sending,
            s.1 + values.len(),
            ActionView::Send(values.last()),
        ),
{
    lemma_coalescing(s, cursor, values);
}

/// Late join: a session created (cursor 0) after one or more publishes sends
/// the last published value as soon as its handshake succeeds, without
/// waiting for a new publish.
pub proof fn lemma_session_late_join(values: Seq<Seq<char>>)
    requires
        values.len() >= 1,
    ensures
        step(
            SessionState::Handshaking,
            0,
            published_all(initial_slot(), values),
            SessionEvent::HandshakeSucceeded,
        ) == (SessionState::Sending, values.len(), ActionView::Send(values.last())),
{
    lemma_coalescing(initial_slot(), 0, values);
}

} // verus!
