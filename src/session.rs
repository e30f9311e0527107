use vstd::prelude::*;

use crate::bus::{EventBus, Recv};
use crate::wire::{is_message_of, MidiMessage};

verus! {

/// Where a client session stands. A session is open once it holds a
/// subscriber slot; it then streams until one of its two duties ends,
/// closes while the other duty is cancelled, and is closed once its slot is
/// released.
#[derive(Clone, Copy, Debug, PartialEq, Eq, Structural)]
pub enum SessionState {
    Streaming,
    Closing,
    Closed,
}

/// What happened on one of the two duties of a session.
#[derive(Clone, Copy, Debug, PartialEq, Eq, Structural)]
pub enum SessionInput {
    /// Outbound: the outcome of a receive on the session's bus slot.
    Bus(Recv),
    /// Outbound: the last message could not be sent.
    SendFailed,
    /// Inbound: the client sent a text frame.
    ClientText,
    /// Inbound: the client sent a frame of another kind (binary, ping, pong).
    ClientOther,
    /// Inbound: the client closed the connection, or its stream ended.
    ClientClosed,
    /// Inbound: reading from the client failed.
    ClientError,
}

/// What the session asks its runner to do next.
#[derive(Debug)]
pub enum SessionAction {
    /// Send this record to the client.
    Send(MidiMessage),
    /// Go on with the duty that reported (after a lag, an ignored frame, or
    /// when nothing is pending yet).
    Continue,
    /// Stop both duties; no further sends.
    Shutdown,
}

/// The state after `input` in state `s`.
pub open spec fn next_state(s: SessionState, input: SessionInput) -> SessionState {
    match s {
        SessionState::Streaming => match input {
            SessionInput::Bus(Recv::Unsubscribed)
            | SessionInput::SendFailed
            | SessionInput::ClientClosed
            | SessionInput::ClientError => SessionState::Closing,
            _ => SessionState::Streaming,
        },
        _ => s,
    }
}

/// `a` is the action owed for `input` in state `s`: while streaming, each
/// event received is sent, a lag, an empty receive and a client frame are
/// passed over, and a failure or a close on either side shuts the session;
/// once closing, nothing more is sent.
pub open spec fn action_for(s: SessionState, input: SessionInput, a: SessionAction) -> bool {
    if s == SessionState::Streaming {
        match input {
            SessionInput::Bus(Recv::Received(e)) => a matches SessionAction::Send(m) && is_message_of(
                m,
                e,
            ),
            SessionInput::Bus(Recv::Lagged(_))
            | SessionInput::Bus(Recv::Empty)
            | SessionInput::ClientText
            | SessionInput::ClientOther => a is Continue,
            _ => a is Shutdown,
        }
    } else {
        a is Shutdown
    }
}

/// One client connection's share of the bus: its subscriber slot and where
/// it stands.
pub struct Session {
    state: SessionState,
    subscriber: usize,
}

impl Session {
    pub closed spec fn state_spec(&self) -> SessionState {
        self.state
    }

    pub closed spec fn subscriber_spec(&self) -> nat {
        self.subscriber as nat
    }

    /// Opens a session for a newly accepted connection: it takes a fresh
    /// subscriber slot, which sees only what is published from now on.
    pub fn open(bus: &mut EventBus) -> (r: Session)
        requires
            old(bus).wf(),
        ensures
            final(bus).wf(),
            final(bus)@ == old(bus)@.subscribed(),
            r.state_spec() == SessionState::Streaming,
            r.subscriber_spec() == old(bus)@.cursors.len(),
    {
        let subscriber = bus.subscribe();
        Session { state: SessionState::Streaming, subscriber }
    }

    pub fn state(&self) -> (r: SessionState)
        ensures
            r == self.state_spec(),
    {
        self.state
    }

    /// The session's subscriber slot on the bus.
    pub fn subscriber(&self) -> (r: usize)
        ensures
            r == self.subscriber_spec(),
    {
        self.subscriber
    }

    /// Takes what one duty reported and says what to do next.
    pub fn step(&mut self, input: SessionInput) -> (a: SessionAction)
        ensures
            final(self).state_spec() == next_state(old(self).state_spec(), input),
            final(self).subscriber_spec() == old(self).subscriber_spec(),
            action_for(old(self).state_spec(), input, a),
    {
        match self.state {
            SessionState::Streaming => match input {
                SessionInput::Bus(Recv::Received(e)) => SessionAction::Send(e.to_message()),
                SessionInput::Bus(Recv::Lagged(_))
                | SessionInput::Bus(Recv::Empty)
                | SessionInput::ClientText
                | SessionInput::ClientOther => SessionAction::Continue,
                _ => {
                    self.state = SessionState::Closing;
                    SessionAction::Shutdown
                },
            },
            _ => SessionAction::Shutdown,
        }
    }

    /// Ends the session once both duties have stopped: its slot is released
    /// and it is closed.
    pub fn finish(&mut self, bus: &mut EventBus)
        requires
            old(bus).wf(),
        ensures
            final(bus).wf(),
            final(bus)@ == old(bus)@.unsubscribed(old(self).subscriber_spec()),
            final(self).state_spec() == SessionState::Closed,
            final(self).subscriber_spec() == old(self).subscriber_spec(),
    {
        bus.unsubscribe(self.subscriber);
        self.state = SessionState::Closed;
    }
}

} // verus!
