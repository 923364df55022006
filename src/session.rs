//! The socket session state machine: registration, heartbeat and timeout,
//! inbound frames, outbound events.
//!
//! The host owns the socket and the timers. It feeds each event to the session
//! and performs the actions that come back, in order. Times are monotonic
//! milliseconds.

use vstd::prelude::*;
use crate::messages::{ClientEvent, UserMessage};

verus! {

/// How often the host ticks the heartbeat.
pub const HEARTBEAT_INTERVAL_MS: u64 = 6_000;

/// A session silent for longer than this is closed.
pub const CLIENT_TIMEOUT_MS: u64 = 12_000;

#[derive(PartialEq, Eq, Structural, Clone, Copy, Debug)]
pub enum SessionState {
    Opened,
    Active,
    Closing,
    Closed,
}

/// An inbound frame. A text frame arrives already parsed as a chat message,
/// or as `None` when its body is not one.
pub enum Frame {
    Ping(Vec<u8>),
    Pong,
    Text(Option<UserMessage>),
    Close,
    Other,
}

/// What a session asks its host to do.
pub enum SessionAction {
    /// Register this session's user with its shard.
    Register { username: String },
    /// Unregister this session's user from its shard.
    Unregister { username: String },
    /// Hand a chat message to the shard.
    Forward(UserMessage),
    /// Write a protocol ping.
    Ping,
    /// Write a protocol pong carrying this payload.
    Pong(Vec<u8>),
    /// Write this event to the client as a JSON text frame.
    Write(ClientEvent),
    /// Close the socket; the host then calls `stopped`.
    Close,
}

/// One client connection.
pub struct WsConn {
    username: String,
    state: SessionState,
    heartbeat: u64,
}

/// No frame for longer than the client timeout.
pub open spec fn timed_out(heartbeat: u64, now: u64) -> bool {
    now > heartbeat + CLIENT_TIMEOUT_MS
}

/// The state after a heartbeat tick at `now`.
pub open spec fn after_tick(s: SessionState, heartbeat: u64, now: u64) -> SessionState {
    if s == SessionState::Active && timed_out(heartbeat, now) {
        SessionState::Closing
    } else {
        s
    }
}

/// The state after an inbound frame.
pub open spec fn after_frame(s: SessionState, f: Frame) -> SessionState {
    if s == SessionState::Active && f is Close {
        SessionState::Closing
    } else {
        s
    }
}

/// The heartbeat instant after an inbound frame at `now`.
pub open spec fn heartbeat_after_frame(s: SessionState, heartbeat: u64, f: Frame, now: u64) -> u64 {
    if s == SessionState::Active && (f is Ping || f is Pong) {
        now
    } else {
        heartbeat
    }
}

/// What an inbound frame asks of the host.
pub open spec fn frame_actions(s: SessionState, f: Frame) -> Seq<SessionAction> {
    if s != SessionState::Active {
        Seq::empty()
    } else {
        match f {
            Frame::Ping(p) => seq![SessionAction::Pong(p)],
            Frame::Pong => Seq::empty(),
            Frame::Text(Some(m)) => seq![SessionAction::Forward(m)],
            Frame::Text(None) => Seq::empty(),
            Frame::Close => seq![SessionAction::Close],
            Frame::Other => Seq::empty(),
        }
    }
}

impl WsConn {
    pub closed spec fn user(&self) -> Seq<char> {
        self.username@
    }

    pub closed spec fn state_spec(&self) -> SessionState {
        self.state
    }

    /// When a frame last proved the client alive.
    pub closed spec fn heartbeat_spec(&self) -> u64 {
        self.heartbeat
    }

    /// A session for `username`, accepted at `now`.
    pub fn new(username: String, now: u64) -> (r: Self)
        ensures
            r.user() == username@,
            r.state_spec() == SessionState::Opened,
            r.heartbeat_spec() == now,
    {
        WsConn { username, state: SessionState::Opened, heartbeat: now }
    }

    pub fn username(&self) -> (r: &String)
        ensures
            r@ == self.user(),
    {
        &self.username
    }

    pub fn state(&self) -> (r: SessionState)
        ensures
            r == self.state_spec(),
    {
        self.state
    }

    /// The session starts: it registers with its shard and becomes active.
    pub fn started(&mut self) -> (r: Vec<SessionAction>)
        ensures
            final(self).user() == old(self).user(),
            final(self).heartbeat_spec() == old(self).heartbeat_spec(),
            old(self).state_spec() == SessionState::Opened ==> final(self).state_spec() == SessionState::Active
                && r@.len() == 1 && r@[0] is Register && r@[0]->Register_username@ == old(self).user(),
            old(self).state_spec() != SessionState::Opened ==> final(self).state_spec() == old(self).state_spec()
                && r@.len() == 0,
    {
        let mut out: Vec<SessionAction> = Vec::new();
        if self.state == SessionState::Opened {
            self.state = SessionState::Active;
            out.push(SessionAction::Register { username: self.username.clone() });
        }
        out
    }

    /// The heartbeat tick at `now`: an active session silent for longer than
    /// the timeout starts closing; otherwise it pings the client.
    pub fn heartbeat_tick(&mut self, now: u64) -> (r: Vec<SessionAction>)
        ensures
            final(self).user() == old(self).user(),
            final(self).heartbeat_spec() == old(self).heartbeat_spec(),
            final(self).state_spec() == after_tick(old(self).state_spec(), old(self).heartbeat_spec(), now),
            old(self).state_spec() == SessionState::Active && timed_out(old(self).heartbeat_spec(), now) ==> r@
                == seq![SessionAction::Close],
            old(self).state_spec() == SessionState::Active && !timed_out(old(self).heartbeat_spec(), now) ==> r@
                == seq![SessionAction::Ping],
            old(self).state_spec() != SessionState::Active ==> r@.len() == 0,
    {
        let mut out: Vec<SessionAction> = Vec::new();
        if self.state == SessionState::Active {
            if now > self.heartbeat && now - self.heartbeat > CLIENT_TIMEOUT_MS {
                self.state = SessionState::Closing;
                out.push(SessionAction::Close);
            } else {
                out.push(SessionAction::Ping);
            }
        }
        out
    }

    /// An inbound frame at `now`. Only an active session reacts: a ping is
    /// answered with a pong, a ping or a pong renews the heartbeat, a parsed
    /// chat message goes to the shard, a close frame starts closing, anything
    /// else is ignored.
    pub fn handle_frame(&mut self, frame: Frame, now: u64) -> (r: Vec<SessionAction>)
        ensures
            final(self).user() == old(self).user(),
            final(self).state_spec() == after_frame(old(self).state_spec(), frame),
            final(self).heartbeat_spec() == heartbeat_after_frame(old(self).state_spec(), old(self).heartbeat_spec(), frame, now),
            r@ == frame_actions(old(self).state_spec(), frame),
    {
        let mut out: Vec<SessionAction> = Vec::new();
        if self.state != SessionState::Active {
            return out;
        }
        match frame {
            Frame::Ping(p) => {
                self.heartbeat = now;
                out.push(SessionAction::Pong(p));
            },
            Frame::Pong => {
                self.heartbeat = now;
            },
            Frame::Text(Some(m)) => {
                out.push(SessionAction::Forward(m));
            },
            Frame::Text(None) => {},
            Frame::Close => {
                self.state = SessionState::Closing;
                out.push(SessionAction::Close);
            },
            Frame::Other => {},
        }
        proof {
            assert(out@ =~= frame_actions(old(self).state_spec(), frame));
        }
        out
    }

    /// An event from the shard: an active session writes it to the client.
    pub fn handle_event(&self, event: ClientEvent) -> (r: Vec<SessionAction>)
        ensures
            self.state_spec() == SessionState::Active ==> r@ == seq![SessionAction::Write(event)],
            self.state_spec() != SessionState::Active ==> r@.len() == 0,
    {
        let mut out: Vec<SessionAction> = Vec::new();
        if self.state == SessionState::Active {
            out.push(SessionAction::Write(event));
        }
        proof {
            if self.state_spec() == SessionState::Active {
                assert(out@ =~= seq![SessionAction::Write(event)]);
            }
        }
        out
    }

    /// The session has stopped, for whatever reason: it unregisters from its
    /// shard, once, and is closed for good.
    pub fn stopped(&mut self) -> (r: Vec<SessionAction>)
        ensures
            final(self).user() == old(self).user(),
            final(self).state_spec() == SessionState::Closed,
            old(self).state_spec() != SessionState::Closed ==> r@.len() == 1 && r@[0] is Unregister
                && r@[0]->Unregister_username@ == old(self).user(),
            old(self).state_spec() == SessionState::Closed ==> r@.len() == 0,
    {
        let mut out: Vec<SessionAction> = Vec::new();
        if self.state != SessionState::Closed {
            self.state = SessionState::Closed;
            out.push(SessionAction::Unregister { username: self.username.clone() });
        }
        out
    }
}

/// An active session that has been silent for longer than the timeout closes
/// at the next tick, and on stopping it unregisters its user.
pub proof fn lemma_silent_session_closes(heartbeat: u64, now: u64)
    requires
        timed_out(heartbeat, now),
    ensures
        after_tick(SessionState::Active, heartbeat, now) == SessionState::Closing,
        after_tick(SessionState::Active, heartbeat, now) != SessionState::Closed,
{
}

} // verus!
