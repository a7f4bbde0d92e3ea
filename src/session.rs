//! Decisions of a streaming session: what to do with each thing the
//! transport hands over, when to send a keepalive, and when to reconnect.
//!
//! The session is `Connecting` until its first connection stands, then
//! `Streaming`. A protocol-level failure makes it `Reconnecting` until a new
//! connection to the same endpoint stands; any other failure is noise and
//! changes nothing. Only a failed first connection ends the session.

use vstd::prelude::*;

verus! {

/// Without a normalized frame for this long, the session sends a keepalive.
pub const KEEPALIVE_MS: u64 = 5000;

/// The phase of a session.
#[derive(Clone, Copy, Debug, PartialEq, Eq, Structural)]
pub enum Phase {
    Connecting,
    Streaming,
    Reconnecting,
    Failed,
}

/// What the transport handed over.
#[derive(Clone, Copy, Debug, PartialEq, Eq, Structural)]
pub enum Inbound {
    /// An application text frame.
    Text,
    /// A transport ping.
    Ping,
    /// A transport pong.
    Pong,
    /// A frame of any other kind.
    Other,
    /// A failure of the protocol layer: the connection is unusable.
    ProtocolError,
    /// Any other transport failure.
    TransportError,
}

/// What the caller does next.
#[derive(Clone, Copy, Debug, PartialEq, Eq, Structural)]
pub enum Reaction {
    /// Decode and normalize the text frame.
    Decode,
    /// Finish pending writes, then answer with one pong.
    ReplyPong,
    /// Open a new connection to the same endpoint.
    Reconnect,
    /// Nothing; read the next frame.
    Discard,
    /// Stop: the session cannot start.
    Exit,
}

/// The state of one session.
#[derive(Clone, Copy, Debug, PartialEq, Eq, Structural)]
pub struct Session {
    pub phase: Phase,
    /// When a frame was last normalized or the peer last answered a keepalive.
    pub idle_since_ms: u64,
}

pub open spec fn reaction_to(s: Session, ev: Inbound) -> Reaction {
    if s.phase != Phase::Streaming {
        Reaction::Discard
    } else {
        match ev {
            Inbound::Text => Reaction::Decode,
            Inbound::Ping => Reaction::ReplyPong,
            Inbound::ProtocolError => Reaction::Reconnect,
            _ => Reaction::Discard,
        }
    }
}

pub open spec fn after_inbound(s: Session, ev: Inbound, now_ms: u64) -> Session {
    if s.phase != Phase::Streaming {
        s
    } else {
        match ev {
            Inbound::Pong => Session { idle_since_ms: now_ms, ..s },
            Inbound::ProtocolError => Session { phase: Phase::Reconnecting, ..s },
            _ => s,
        }
    }
}

pub open spec fn after_connected(s: Session, now_ms: u64) -> Session {
    if s.phase == Phase::Connecting || s.phase == Phase::Reconnecting {
        Session { phase: Phase::Streaming, idle_since_ms: now_ms }
    } else {
        s
    }
}

pub open spec fn keepalive_is_due(s: Session, now_ms: u64) -> bool {
    s.phase == Phase::Streaming && now_ms >= s.idle_since_ms && now_ms - s.idle_since_ms
        >= KEEPALIVE_MS
}

impl Session {
    /// A session about to make its first connection.
    pub fn new(now_ms: u64) -> (r: Session)
        ensures
            r == (Session { phase: Phase::Connecting, idle_since_ms: now_ms }),
    {
        Session { phase: Phase::Connecting, idle_since_ms: now_ms }
    }

    /// Decides what to do with what the transport handed over.
    pub fn on_inbound(&mut self, ev: Inbound, now_ms: u64) -> (r: Reaction)
        ensures
            r == reaction_to(*old(self), ev),
            *final(self) == after_inbound(*old(self), ev, now_ms),
            ev == Inbound::Ping ==> r != Reaction::Decode,
    {
        if self.phase != Phase::Streaming {
            return Reaction::Discard;
        }
        match ev {
            Inbound::Text => Reaction::Decode,
            Inbound::Ping => Reaction::ReplyPong,
            Inbound::Pong => {
                self.idle_since_ms = now_ms;
                Reaction::Discard
            },
            Inbound::Other => Reaction::Discard,
            Inbound::ProtocolError => {
                self.phase = Phase::Reconnecting;
                Reaction::Reconnect
            },
            Inbound::TransportError => Reaction::Discard,
        }
    }

    /// A connection now stands.
    pub fn on_connected(&mut self, now_ms: u64)
        ensures
            *final(self) == after_connected(*old(self), now_ms),
    {
        if self.phase == Phase::Connecting || self.phase == Phase::Reconnecting {
            self.phase = Phase::Streaming;
            self.idle_since_ms = now_ms;
        }
    }

    /// A connection attempt failed: a first connection ends the session, a
    /// reconnection is tried again.
    pub fn on_connect_failed(&mut self) -> (r: Reaction)
        ensures
            old(self).phase == Phase::Connecting ==> r == Reaction::Exit && final(self).phase
                == Phase::Failed,
            old(self).phase == Phase::Reconnecting ==> r == Reaction::Reconnect && *final(self)
                == *old(self),
            old(self).phase != Phase::Connecting && old(self).phase != Phase::Reconnecting ==> r
                == Reaction::Discard && *final(self) == *old(self),
            final(self).idle_since_ms == old(self).idle_since_ms,
    {
        match self.phase {
            Phase::Connecting => {
                self.phase = Phase::Failed;
                Reaction::Exit
            },
            Phase::Reconnecting => Reaction::Reconnect,
            _ => Reaction::Discard,
        }
    }

    /// A decoded frame was normalized: the idle window starts again.
    pub fn on_normalized(&mut self, now_ms: u64)
        ensures
            *final(self) == (Session { idle_since_ms: now_ms, ..*old(self) }),
    {
        self.idle_since_ms = now_ms;
    }

    /// Whether the idle window has run out, so a keepalive ping is due.
    pub fn keepalive_due(&self, now_ms: u64) -> (r: bool)
        ensures
            r == keepalive_is_due(*self, now_ms),
    {
        self.phase == Phase::Streaming && now_ms >= self.idle_since_ms && now_ms
            - self.idle_since_ms >= KEEPALIVE_MS
    }

    /// A keepalive ping was handed to the transport, or failed to be: a sent
    /// one starts the idle window again, a failed one is due again at the
    /// next check.
    pub fn on_keepalive(&mut self, sent: bool, now_ms: u64)
        ensures
            sent ==> *final(self) == (Session { idle_since_ms: now_ms, ..*old(self) }),
            !sent ==> *final(self) == *old(self),
    {
        if sent {
            self.idle_since_ms = now_ms;
        }
    }
}

/// A ping is answered with one pong and is never an application frame; the
/// session's phase does not change.
pub proof fn law_ping_is_answered(s: Session, now_ms: u64)
    requires
        s.phase == Phase::Streaming,
    ensures
        reaction_to(s, Inbound::Ping) == Reaction::ReplyPong,
        after_inbound(s, Inbound::Ping, now_ms) == s,
{
}

/// A protocol failure while streaming leads to a reconnection, and once the
/// new connection stands the next text frame is decoded again.
pub proof fn law_reconnect_resumes(s: Session, failed_ms: u64, connected_ms: u64, read_ms: u64)
    requires
        s.phase == Phase::Streaming,
    ensures
        reaction_to(s, Inbound::ProtocolError) == Reaction::Reconnect,
        reaction_to(
            after_connected(after_inbound(s, Inbound::ProtocolError, failed_ms), connected_ms),
            Inbound::Text,
        ) == Reaction::Decode,
{
}

} // verus!
