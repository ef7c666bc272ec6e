//! The session: handshake, turn collection, outcome.
//!
//! A session moves through `Connecting`, `HandshakeSend`,
//! `HandshakeRecv`, `TurnCollection` and `Resolved`, in that order and
//! only forward. The machine here enforces that exactly one `Hello`
//! is sent and one received before any `Act` is sent or expected, and
//! resolves the collected turn by the fixed three-way table. Every
//! fatal error ends the session; nothing is retried.

use vstd::prelude::*;
use crate::message::{Action, Message, MessageView, Fault};
use crate::rendezvous::Rendezvous;

verus! {

/// How the local player fared, tie / local wins / local loses.
#[derive(Debug, Clone, Copy, PartialEq, Eq, Structural)]
pub enum Verdict {
    Tie,
    Win,
    Loss,
}

/// The fixed dominance table: rock beats scissor, paper beats rock,
/// scissor beats paper.
pub open spec fn spec_beats(a: Action, b: Action) -> bool {
    ||| (a == Action::Rock && b == Action::Scissor)
    ||| (a == Action::Paper && b == Action::Rock)
    ||| (a == Action::Scissor && b == Action::Paper)
}

/// The verdict for the local player: a tie on equal moves, a win
/// exactly when the local move beats the remote one, a loss otherwise.
pub open spec fn spec_verdict(mine: Action, theirs: Action) -> Verdict {
    if mine == theirs {
        Verdict::Tie
    } else if spec_beats(mine, theirs) {
        Verdict::Win
    } else {
        Verdict::Loss
    }
}

/// Computes the verdict of a played turn.
pub fn resolve(mine: Action, theirs: Action) -> (v: Verdict)
    ensures
        v == spec_verdict(mine, theirs),
{
    match (mine, theirs) {
        (Action::Rock, Action::Rock)
        | (Action::Paper, Action::Paper)
        | (Action::Scissor, Action::Scissor) => Verdict::Tie,
        (Action::Rock, Action::Scissor)
        | (Action::Paper, Action::Rock)
        | (Action::Scissor, Action::Paper) => Verdict::Win,
        (Action::Rock, Action::Paper)
        | (Action::Paper, Action::Scissor)
        | (Action::Scissor, Action::Rock) => Verdict::Loss,
    }
}

/// How a session ends when no fatal error cut it short: the local
/// player withdrew — a loss is reported and no winner is computed —
/// or both moves were collected and the table decided.
#[derive(Debug, Clone, Copy, PartialEq, Eq, Structural)]
pub enum Conclusion {
    Withdrawn,
    Played(Action, Action, Verdict),
}

/// The phases of a session, entered in declaration order.
#[derive(Debug, Clone, Copy, PartialEq, Eq, Structural)]
pub enum SessionPhase {
    /// Binding and associating the socket with the fixed peer.
    Connecting,
    /// About to send this side's single `Hello`.
    HandshakeSend,
    /// Waiting for the peer's single `Hello`.
    HandshakeRecv,
    /// Both turn-collection tasks are running.
    TurnCollection,
    /// The turn was resolved; terminal.
    Resolved,
}

/// One session with one peer.
pub struct Session {
    pub phase: SessionPhase,
    /// Whether this side's `Hello` went out; set exactly once.
    pub sent_hello: bool,
    /// The name the peer announced, once its `Hello` arrived.
    pub peer_name: Option<String>,
}

impl Session {
    /// The handshake discipline: no phase beyond `HandshakeSend`
    /// without our `Hello` sent, none beyond `HandshakeRecv` without
    /// the peer's received — so no `Act` is ever sent or expected
    /// before both hellos.
    pub open spec fn inv(&self) -> bool {
        &&& (self.phase is HandshakeRecv || self.phase is TurnCollection || self.phase
            is Resolved) ==> self.sent_hello
        &&& (self.phase is TurnCollection || self.phase is Resolved) ==> self.peer_name is Some
        &&& (self.phase is Connecting || self.phase is HandshakeSend) ==> !self.sent_hello
            && self.peer_name is None
    }

    /// Opens a session: connecting, nothing exchanged yet.
    pub fn new() -> (s: Session)
        ensures
            s.inv(),
            s.phase is Connecting,
            !s.sent_hello,
            s.peer_name is None,
    {
        Session { phase: SessionPhase::Connecting, sent_hello: false, peer_name: None }
    }

    /// The socket is bound and associated: ready to greet.
    pub fn connected(&mut self)
        requires
            old(self).inv(),
            old(self).phase is Connecting,
        ensures
            final(self).inv(),
            final(self).phase is HandshakeSend,
            final(self).sent_hello == old(self).sent_hello,
            final(self).peer_name == old(self).peer_name,
    {
        self.phase = SessionPhase::HandshakeSend;
    }

    /// The `Hello` this side sends, carrying the player's name.
    pub fn hello(&self, name: String) -> (m: Message)
        requires
            self.phase is HandshakeSend,
        ensures
            m@ == (MessageView::Hello { name: name@ }),
    {
        Message::Hello { name }
    }

    /// Records that this side's `Hello` was sent in full.
    pub fn hello_sent(&mut self)
        requires
            old(self).inv(),
            old(self).phase is HandshakeSend,
        ensures
            final(self).inv(),
            final(self).phase is HandshakeRecv,
            final(self).sent_hello,
            !old(self).sent_hello,
            final(self).peer_name == old(self).peer_name,
    {
        self.phase = SessionPhase::HandshakeRecv;
        self.sent_hello = true;
    }

    /// Takes the message that arrived during the handshake. A `Hello`
    /// records the peer's name and starts turn collection; any other
    /// variant is a fatal protocol violation and the session does not
    /// advance.
    pub fn peer_hello(&mut self, m: Message) -> (r: Result<(), Fault>)
        requires
            old(self).inv(),
            old(self).phase is HandshakeRecv,
        ensures
            final(self).inv(),
            match m@ {
                MessageView::Hello { name } => r == Ok::<(), Fault>(()) && final(self).phase
                    is TurnCollection && (final(self).peer_name matches Some(p) && p@ == name),
                _ => r == Err::<(), Fault>(Fault::ProtocolViolation) && *final(self) == *old(
                    self,
                ),
            },
    {
        match m {
            Message::Hello { name } => {
                self.peer_name = Some(name);
                self.phase = SessionPhase::TurnCollection;
                Ok(())
            },
            _ => Err(Fault::ProtocolViolation),
        }
    }

    /// Pairs turn collection with a fresh rendezvous.
    pub fn start_turn(&self) -> (r: Rendezvous)
        requires
            self.inv(),
            self.phase is TurnCollection,
        ensures
            r.local is Pending,
            r.remote is Pending,
    {
        Rendezvous::new()
    }

    /// Resolves the collected turn: a withdrawal ends the session
    /// without computing a winner; otherwise the fixed table decides.
    pub fn conclude(&mut self, mine: Option<Action>, theirs: Action) -> (c: Conclusion)
        requires
            old(self).inv(),
            old(self).phase is TurnCollection,
        ensures
            final(self).inv(),
            final(self).phase is Resolved,
            match mine {
                None => c == Conclusion::Withdrawn,
                Some(a) => c == Conclusion::Played(a, theirs, spec_verdict(a, theirs)),
            },
    {
        self.phase = SessionPhase::Resolved;
        match mine {
            None => Conclusion::Withdrawn,
            Some(a) => Conclusion::Played(a, theirs, resolve(a, theirs)),
        }
    }
}

} // verus!
