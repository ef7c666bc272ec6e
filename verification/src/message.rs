//! Protocol messages and the error taxonomy of the session.

use vstd::prelude::*;

verus! {

/// The move a player can make. On the wire it travels as a single
/// ordinal byte: 0 for rock, 1 for paper, 2 for scissor.
#[derive(Debug, Clone, Copy, PartialEq, Eq, Structural)]
pub enum Action {
    Rock,
    Paper,
    Scissor,
}

/// A message exchanged between the two players.
///
/// Exactly one `Hello` is sent and received per session before any
/// `Act` is sent or expected; `Leave` is defined for forward
/// compatibility and never emitted by the session logic here.
#[derive(Debug, Clone, PartialEq)]
pub enum Message {
    Hello { name: String },
    Leave { name: String },
    Act(Action),
}

/// The mathematical value of a [`Message`]: the same variants over a
/// sequence of characters instead of an owned string.
pub enum MessageView {
    Hello { name: Seq<char> },
    Leave { name: Seq<char> },
    Act(Action),
}

impl View for Message {
    type V = MessageView;

    open spec fn view(&self) -> MessageView {
        match self {
            Message::Hello { name } => MessageView::Hello { name: name@ },
            Message::Leave { name } => MessageView::Leave { name: name@ },
            Message::Act(action) => MessageView::Act(*action),
        }
    }
}

/// Why a message body failed to decode.
#[derive(Debug, Clone, Copy, PartialEq, Eq, Structural)]
pub enum DecodeError {
    /// The body held no bytes at all, so there is no variant tag.
    EmptyBody,
    /// The leading tag byte names no known variant.
    UnknownTag,
    /// A `Hello` or `Leave` name was not valid UTF-8.
    InvalidName,
    /// An `Act` body did not consist of the tag and one ordinal byte.
    BadActLength,
    /// An `Act` ordinal was outside 0, 1, 2.
    BadActionOrdinal,
}

/// A fatal session failure. The core never recovers from any of
/// these; each aborts the session of the caller.
#[derive(Debug, Clone, Copy, PartialEq, Eq, Structural)]
pub enum Fault {
    /// An underlying transport operation failed outright.
    Io,
    /// A send observed zero accepted bytes: the peer closed.
    ConnectionAborted,
    /// A receive observed zero delivered bytes mid-message.
    UnexpectedEof,
    /// A completed body failed to decode.
    Decode(DecodeError),
    /// A well-formed message arrived in a phase that rejects its variant.
    ProtocolViolation,
}

} // verus!
