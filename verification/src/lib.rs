//! Core of a two-peer rock-paper-scissors turn played over an
//! unreliable datagram link.
//!
//! The crate provides, in verified code:
//! - the wire codec for the protocol messages and its round-trip proof;
//! - length-prefix framing and the partial-transfer state machines that
//!   make a lossy transfer primitive deliver whole messages;
//! - the per-line decision logic of the local player's turn and the
//!   protocol check of the remote player's turn;
//! - the rendezvous that joins both turns, with its non-interference
//!   and fail-fast proofs;
//! - the session phases and the outcome table.
//!
//! All I/O (sockets, interactive input, timers) lives outside this
//! crate; callers drive the state machines here with the bytes and
//! events they obtained.

pub mod message;
pub mod codec;
pub mod framing;
pub mod transport;
pub mod turn;
pub mod rendezvous;
pub mod session;
