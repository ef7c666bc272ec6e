//! Length-prefix framing.
//!
//! A framed payload is a 4-byte little-endian length `L` followed by
//! exactly `L` bytes of encoded message body. `L` is computed before
//! any byte is handed to the transport and never reinterpreted.

use vstd::prelude::*;
use vstd::bytes::{spec_u32_to_le_bytes, spec_u32_from_le_bytes, lemma_auto_spec_u32_to_from_le_bytes};
use vstd::bytes::u32_to_le_bytes;
use crate::message::{Message, MessageView, DecodeError};
use crate::codec::{spec_encode, spec_decode, encode};

verus! {

/// The frame around a body: its length as 4 little-endian bytes, then
/// the body itself. Meaningful when the body fits a `u32` length.
pub open spec fn spec_frame(body: Seq<u8>) -> Seq<u8> {
    spec_u32_to_le_bytes(body.len() as u32) + body
}

/// Framing correctness: a body of `N` bytes frames to exactly `4 + N`
/// bytes whose first four are `N` in little-endian order and whose
/// remainder is the body unchanged.
pub proof fn lemma_frame_shape(body: Seq<u8>)
    requires
        body.len() <= u32::MAX,
    ensures
        spec_frame(body).len() == 4 + body.len(),
        spec_frame(body).take(4) == spec_u32_to_le_bytes(body.len() as u32),
        spec_u32_from_le_bytes(spec_frame(body).take(4)) == body.len(),
        spec_frame(body).skip(4) == body,
{
    lemma_auto_spec_u32_to_from_le_bytes();
    assert(spec_frame(body).take(4) =~= spec_u32_to_le_bytes(body.len() as u32));
    assert(spec_frame(body).skip(4) =~= body);
}

/// What a whole byte stream, consumed from its start, amounts to so
/// far: not yet one full frame, or one full frame whose body decodes
/// to the given result.
pub enum StreamStatus {
    Incomplete,
    Complete(Result<MessageView, DecodeError>),
}

/// The status of a consumed stream `s`: incomplete until the 4-byte
/// prefix and the body it announces are all present, then the decode
/// of that body.
pub open spec fn stream_status(s: Seq<u8>) -> StreamStatus {
    if s.len() < 4 {
        StreamStatus::Incomplete
    } else if s.len() < 4 + spec_u32_from_le_bytes(s.take(4)) {
        StreamStatus::Incomplete
    } else {
        StreamStatus::Complete(spec_decode(s.skip(4)))
    }
}

/// A full frame of an encoded message always reaches `Complete` with
/// that very message, whatever chunking delivered the bytes.
pub proof fn lemma_frame_status(m: MessageView)
    requires
        spec_encode(m).len() <= u32::MAX,
    ensures
        stream_status(spec_frame(spec_encode(m))) == StreamStatus::Complete(
            Ok::<MessageView, DecodeError>(m),
        ),
{
    let body = spec_encode(m);
    lemma_frame_shape(body);
    crate::codec::lemma_round_trip(m);
}

/// No early message: every strict prefix of a frame is still
/// incomplete. A receiver never interprets fewer than the announced
/// `L` body bytes as one message.
pub proof fn lemma_frame_prefix_incomplete(m: MessageView, n: int)
    requires
        spec_encode(m).len() <= u32::MAX,
        0 <= n < spec_frame(spec_encode(m)).len(),
    ensures
        stream_status(spec_frame(spec_encode(m)).take(n)) is Incomplete,
{
    let body = spec_encode(m);
    let frame = spec_frame(body);
    lemma_frame_shape(body);
    let s = frame.take(n);
    if n >= 4 {
        assert(s.take(4) =~= frame.take(4));
        assert(s.len() < 4 + spec_u32_from_le_bytes(s.take(4)));
    }
}

/// Encodes a message and wraps it in its frame. `None` exactly when
/// the encoded body outgrows a `u32` length, the one size the format
/// cannot carry.
pub fn frame_message(m: &Message) -> (r: Option<Vec<u8>>)
    ensures
        r is Some <==> spec_encode(m@).len() <= u32::MAX,
        r matches Some(v) ==> v@ == spec_frame(spec_encode(m@)),
{
    let body = encode(m);
    if body.len() as u64 > u32::MAX as u64 {
        return None;
    }
    let len: u32 = body.len() as u32;
    let mut framed = u32_to_le_bytes(len);
    let mut body = body;
    framed.append(&mut body);
    proof {
        assert(framed@ =~= spec_frame(spec_encode(m@)));
    }
    Some(framed)
}

} // verus!
