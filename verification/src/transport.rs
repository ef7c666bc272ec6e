//! Reliable framed transport over a lossy transfer primitive.
//!
//! The underlying socket may accept or deliver fewer bytes than asked
//! per call, or signal closure with a zero-length transfer. The two
//! state machines here turn that primitive into all-or-nothing message
//! transfer: the caller performs one raw transfer per step and hands
//! the observed byte count (or bytes) back.
//!
//! - [`MessageSender`] walks a framed payload forward until every byte
//!   was accepted; a zero-byte acceptance is peer closure
//!   ([`Fault::ConnectionAborted`]), never a retry.
//! - [`MessageReceiver`] fills the 4-byte length prefix, then exactly
//!   the announced body, then decodes; a zero-byte delivery
//!   mid-message is [`Fault::UnexpectedEof`]. Its outcome depends only
//!   on the concatenation of the delivered chunks, never on how the
//!   transfers were fragmented.

use vstd::prelude::*;
use vstd::bytes::{spec_u32_from_le_bytes, u32_from_le_bytes};
use vstd::slice::slice_subrange;
use crate::message::{Message, Fault};
use crate::codec::decode;
use crate::framing::{stream_status, StreamStatus};

verus! {

/// Appends every byte of `src` to `dst`.
fn push_all(dst: &mut Vec<u8>, src: &[u8])
    ensures
        final(dst)@ == old(dst)@ + src@,
{
    let ghost dst0 = dst@;
    let mut i: usize = 0;
    while i < src.len()
        invariant
            i <= src@.len(),
            dst@ == dst0 + src@.take(i as int),
        decreases src@.len() - i,
    {
        dst.push(src[i]);
        i = i + 1;
        proof {
            assert(dst@ =~= dst0 + src@.take(i as int));
        }
    }
    proof {
        assert(dst0 + src@.take(src@.len() as int) =~= dst0 + src@);
    }
}

/// Send side: one framed payload, walked forward by the byte counts
/// the transfer primitive reports, until all of it was accepted.
pub struct MessageSender {
    /// The framed payload to put on the wire, fixed at construction.
    pub frame: Vec<u8>,
    /// How many leading bytes the primitive has accepted so far.
    pub sent: usize,
}

impl MessageSender {
    /// The sender never claims more was accepted than the frame holds.
    pub open spec fn wf(&self) -> bool {
        self.sent <= self.frame@.len()
    }

    /// The bytes accepted by the wire so far, in order.
    pub open spec fn wire(&self) -> Seq<u8> {
        self.frame@.take(self.sent as int)
    }

    /// Whether every byte of the frame was accepted.
    pub open spec fn spec_done(&self) -> bool {
        self.sent == self.frame@.len()
    }

    /// Starts a send of one framed payload.
    pub fn new(frame: Vec<u8>) -> (s: MessageSender)
        ensures
            s.wf(),
            s.frame@ == frame@,
            s.sent == 0,
            s.wire() == Seq::<u8>::empty(),
    {
        let s = MessageSender { frame, sent: 0 };
        proof {
            assert(s.wire() =~= Seq::<u8>::empty());
        }
        s
    }

    /// Whether the whole frame is on the wire.
    pub fn is_done(&self) -> (b: bool)
        ensures
            b == self.spec_done(),
    {
        self.sent == self.frame.len()
    }

    /// The suffix not yet accepted: what to hand to the next raw send.
    pub fn pending(&self) -> (r: &[u8])
        requires
            self.wf(),
        ensures
            r@ == self.frame@.subrange(self.sent as int, self.frame@.len() as int),
    {
        slice_subrange(self.frame.as_slice(), self.sent, self.frame.len())
    }

    /// Records that one raw send of [`Self::pending`] accepted `count`
    /// bytes. Zero accepted bytes while bytes remain outstanding is
    /// peer closure and fails with [`Fault::ConnectionAborted`]; any
    /// positive count moves exactly those bytes onto the wire.
    pub fn advance(&mut self, count: usize) -> (r: Result<(), Fault>)
        requires
            old(self).wf(),
            count <= old(self).frame@.len() - old(self).sent,
        ensures
            final(self).wf(),
            final(self).frame@ == old(self).frame@,
            count == 0 ==> r == Err::<(), Fault>(Fault::ConnectionAborted) && *final(self)
                == *old(self),
            count > 0 ==> r == Ok::<(), Fault>(()) && final(self).sent == old(self).sent + count,
            count > 0 ==> final(self).wire() == old(self).wire() + old(self).frame@.subrange(
                old(self).sent as int,
                old(self).sent + count,
            ),
    {
        if count == 0 {
            return Err(Fault::ConnectionAborted);
        }
        let total = self.frame.len();
        assert(self.sent + count <= total);
        self.sent = self.sent + count;
        proof {
            assert(self.wire() =~= old(self).wire() + old(self).frame@.subrange(
                old(self).sent as int,
                old(self).sent + count,
            ));
        }
        Ok(())
    }
}

/// All-or-nothing on the send side: when the sender reports done, the
/// wire carries the frame exactly, byte for byte.
pub proof fn lemma_sender_complete(s: MessageSender)
    requires
        s.wf(),
        s.spec_done(),
    ensures
        s.wire() == s.frame@,
{
    assert(s.wire() =~= s.frame@);
}

/// Receive side: accumulates delivered chunks into the 4-byte length
/// prefix, then the announced body, and decodes the completed body.
pub struct MessageReceiver {
    /// The prefix bytes delivered so far, at most 4.
    pub header: Vec<u8>,
    /// The body bytes delivered so far.
    pub body: Vec<u8>,
    /// Whether a decode result was already produced; terminal.
    pub done: bool,
}

impl MessageReceiver {
    /// The body length the completed prefix announces.
    pub open spec fn body_target(&self) -> int {
        spec_u32_from_le_bytes(self.header@) as int
    }

    /// Every byte delivered so far, in order.
    pub open spec fn consumed(&self) -> Seq<u8> {
        self.header@ + self.body@
    }

    /// Phase discipline: body bytes only after the whole prefix, never
    /// beyond the announced length, and `done` exactly at the end.
    pub open spec fn wf(&self) -> bool {
        &&& self.header@.len() <= 4
        &&& self.header@.len() < 4 ==> self.body@.len() == 0 && !self.done
        &&& self.header@.len() == 4 && !self.done ==> self.body@.len() < self.body_target()
        &&& self.done ==> self.header@.len() == 4 && self.body@.len() == self.body_target()
    }

    /// How many bytes the current phase still needs.
    pub open spec fn spec_needed(&self) -> int {
        if self.header@.len() < 4 {
            4 - self.header@.len()
        } else {
            self.body_target() - self.body@.len()
        }
    }

    /// Starts receiving one message.
    pub fn new() -> (r: MessageReceiver)
        ensures
            r.wf(),
            !r.done,
            r.consumed() == Seq::<u8>::empty(),
    {
        let r = MessageReceiver { header: Vec::new(), body: Vec::new(), done: false };
        proof {
            assert(r.consumed() =~= Seq::<u8>::empty());
        }
        r
    }

    /// An upper bound for the next raw receive: the bytes still
    /// missing from the current phase. Always positive while the
    /// receiver runs.
    pub fn needed(&self) -> (n: usize)
        requires
            self.wf(),
            !self.done,
        ensures
            n == self.spec_needed(),
            n > 0,
    {
        if self.header.len() < 4 {
            4 - self.header.len()
        } else {
            let target = u32_from_le_bytes(self.header.as_slice());
            target as usize - self.body.len()
        }
    }

    /// Records one raw delivery of `chunk`, at most [`Self::needed`]
    /// bytes. An empty delivery while bytes are outstanding is peer
    /// closure and fails with [`Fault::UnexpectedEof`], leaving the
    /// receiver unchanged. Otherwise the outcome is a function of all
    /// bytes consumed so far alone: `Ok(None)` while the frame is
    /// incomplete, and the decode of the announced body the moment it
    /// completes.
    pub fn feed(&mut self, chunk: &[u8]) -> (r: Result<Option<Message>, Fault>)
        requires
            old(self).wf(),
            !old(self).done,
            chunk@.len() <= old(self).spec_needed(),
        ensures
            final(self).wf(),
            chunk@.len() == 0 ==> r == Err::<Option<Message>, Fault>(Fault::UnexpectedEof)
                && *final(self) == *old(self),
            chunk@.len() > 0 ==> final(self).consumed() == old(self).consumed() + chunk@,
            chunk@.len() > 0 ==> match stream_status(final(self).consumed()) {
                StreamStatus::Incomplete => r == Ok::<Option<Message>, Fault>(None::<Message>)
                    && !final(self).done,
                StreamStatus::Complete(d) => final(self).done && match d {
                    Ok(mv) => r matches Ok(Some(m)) && m@ == mv,
                    Err(e) => r == Err::<Option<Message>, Fault>(Fault::Decode(e)),
                },
            },
    {
        if chunk.is_empty() {
            return Err(Fault::UnexpectedEof);
        }
        if self.header.len() < 4 {
            push_all(&mut self.header, chunk);
            proof {
                assert(self.consumed() =~= old(self).consumed() + chunk@);
            }
            if self.header.len() < 4 {
                return Ok(None);
            }
            proof {
                assert(self.consumed().take(4) =~= self.header@);
            }
            let target = u32_from_le_bytes(self.header.as_slice());
            if target == 0 {
                self.done = true;
                proof {
                    assert(self.consumed().skip(4) =~= self.body@);
                }
                let d = decode(self.body.as_slice());
                return match d {
                    Ok(m) => Ok(Some(m)),
                    Err(e) => Err(Fault::Decode(e)),
                };
            }
            return Ok(None);
        }
        push_all(&mut self.body, chunk);
        proof {
            assert(self.consumed() =~= old(self).consumed() + chunk@);
            assert(self.consumed().take(4) =~= self.header@);
        }
        let target = u32_from_le_bytes(self.header.as_slice());
        if self.body.len() == target as usize {
            self.done = true;
            proof {
                assert(self.consumed().skip(4) =~= self.body@);
            }
            let d = decode(self.body.as_slice());
            return match d {
                Ok(m) => Ok(Some(m)),
                Err(e) => Err(Fault::Decode(e)),
            };
        }
        Ok(None)
    }
}

/// Partial-transfer robustness: the receiver's whole state is decided
/// by the concatenated stream alone. Two receivers that consumed the
/// same bytes — however differently those bytes were chunked across
/// deliveries — hold the same prefix, the same body, and have reached
/// a verdict exactly together.
pub proof fn lemma_receiver_deterministic(a: MessageReceiver, b: MessageReceiver)
    requires
        a.wf(),
        b.wf(),
        a.consumed() == b.consumed(),
    ensures
        a.header@ == b.header@,
        a.body@ == b.body@,
        a.done == b.done,
{
    let s = a.consumed();
    if a.header@.len() < 4 {
        assert(a.header@ =~= s);
        assert(b.header@.len() < 4) by {
            if b.header@.len() == 4 {
                assert(s.len() >= 4);
            }
        }
        assert(b.header@ =~= s);
        assert(a.body@ =~= b.body@);
    } else {
        assert(s.len() >= 4);
        assert(b.header@.len() == 4) by {
            if b.header@.len() < 4 {
                assert(b.body@.len() == 0);
                assert(s.len() < 4);
            }
        }
        assert(a.header@ =~= s.take(4));
        assert(b.header@ =~= s.take(4));
        assert(a.body@ =~= s.skip(4));
        assert(b.body@ =~= s.skip(4));
        assert(a.body_target() == b.body_target());
        if a.done != b.done {
            assert(a.body@.len() == b.body@.len());
            assert(false);
        }
    }
}

} // verus!
