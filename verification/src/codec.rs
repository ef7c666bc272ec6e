//! Wire codec: a self-describing byte encoding of [`Message`].
//!
//! The body of a message is laid out as
//!
//! | variant | bytes                                  |
//! |---------|----------------------------------------|
//! | Hello   | `HELLO_TAG` then the UTF-8 of the name |
//! | Leave   | `LEAVE_TAG` then the UTF-8 of the name |
//! | Act     | `ACT_TAG` then one ordinal byte        |
//!
//! The name runs to the end of the body: its extent comes from the
//! frame around the body, not from an inner length. Encoding is total
//! over the three variants; decoding rejects anything else with a
//! [`DecodeError`], and decoding an encoding returns the original
//! message ([`lemma_round_trip`]).

use vstd::prelude::*;
use vstd::utf8::{valid_utf8, decode_utf8, encode_utf8};
use vstd::utf8::{encode_utf8_valid_utf8, encode_utf8_decode_utf8};
use vstd::string::StrSliceExecFns;
use vstd::slice::slice_subrange;
use crate::message::{Action, Message, MessageView, DecodeError};

verus! {

/// Tag byte that opens a `Hello` body.
pub const HELLO_TAG: u8 = 0;

/// Tag byte that opens a `Leave` body.
pub const LEAVE_TAG: u8 = 1;

/// Tag byte that opens an `Act` body.
pub const ACT_TAG: u8 = 2;

/// The wire ordinal of an action: rock 0, paper 1, scissor 2.
pub open spec fn action_ordinal(a: Action) -> u8 {
    match a {
        Action::Rock => 0,
        Action::Paper => 1,
        Action::Scissor => 2,
    }
}

/// The action a wire ordinal stands for, if any.
pub open spec fn action_of_ordinal(b: u8) -> Option<Action> {
    if b == 0 {
        Some(Action::Rock)
    } else if b == 1 {
        Some(Action::Paper)
    } else if b == 2 {
        Some(Action::Scissor)
    } else {
        None
    }
}

/// The encoded body of a message.
pub open spec fn spec_encode(m: MessageView) -> Seq<u8> {
    match m {
        MessageView::Hello { name } => seq![HELLO_TAG] + encode_utf8(name),
        MessageView::Leave { name } => seq![LEAVE_TAG] + encode_utf8(name),
        MessageView::Act(a) => seq![ACT_TAG, action_ordinal(a)],
    }
}

/// What a body decodes to: the message it spells, or the exact error
/// for each way it can be malformed.
pub open spec fn spec_decode(body: Seq<u8>) -> Result<MessageView, DecodeError> {
    if body.len() == 0 {
        Err(DecodeError::EmptyBody)
    } else if body[0] == HELLO_TAG {
        if valid_utf8(body.skip(1)) {
            Ok(MessageView::Hello { name: decode_utf8(body.skip(1)) })
        } else {
            Err(DecodeError::InvalidName)
        }
    } else if body[0] == LEAVE_TAG {
        if valid_utf8(body.skip(1)) {
            Ok(MessageView::Leave { name: decode_utf8(body.skip(1)) })
        } else {
            Err(DecodeError::InvalidName)
        }
    } else if body[0] == ACT_TAG {
        if body.len() != 2 {
            Err(DecodeError::BadActLength)
        } else {
            match action_of_ordinal(body[1]) {
                Some(a) => Ok(MessageView::Act(a)),
                None => Err(DecodeError::BadActionOrdinal),
            }
        }
    } else {
        Err(DecodeError::UnknownTag)
    }
}

/// The value of a decode result, message replaced by its view.
pub open spec fn decode_result_view(r: Result<Message, DecodeError>) -> Result<
    MessageView,
    DecodeError,
> {
    match r {
        Ok(m) => Ok(m@),
        Err(e) => Err(e),
    }
}

/// Round-trip: decoding the encoding of any constructible message
/// yields that message back.
pub proof fn lemma_round_trip(m: MessageView)
    ensures
        spec_decode(spec_encode(m)) == Ok::<MessageView, DecodeError>(m),
{
    let body = spec_encode(m);
    match m {
        MessageView::Hello { name } => {
            assert(body.skip(1) =~= encode_utf8(name));
            encode_utf8_valid_utf8(name);
            encode_utf8_decode_utf8(name);
        },
        MessageView::Leave { name } => {
            assert(body.skip(1) =~= encode_utf8(name));
            encode_utf8_valid_utf8(name);
            encode_utf8_decode_utf8(name);
        },
        MessageView::Act(a) => {
            assert(body.len() == 2);
        },
    }
}

/// The ordinal byte of an action.
pub fn action_to_byte(a: Action) -> (b: u8)
    ensures
        b == action_ordinal(a),
{
    match a {
        Action::Rock => 0,
        Action::Paper => 1,
        Action::Scissor => 2,
    }
}

/// Serializes a message. Total: every constructible message encodes.
pub fn encode(m: &Message) -> (body: Vec<u8>)
    ensures
        body@ == spec_encode(m@),
{
    match m {
        Message::Hello { name } => {
            let mut body: Vec<u8> = Vec::new();
            body.push(HELLO_TAG);
            let mut name_bytes = name.as_str().as_bytes_vec();
            body.append(&mut name_bytes);
            proof {
                assert(body@ =~= spec_encode(m@));
            }
            body
        },
        Message::Leave { name } => {
            let mut body: Vec<u8> = Vec::new();
            body.push(LEAVE_TAG);
            let mut name_bytes = name.as_str().as_bytes_vec();
            body.append(&mut name_bytes);
            proof {
                assert(body@ =~= spec_encode(m@));
            }
            body
        },
        Message::Act(a) => {
            let mut body: Vec<u8> = Vec::new();
            body.push(ACT_TAG);
            body.push(action_to_byte(*a));
            proof {
                assert(body@ =~= spec_encode(m@));
            }
            body
        },
    }
}

/// Relies on `core::str::from_utf8`: it succeeds exactly on valid
/// UTF-8 input and returns the string those bytes encode; `to_owned`
/// then copies that string.
#[verifier::external_body]
fn bytes_to_string(v: &[u8]) -> (r: Option<String>)
    ensures
        r is Some <==> valid_utf8(v@),
        r matches Some(s) ==> s@ == decode_utf8(v@),
{
    match core::str::from_utf8(v) {
        Ok(s) => Some(s.to_owned()),
        Err(_) => None,
    }
}

/// Deserializes a message body, reporting the exact malformation when
/// the bytes spell no message.
pub fn decode(body: &[u8]) -> (r: Result<Message, DecodeError>)
    ensures
        decode_result_view(r) == spec_decode(body@),
{
    if body.len() == 0 {
        return Err(DecodeError::EmptyBody);
    }
    let tag = body[0];
    if tag == HELLO_TAG {
        let rest = slice_subrange(body, 1, body.len());
        match bytes_to_string(rest) {
            Some(name) => Ok(Message::Hello { name }),
            None => Err(DecodeError::InvalidName),
        }
    } else if tag == LEAVE_TAG {
        let rest = slice_subrange(body, 1, body.len());
        match bytes_to_string(rest) {
            Some(name) => Ok(Message::Leave { name }),
            None => Err(DecodeError::InvalidName),
        }
    } else if tag == ACT_TAG {
        if body.len() != 2 {
            Err(DecodeError::BadActLength)
        } else {
            let ordinal = body[1];
            if ordinal == 0 {
                Ok(Message::Act(Action::Rock))
            } else if ordinal == 1 {
                Ok(Message::Act(Action::Paper))
            } else if ordinal == 2 {
                Ok(Message::Act(Action::Scissor))
            } else {
                Err(DecodeError::BadActionOrdinal)
            }
        }
    } else {
        Err(DecodeError::UnknownTag)
    }
}

} // verus!
