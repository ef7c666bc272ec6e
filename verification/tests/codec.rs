use rps_core::codec::{decode, encode};
use rps_core::framing::frame_message;
use rps_core::message::{Action, DecodeError, Message};

#[test]
fn round_trip_hello() {
    let m = Message::Hello { name: String::from("Alice") };
    assert_eq!(decode(&encode(&m)), Ok(m));
}

#[test]
fn round_trip_hello_unicode_name() {
    let m = Message::Hello { name: String::from("Zoë — 屋") };
    assert_eq!(decode(&encode(&m)), Ok(m));
}

#[test]
fn round_trip_hello_empty_name() {
    let m = Message::Hello { name: String::new() };
    assert_eq!(decode(&encode(&m)), Ok(m));
}

#[test]
fn round_trip_leave() {
    let m = Message::Leave { name: String::from("Bob") };
    assert_eq!(decode(&encode(&m)), Ok(m));
}

#[test]
fn round_trip_act_all_actions() {
    for a in [Action::Rock, Action::Paper, Action::Scissor] {
        let m = Message::Act(a);
        assert_eq!(decode(&encode(&m)), Ok(m));
    }
}

#[test]
fn encoding_is_tag_then_payload() {
    assert_eq!(encode(&Message::Act(Action::Rock)), vec![2, 0]);
    assert_eq!(encode(&Message::Act(Action::Paper)), vec![2, 1]);
    assert_eq!(encode(&Message::Act(Action::Scissor)), vec![2, 2]);
    assert_eq!(encode(&Message::Hello { name: String::from("A") }), vec![0, b'A']);
    assert_eq!(encode(&Message::Leave { name: String::from("A") }), vec![1, b'A']);
}

#[test]
fn decode_empty_body_is_an_error() {
    assert_eq!(decode(&[]), Err(DecodeError::EmptyBody));
}

#[test]
fn decode_unknown_tag_is_an_error() {
    assert_eq!(decode(&[9, 1, 2]), Err(DecodeError::UnknownTag));
}

#[test]
fn decode_bad_utf8_name_is_an_error() {
    assert_eq!(decode(&[0, 0xff, 0xfe]), Err(DecodeError::InvalidName));
    assert_eq!(decode(&[1, 0xff]), Err(DecodeError::InvalidName));
}

#[test]
fn decode_act_with_wrong_length_is_an_error() {
    assert_eq!(decode(&[2]), Err(DecodeError::BadActLength));
    assert_eq!(decode(&[2, 0, 0]), Err(DecodeError::BadActLength));
}

#[test]
fn decode_act_ordinal_out_of_range_is_an_error() {
    assert_eq!(decode(&[2, 3]), Err(DecodeError::BadActionOrdinal));
    assert_eq!(decode(&[2, 255]), Err(DecodeError::BadActionOrdinal));
}

#[test]
fn frame_is_length_prefix_then_body() {
    // A two-byte body frames to 4 + 2 bytes, the first four being 2
    // in little-endian order.
    let framed = frame_message(&Message::Act(Action::Rock)).unwrap();
    assert_eq!(framed, vec![2, 0, 0, 0, 2, 0]);

    let framed = frame_message(&Message::Hello { name: String::from("A") }).unwrap();
    assert_eq!(framed, vec![2, 0, 0, 0, 0, b'A']);
}

#[test]
fn frame_length_counts_utf8_bytes() {
    // "é" is two UTF-8 bytes, so the body is three bytes long.
    let framed = frame_message(&Message::Hello { name: String::from("é") }).unwrap();
    assert_eq!(framed, vec![3, 0, 0, 0, 0, 0xc3, 0xa9]);
}
