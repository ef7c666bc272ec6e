use rps_core::framing::frame_message;
use rps_core::message::{Action, DecodeError, Fault, Message};
use rps_core::transport::{MessageReceiver, MessageSender};

fn receive_in_chunks(frame: &[u8], chunk_size: usize) -> Result<Message, Fault> {
    let mut receiver = MessageReceiver::new();
    let mut at = 0;
    loop {
        let take = chunk_size.min(receiver.needed()).min(frame.len() - at);
        match receiver.feed(&frame[at..at + take])? {
            Some(msg) => return Ok(msg),
            None => at += take,
        }
    }
}

#[test]
fn sender_accepts_whole_buffer_transfer() {
    let mut sender = MessageSender::new(vec![1, 2, 3]);
    assert!(!sender.is_done());
    assert_eq!(sender.pending(), &[1, 2, 3]);
    assert_eq!(sender.advance(3), Ok(()));
    assert!(sender.is_done());
    assert_eq!(sender.pending(), &[] as &[u8]);
}

#[test]
fn sender_accepts_one_byte_per_transfer() {
    let mut sender = MessageSender::new(vec![10, 20, 30, 40]);
    for remaining in (1..=4).rev() {
        assert_eq!(sender.pending().len(), remaining);
        assert_eq!(sender.advance(1), Ok(()));
    }
    assert!(sender.is_done());
}

#[test]
fn sender_zero_byte_transfer_is_connection_aborted() {
    let mut sender = MessageSender::new(vec![1, 2]);
    assert_eq!(sender.advance(0), Err(Fault::ConnectionAborted));
    // The sender is untouched: the failure is surfaced, not retried.
    assert_eq!(sender.pending(), &[1, 2]);
}

#[test]
fn receiver_zero_byte_transfer_is_unexpected_eof() {
    // During length-prefix reading, a 0-byte receive aborts at once.
    let mut receiver = MessageReceiver::new();
    assert_eq!(receiver.feed(&[]), Err(Fault::UnexpectedEof));
    // Also mid-body.
    let mut receiver = MessageReceiver::new();
    assert_eq!(receiver.feed(&[5, 0, 0, 0]), Ok(None));
    assert_eq!(receiver.feed(&[]), Err(Fault::UnexpectedEof));
}

#[test]
fn receiver_accepts_whole_frame_in_two_transfers() {
    let m = Message::Hello { name: String::from("peer") };
    let frame = frame_message(&m).unwrap();
    let mut receiver = MessageReceiver::new();
    assert_eq!(receiver.needed(), 4);
    assert_eq!(receiver.feed(&frame[..4]), Ok(None));
    assert_eq!(receiver.needed(), frame.len() - 4);
    assert_eq!(receiver.feed(&frame[4..]), Ok(Some(m)));
}

#[test]
fn receiver_one_byte_per_transfer_gives_the_same_message() {
    let m = Message::Hello { name: String::from("fragmented") };
    let frame = frame_message(&m).unwrap();
    let whole = receive_in_chunks(&frame, frame.len());
    let tiny = receive_in_chunks(&frame, 1);
    assert_eq!(whole, Ok(m));
    assert_eq!(tiny, whole);
}

#[test]
fn sent_and_received_message_agree_byte_per_byte() {
    for m in [
        Message::Act(Action::Paper),
        Message::Leave { name: String::from("out") },
        Message::Hello { name: String::new() },
    ] {
        let frame = frame_message(&m).unwrap();
        let mut sender = MessageSender::new(frame.clone());
        while !sender.is_done() {
            // Simulate a primitive that accepts a single byte per call.
            sender.advance(1).unwrap();
        }
        assert_eq!(receive_in_chunks(&frame, 1), Ok(m));
    }
}

#[test]
fn zero_length_frame_fails_to_decode() {
    let mut receiver = MessageReceiver::new();
    assert_eq!(
        receiver.feed(&[0, 0, 0, 0]),
        Err(Fault::Decode(DecodeError::EmptyBody))
    );
}

#[test]
fn malformed_body_is_a_decode_fault() {
    let mut receiver = MessageReceiver::new();
    assert_eq!(receiver.feed(&[1, 0, 0, 0]), Ok(None));
    assert_eq!(
        receiver.feed(&[42]),
        Err(Fault::Decode(DecodeError::UnknownTag))
    );
}
