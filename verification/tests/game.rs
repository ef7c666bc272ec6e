use rps_core::message::{Action, Fault, Message};
use rps_core::message::Action::{Paper, Rock, Scissor};
use rps_core::rendezvous::Rendezvous;
use rps_core::session::{resolve, Conclusion, Session, SessionPhase, Verdict};
use rps_core::turn::{expect_act, expect_hello, local_step, parse_line, LineCommand, LocalStep};

#[test]
fn lines_map_to_commands() {
    assert_eq!(parse_line("r"), LineCommand::Move(Action::Rock));
    assert_eq!(parse_line("p"), LineCommand::Move(Action::Paper));
    assert_eq!(parse_line("s"), LineCommand::Move(Action::Scissor));
    assert_eq!(parse_line("q"), LineCommand::Quit);
    assert_eq!(parse_line("x"), LineCommand::Unrecognized);
    assert_eq!(parse_line(""), LineCommand::Unrecognized);
    assert_eq!(parse_line("rock"), LineCommand::Unrecognized);
}

#[test]
fn local_move_is_sent() {
    assert_eq!(local_step(Some("r")), LocalStep::Send(Action::Rock));
}

#[test]
fn quit_before_a_valid_move_withdraws() {
    assert_eq!(local_step(Some("q")), LocalStep::Withdraw);
}

#[test]
fn end_of_input_withdraws() {
    assert_eq!(local_step(None), LocalStep::Withdraw);
}

#[test]
fn unrecognized_line_reprompts_then_accepts() {
    assert_eq!(local_step(Some("x")), LocalStep::Retry);
    assert_eq!(local_step(Some("p")), LocalStep::Send(Action::Paper));
}

#[test]
fn remote_act_is_accepted() {
    assert_eq!(expect_act(Message::Act(Action::Scissor)), Ok(Action::Scissor));
}

#[test]
fn remote_hello_during_turn_collection_is_a_protocol_violation() {
    let m = Message::Hello { name: String::from("B") };
    assert_eq!(expect_act(m), Err(Fault::ProtocolViolation));
}

#[test]
fn handshake_yields_the_peer_name() {
    let m = Message::Hello { name: String::from("B") };
    assert_eq!(expect_hello(m), Ok(String::from("B")));
}

#[test]
fn act_during_handshake_is_a_protocol_violation() {
    assert_eq!(expect_hello(Message::Act(Action::Rock)), Err(Fault::ProtocolViolation));
}

#[test]
fn verdict_table() {
    assert_eq!(resolve(Rock, Rock), Verdict::Tie);
    assert_eq!(resolve(Paper, Paper), Verdict::Tie);
    assert_eq!(resolve(Scissor, Scissor), Verdict::Tie);
    assert_eq!(resolve(Rock, Scissor), Verdict::Win);
    assert_eq!(resolve(Paper, Rock), Verdict::Win);
    assert_eq!(resolve(Scissor, Paper), Verdict::Win);
    assert_eq!(resolve(Rock, Paper), Verdict::Loss);
    assert_eq!(resolve(Paper, Scissor), Verdict::Loss);
    assert_eq!(resolve(Scissor, Rock), Verdict::Loss);
}

#[test]
fn remote_result_is_kept_while_local_stalls() {
    // The remote task completes at once; the local one only later.
    let mut rz = Rendezvous::new();
    rz.remote_finished(Ok(Action::Scissor));
    assert_eq!(rz.outcome(), None);
    rz.local_finished(Ok(Some(Action::Rock)));
    assert_eq!(rz.outcome(), Some(Ok((Some(Action::Rock), Action::Scissor))));
}

#[test]
fn local_first_and_remote_first_agree() {
    let mut a = Rendezvous::new();
    a.local_finished(Ok(Some(Action::Paper)));
    a.remote_finished(Ok(Action::Rock));
    let mut b = Rendezvous::new();
    b.remote_finished(Ok(Action::Rock));
    b.local_finished(Ok(Some(Action::Paper)));
    assert_eq!(a.outcome(), b.outcome());
}

#[test]
fn remote_failure_decides_the_outcome() {
    let mut rz = Rendezvous::new();
    rz.remote_finished(Err(Fault::ProtocolViolation));
    assert_eq!(rz.outcome(), Some(Err(Fault::ProtocolViolation)));
    rz.local_finished(Ok(Some(Action::Rock)));
    assert_eq!(rz.outcome(), Some(Err(Fault::ProtocolViolation)));
}

#[test]
fn local_failure_decides_the_outcome() {
    let mut rz = Rendezvous::new();
    rz.local_finished(Err(Fault::Io));
    assert_eq!(rz.outcome(), Some(Err(Fault::Io)));
}

#[test]
fn session_exchanges_hellos_before_any_act() {
    let mut session = Session::new();
    assert_eq!(session.phase, SessionPhase::Connecting);
    session.connected();
    let greeting = session.hello(String::from("A"));
    assert_eq!(greeting, Message::Hello { name: String::from("A") });
    session.hello_sent();
    let peer = Message::Hello { name: String::from("B") };
    assert_eq!(session.peer_hello(peer), Ok(()));
    assert_eq!(session.peer_name, Some(String::from("B")));
    assert_eq!(session.phase, SessionPhase::TurnCollection);
    let rendezvous = session.start_turn();
    assert_eq!(rendezvous.outcome(), None);
}

#[test]
fn non_hello_during_handshake_aborts() {
    let mut session = Session::new();
    session.connected();
    session.hello_sent();
    assert_eq!(
        session.peer_hello(Message::Act(Action::Rock)),
        Err(Fault::ProtocolViolation)
    );
    assert_eq!(session.phase, SessionPhase::HandshakeRecv);
}

#[test]
fn played_turn_rock_beats_scissor() {
    let mut session = Session::new();
    session.connected();
    session.hello_sent();
    session.peer_hello(Message::Hello { name: String::from("B") }).unwrap();
    let c = session.conclude(Some(Action::Rock), Action::Scissor);
    assert_eq!(c, Conclusion::Played(Action::Rock, Action::Scissor, Verdict::Win));
    assert_eq!(session.phase, SessionPhase::Resolved);
}

#[test]
fn withdrawal_skips_the_verdict() {
    let mut session = Session::new();
    session.connected();
    session.hello_sent();
    session.peer_hello(Message::Hello { name: String::from("B") }).unwrap();
    // Whatever the remote sent, a withdrawal never evaluates a winner.
    let c = session.conclude(None, Action::Paper);
    assert_eq!(c, Conclusion::Withdrawn);
}
