//! The two turn-collection tasks' decision logic.
//!
//! The local task reads lines until one decides the turn; the remote
//! task receives exactly one message, which must be an `Act`. The
//! line reading and the socket receive happen outside this crate; the
//! functions here make every decision about what was read.

use vstd::prelude::*;
use vstd::string::StrSliceExecFns;
use crate::message::{Action, Message, MessageView, Fault};

verus! {

/// What one input line means.
#[derive(Debug, Clone, Copy, PartialEq, Eq, Structural)]
pub enum LineCommand {
    /// One of the three recognized move commands.
    Move(Action),
    /// The quit command.
    Quit,
    /// Anything else: rejected with a diagnostic and re-prompted.
    Unrecognized,
}

/// The meaning of a line: `r`, `p`, `s` are the moves, `q` quits,
/// everything else is unrecognized.
pub open spec fn spec_parse_line(s: Seq<char>) -> LineCommand {
    if s.len() == 1 {
        if s[0] == 'r' {
            LineCommand::Move(Action::Rock)
        } else if s[0] == 'p' {
            LineCommand::Move(Action::Paper)
        } else if s[0] == 's' {
            LineCommand::Move(Action::Scissor)
        } else if s[0] == 'q' {
            LineCommand::Quit
        } else {
            LineCommand::Unrecognized
        }
    } else {
        LineCommand::Unrecognized
    }
}

/// Classifies one input line.
pub fn parse_line(line: &str) -> (r: LineCommand)
    ensures
        r == spec_parse_line(line@),
{
    if line.unicode_len() != 1 {
        return LineCommand::Unrecognized;
    }
    let c = line.get_char(0);
    if c == 'r' {
        LineCommand::Move(Action::Rock)
    } else if c == 'p' {
        LineCommand::Move(Action::Paper)
    } else if c == 's' {
        LineCommand::Move(Action::Scissor)
    } else if c == 'q' {
        LineCommand::Quit
    } else {
        LineCommand::Unrecognized
    }
}

/// What the local task does after one read of the input source.
#[derive(Debug, Clone, Copy, PartialEq, Eq, Structural)]
pub enum LocalStep {
    /// A move was chosen: send `Act` with it and finish with it.
    Send(Action),
    /// The player withdrew (quit command or end of input): finish
    /// with no action and send nothing.
    Withdraw,
    /// The line was not understood: print a diagnostic and prompt again.
    Retry,
}

/// The view of the optional line the input source produced: `None` is
/// end of input.
pub open spec fn spec_line_view(line: Option<&str>) -> Option<Seq<char>> {
    match line {
        Some(l) => Some(l@),
        None => None,
    }
}

/// The local task's decision for one read line: end of input and the
/// quit command withdraw, a recognized move is sent, and anything else
/// asks for another line with the task's state untouched.
pub open spec fn spec_local_step(line: Option<Seq<char>>) -> LocalStep {
    match line {
        None => LocalStep::Withdraw,
        Some(s) => match spec_parse_line(s) {
            LineCommand::Move(a) => LocalStep::Send(a),
            LineCommand::Quit => LocalStep::Withdraw,
            LineCommand::Unrecognized => LocalStep::Retry,
        },
    }
}

/// Decides the local task's next step from one read of the input
/// source (`None` meaning end of input).
pub fn local_step(line: Option<&str>) -> (r: LocalStep)
    ensures
        r == spec_local_step(spec_line_view(line)),
{
    match line {
        None => LocalStep::Withdraw,
        Some(l) => match parse_line(l) {
            LineCommand::Move(a) => LocalStep::Send(a),
            LineCommand::Quit => LocalStep::Withdraw,
            LineCommand::Unrecognized => LocalStep::Retry,
        },
    }
}

/// The remote task's one decision: during turn collection only `Act`
/// is legal; any other variant is a fatal protocol violation.
pub fn expect_act(m: Message) -> (r: Result<Action, Fault>)
    ensures
        match m@ {
            MessageView::Act(a) => r == Ok::<Action, Fault>(a),
            _ => r == Err::<Action, Fault>(Fault::ProtocolViolation),
        },
{
    match m {
        Message::Act(a) => Ok(a),
        _ => Err(Fault::ProtocolViolation),
    }
}

/// The handshake's one decision: only `Hello` is legal before turn
/// collection; it yields the peer's name, anything else is fatal.
pub fn expect_hello(m: Message) -> (r: Result<String, Fault>)
    ensures
        match m@ {
            MessageView::Hello { name } => r matches Ok(s) && s@ == name,
            _ => r == Err::<String, Fault>(Fault::ProtocolViolation),
        },
{
    match m {
        Message::Hello { name } => Ok(name),
        _ => Err(Fault::ProtocolViolation),
    }
}

} // verus!
