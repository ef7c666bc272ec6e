//! The rendezvous of the two turn-collection tasks.
//!
//! Both tasks run concurrently outside this crate; each reports here
//! exactly once, when it reaches a terminal state. The rendezvous
//! keeps each task's result untouched while the other is still
//! running, combines the two once both are in, and surfaces the first
//! failure without waiting for the sibling — fail-fast, not
//! partial-success. No order of completion is assumed or preferred.

use vstd::prelude::*;
use crate::message::{Action, Fault};

verus! {

/// Where the local task stands: still running, finished with a chosen
/// move or a withdrawal (`None`), or failed.
#[derive(Debug, Clone, Copy, PartialEq, Eq, Structural)]
pub enum LocalStatus {
    Pending,
    Done(Option<Action>),
    Failed(Fault),
}

/// Where the remote task stands: still running, finished with the
/// opponent's move, or failed.
#[derive(Debug, Clone, Copy, PartialEq, Eq, Structural)]
pub enum RemoteStatus {
    Pending,
    Done(Action),
    Failed(Fault),
}

/// The joint state of the two tasks.
#[derive(Debug, Clone, Copy, PartialEq, Eq, Structural)]
pub struct Rendezvous {
    pub local: LocalStatus,
    pub remote: RemoteStatus,
}

/// The state after the local task reports its terminal result.
pub open spec fn spec_local_finished(s: Rendezvous, r: Result<Option<Action>, Fault>) -> Rendezvous {
    Rendezvous {
        local: match r {
            Ok(v) => LocalStatus::Done(v),
            Err(e) => LocalStatus::Failed(e),
        },
        ..s
    }
}

/// The state after the remote task reports its terminal result.
pub open spec fn spec_remote_finished(s: Rendezvous, r: Result<Action, Fault>) -> Rendezvous {
    Rendezvous {
        remote: match r {
            Ok(a) => RemoteStatus::Done(a),
            Err(e) => RemoteStatus::Failed(e),
        },
        ..s
    }
}

/// The combined result, once there is one: the first failure on
/// record, whatever the sibling did or will do; the pair of results
/// once both tasks finished; nothing while neither holds.
pub open spec fn spec_outcome(s: Rendezvous) -> Option<
    Result<(Option<Action>, Action), Fault>,
> {
    match s.remote {
        RemoteStatus::Failed(e) => Some(Err(e)),
        _ => match s.local {
            LocalStatus::Failed(e) => Some(Err(e)),
            _ => match (s.local, s.remote) {
                (LocalStatus::Done(v), RemoteStatus::Done(a)) => Some(Ok((v, a))),
                _ => None,
            },
        },
    }
}

impl Rendezvous {
    /// Starts both tasks together: neither has a result yet.
    pub fn new() -> (s: Rendezvous)
        ensures
            s == (Rendezvous { local: LocalStatus::Pending, remote: RemoteStatus::Pending }),
    {
        Rendezvous { local: LocalStatus::Pending, remote: RemoteStatus::Pending }
    }

    /// Records the local task's terminal result. The remote task's
    /// state — finished or still in flight — is untouched.
    pub fn local_finished(&mut self, r: Result<Option<Action>, Fault>)
        requires
            old(self).local is Pending,
        ensures
            *final(self) == spec_local_finished(*old(self), r),
            final(self).remote == old(self).remote,
    {
        self.local = match r {
            Ok(v) => LocalStatus::Done(v),
            Err(e) => LocalStatus::Failed(e),
        };
    }

    /// Records the remote task's terminal result. The local task's
    /// state is untouched.
    pub fn remote_finished(&mut self, r: Result<Action, Fault>)
        requires
            old(self).remote is Pending,
        ensures
            *final(self) == spec_remote_finished(*old(self), r),
            final(self).local == old(self).local,
    {
        self.remote = match r {
            Ok(a) => RemoteStatus::Done(a),
            Err(e) => RemoteStatus::Failed(e),
        };
    }

    /// The combined result so far, exactly [`spec_outcome`]: `None`
    /// while both tasks may still succeed and one is running.
    pub fn outcome(&self) -> (r: Option<Result<(Option<Action>, Action), Fault>>)
        ensures
            r == spec_outcome(*self),
    {
        match self.remote {
            RemoteStatus::Failed(e) => Some(Err(e)),
            _ => match self.local {
                LocalStatus::Failed(e) => Some(Err(e)),
                _ => match (self.local, self.remote) {
                    (LocalStatus::Done(v), RemoteStatus::Done(a)) => Some(Ok((v, a))),
                    _ => None,
                },
            },
        }
    }
}

/// Scheduler non-interference: a remote result that is already in is
/// not lost while the local task keeps waiting; when the local task
/// finally finishes, the combined outcome carries both values.
pub proof fn lemma_non_interference(s: Rendezvous, v: Option<Action>, a: Action)
    requires
        s.local is Pending,
        s.remote == RemoteStatus::Done(a),
    ensures
        spec_outcome(s) is None,
        spec_outcome(spec_local_finished(s, Ok(v))) == Some(
            Ok::<(Option<Action>, Action), Fault>((v, a)),
        ),
{
}

/// Fail-fast: once the remote task has failed with a protocol
/// violation, that failure is the overall result, both at once and
/// after the local task later reports any outcome whatsoever.
pub proof fn lemma_fail_fast(s: Rendezvous, r: Result<Option<Action>, Fault>)
    requires
        s.remote == RemoteStatus::Failed(Fault::ProtocolViolation),
    ensures
        spec_outcome(s) == Some(Err::<(Option<Action>, Action), Fault>(Fault::ProtocolViolation)),
        spec_outcome(spec_local_finished(s, r)) == Some(
            Err::<(Option<Action>, Action), Fault>(Fault::ProtocolViolation),
        ),
{
}

} // verus!
