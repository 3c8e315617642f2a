use vstd::prelude::*;
use crate::error::SessionError;
use crate::session::{ProverPhase, SessionState};

verus! {

/// The next piece of outside work a session run must perform.
#[derive(Clone, Copy, Debug, PartialEq, Eq, Structural)]
pub enum Action {
    /// Initialise the local engine over the notary channel.
    Setup,
    /// Open the server connection and bind it to the engine.
    Connect,
    /// Send the request and wait for the response's status.
    SendRequest,
    /// Join the background protocol task, freezing the transcript.
    JoinBackground,
    /// Move the session into its commit phase.
    StartNotarize,
    /// Build the commitment and ask leave to hand it to the notary.
    Commit,
    /// Exchange the commitment for the notary's reply.
    AwaitReply,
    /// Write the attestation and secrets files.
    Persist,
    /// The session failed: stop.
    Abort,
}

/// The action a run takes next from state `s`.
pub open spec fn next_action_spec(s: SessionState) -> Action {
    match s.phase {
        ProverPhase::Idle => Action::Setup,
        ProverPhase::SettingUp => Action::Connect,
        ProverPhase::Connected => if !s.response_ok {
            Action::SendRequest
        } else if !s.background_joined {
            Action::JoinBackground
        } else {
            Action::StartNotarize
        },
        ProverPhase::Notarizing => if !s.finalize_requested {
            Action::Commit
        } else {
            Action::AwaitReply
        },
        ProverPhase::Finalized => Action::Persist,
        ProverPhase::Failed => Action::Abort,
    }
}

/// Picks the next action of a session run.
pub fn next_action(s: &SessionState) -> (r: Action)
    ensures
        r == next_action_spec(*s),
{
    match s.phase {
        ProverPhase::Idle => Action::Setup,
        ProverPhase::SettingUp => Action::Connect,
        ProverPhase::Connected => if !s.response_ok {
            Action::SendRequest
        } else if !s.background_joined {
            Action::JoinBackground
        } else {
            Action::StartNotarize
        },
        ProverPhase::Notarizing => if !s.finalize_requested {
            Action::Commit
        } else {
            Action::AwaitReply
        },
        ProverPhase::Finalized => Action::Persist,
        ProverPhase::Failed => Action::Abort,
    }
}

/// The run never notarizes early: it enters the commit phase only after a
/// good response and a joined background task, the session then accepts
/// that step, and files are written only once the notary has signed.
pub proof fn lemma_actions_keep_order(s: SessionState)
    requires
        s.wf(),
    ensures
        next_action_spec(s) == Action::StartNotarize ==> s.response_ok && s.background_joined
            && s.after_start_notarize().1 is Ok,
        next_action_spec(s) == Action::Commit ==> s.after_request_finalize(s.sent, s.recv).1 is Ok,
        next_action_spec(s) == Action::Persist ==> s.phase == ProverPhase::Finalized
            && s.finalize_requested && s.response_ok,
{
}

/// The overall result of tasks whose outcomes are listed in the order they
/// finished: the first failure, or success when none failed.
pub fn first_failure(outcomes: &Vec<Result<(), SessionError>>) -> (r: Result<(), SessionError>)
    ensures
        r is Ok <==> forall|i: int| 0 <= i < outcomes@.len() ==> (#[trigger] outcomes@[i]) is Ok,
        r is Err ==> exists|i: int|
            0 <= i < outcomes@.len() && #[trigger] outcomes@[i] == r && forall|j: int|
                0 <= j < i ==> (#[trigger] outcomes@[j]) is Ok,
{
    let mut i: usize = 0;
    while i < outcomes.len()
        invariant
            i <= outcomes@.len(),
            forall|j: int| 0 <= j < i ==> (#[trigger] outcomes@[j]) is Ok,
        decreases outcomes@.len() - i,
    {
        if outcomes[i].is_err() {
            return outcomes[i];
        }
        i = i + 1;
    }
    Ok(())
}

} // verus!
